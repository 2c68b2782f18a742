//! Layered configuration resolution and step selection.
//!
//! Configuration fragments are sparse records. They are folded, left to right,
//! into one resolved record, each field by its own strategy; the resolved record
//! and the command-line arguments together decide every setting of a run and the
//! set of steps that the run performs.
//!
//! - [`sources`] decides which fragments a run has and in what order they load.
//! - [`fragment`] works on the text of a fragment before it is parsed.
//! - [`reader`] leads through the loading of the fragments, and [`world`] says
//!   in one piece what the loading gives.
//! - [`strategy`], [`sections`], [`commands`] and [`config_file`] hold the
//!   records and how they merge.
//! - [`step`] lists the steps, and [`resolver`] chooses those of a run.
//! - [`args`] holds the arguments of the command line, and [`config`] answers
//!   for every setting; [`words`] and [`remote`] serve two of the answers.
//!
//! The library reads no file. What it needs from outside it is handed as plain
//! values, and where it needs work on files it asks for it. Of the environment
//! it uses the home directory alone, in the expansion of paths.

pub mod args;
pub mod commands;
pub mod config;
pub mod config_file;
pub mod fragment;
pub mod reader;
pub mod remote;
pub mod resolver;
pub mod sections;
pub mod sources;
pub mod step;
pub mod strategy;
pub mod words;
pub mod world;

pub use args::{CommandLineArgs, DEFAULT_LOG_LEVEL};
pub use commands::Commands;
pub use config::{config_directory, Config, Context, TmuxConfig};
pub use config_file::ConfigFile;
pub use reader::{Phase, ReadError, Reader, Reply, Request};
pub use sections::general::{Include, Misc, SudoKind, TmuxSessionMode};
pub use sections::system::{ArchPackageManager, Brew, Distrobox, Firmware, Flatpak, Linux, Windows};
pub use sections::tools::{
    Composer, ContainerRuntime, Containers, Deno, Git, JuliaConfig, Lensfun, Python, Vagrant, Vim, VscodeConfig,
    Yarn, Zigup, NPM,
};
pub use sources::{Candidate, Sources};
pub use step::Step;
pub use strategy::Merge;
pub use words::MalformedArguments;
