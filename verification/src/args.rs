//! The arguments of the command line, as far as they bear on the settings.

use crate::step::Step;
use crate::strategy::{items, lines, text};
use vstd::prelude::*;

verus! {

/// The log level where the command line names none.
pub const DEFAULT_LOG_LEVEL: &'static str = "warn";

/// The arguments of the command line.
#[derive(Debug)]
pub struct CommandLineArgs {
    /// Edit the configuration file.
    pub edit_config: bool,
    /// Show the reference of the configuration.
    pub show_config_reference: bool,
    /// Run inside tmux.
    pub run_in_tmux: bool,
    /// Clean up temporary or old files.
    pub cleanup: bool,
    /// Print what would be done.
    pub dry_run: bool,
    /// Do not ask to retry failed steps.
    pub no_retry: bool,
    /// Do not perform the given steps.
    pub disable: Vec<Step>,
    /// Perform only the given steps.
    pub only: Vec<Step>,
    /// Run only the given custom commands.
    pub custom_commands: Vec<String>,
    /// Variables to set in the environment, each as `NAME=VALUE`.
    pub env: Vec<String>,
    /// Log at the level `debug` too.
    pub verbose: bool,
    /// Ask for a key before leaving.
    pub keep_at_end: bool,
    /// Send no notification at the end of the run.
    pub skip_notify: bool,
    /// Say yes to the questions of the given steps; of all steps where the
    /// list is empty.
    pub yes: Option<Vec<Step>>,
    /// Do not pull the predefined repositories.
    pub disable_predefined_git_repos: bool,
    /// The fragment to load in place of those of the configuration directory.
    pub config: Option<String>,
    /// The expression that a remote host must match for the run to go on to it.
    pub remote_host_limit: Option<String>,
    /// Show why steps were skipped.
    pub show_skipped: bool,
    /// The filter directives of the log.
    pub log_filter: String,
    /// Print the manual page and leave.
    pub gen_manpage: bool,
    /// Do not update the program itself.
    pub no_self_update: bool,
}

/// What the arguments hold.
pub struct CommandLineArgsView {
    pub edit_config: bool,
    pub show_config_reference: bool,
    pub run_in_tmux: bool,
    pub cleanup: bool,
    pub dry_run: bool,
    pub no_retry: bool,
    pub disable: Seq<Step>,
    pub only: Seq<Step>,
    pub custom_commands: Seq<Seq<char>>,
    pub env: Seq<Seq<char>>,
    pub verbose: bool,
    pub keep_at_end: bool,
    pub skip_notify: bool,
    pub yes: Option<Seq<Step>>,
    pub disable_predefined_git_repos: bool,
    pub config: Option<Seq<char>>,
    pub remote_host_limit: Option<Seq<char>>,
    pub show_skipped: bool,
    pub log_filter: Seq<char>,
    pub gen_manpage: bool,
    pub no_self_update: bool,
}

impl CommandLineArgsView {
    /// The arguments of a command line that names none.
    pub open spec fn empty() -> CommandLineArgsView {
        CommandLineArgsView {
            edit_config: false,
            show_config_reference: false,
            run_in_tmux: false,
            cleanup: false,
            dry_run: false,
            no_retry: false,
            disable: Seq::empty(),
            only: Seq::empty(),
            custom_commands: Seq::empty(),
            env: Seq::empty(),
            verbose: false,
            keep_at_end: false,
            skip_notify: false,
            yes: None,
            disable_predefined_git_repos: false,
            config: None,
            remote_host_limit: None,
            show_skipped: false,
            log_filter: DEFAULT_LOG_LEVEL@,
            gen_manpage: false,
            no_self_update: false,
        }
    }

    /// The filter directives that the command line alone gives: its own, and
    /// `debug` behind them where it asks for that.
    pub open spec fn tracing_filter_directives(self) -> Seq<char> {
        if self.verbose {
            self.log_filter + ",debug"@
        } else {
            self.log_filter
        }
    }
}

impl View for CommandLineArgs {
    type V = CommandLineArgsView;

    open spec fn view(&self) -> CommandLineArgsView {
        CommandLineArgsView {
            edit_config: self.edit_config,
            show_config_reference: self.show_config_reference,
            run_in_tmux: self.run_in_tmux,
            cleanup: self.cleanup,
            dry_run: self.dry_run,
            no_retry: self.no_retry,
            disable: self.disable@,
            only: self.only@,
            custom_commands: lines(self.custom_commands@),
            env: lines(self.env@),
            verbose: self.verbose,
            keep_at_end: self.keep_at_end,
            skip_notify: self.skip_notify,
            yes: items(self.yes),
            disable_predefined_git_repos: self.disable_predefined_git_repos,
            config: text(self.config),
            remote_host_limit: text(self.remote_host_limit),
            show_skipped: self.show_skipped,
            log_filter: self.log_filter@,
            gen_manpage: self.gen_manpage,
            no_self_update: self.no_self_update,
        }
    }
}

impl Default for CommandLineArgs {
    fn default() -> (args: CommandLineArgs)
        ensures
            args@ == CommandLineArgsView::empty(),
    {
        let args = CommandLineArgs {
            edit_config: false,
            show_config_reference: false,
            run_in_tmux: false,
            cleanup: false,
            dry_run: false,
            no_retry: false,
            disable: Vec::new(),
            only: Vec::new(),
            custom_commands: Vec::new(),
            env: Vec::new(),
            verbose: false,
            keep_at_end: false,
            skip_notify: false,
            yes: None,
            disable_predefined_git_repos: false,
            config: None,
            remote_host_limit: None,
            show_skipped: false,
            log_filter: DEFAULT_LOG_LEVEL.to_owned(),
            gen_manpage: false,
            no_self_update: false,
        };
        proof {
            assert(args@.custom_commands =~= Seq::empty());
            assert(args@.env =~= Seq::empty());
        }
        args
    }
}

impl CommandLineArgs {
    /// Whether to edit the configuration file.
    pub fn edit_config(&self) -> (edit: bool)
        ensures
            edit == self@.edit_config,
    {
        self.edit_config
    }

    /// Whether to show the reference of the configuration.
    pub fn show_config_reference(&self) -> (show: bool)
        ensures
            show == self@.show_config_reference,
    {
        self.show_config_reference
    }

    /// The variables to set in the environment.
    pub fn env_variables(&self) -> (variables: &Vec<String>)
        ensures
            lines(variables@) == self@.env,
    {
        &self.env
    }

    /// The filter directives that are known before any fragment is loaded:
    /// those of the command line, and `debug` behind them where it asks for
    /// that.
    pub fn tracing_filter_directives(&self) -> (directives: String)
        ensures
            directives@ == self@.tracing_filter_directives(),
    {
        let mut directives = self.log_filter.clone();
        if self.verbose {
            directives.append(",debug");
        }
        directives
    }
}

} // verus!
