//! The settings of a run.
//!
//! Every setting is decided in one way: the command line where it says
//! something, else the resolved record where it holds the field, else a fixed
//! default.

use crate::args::{CommandLineArgs, CommandLineArgsView};
use crate::commands::{table, Commands};
use crate::config_file::{ConfigFile, ConfigFileView};
use crate::reader::ReadError;
use crate::remote::{admitted, host_of, pattern_matches, should_execute};
use crate::resolver::{holds, resolve, resolved};
use crate::sections::general::{SudoKind, TmuxSessionMode};
use crate::sections::system::ArchPackageManager;
use crate::sections::tools::ContainerRuntime;
use crate::step::Step;
use crate::strategy::lines;
use crate::words::{split_words, tokenize, MalformedArguments};
use vstd::prelude::*;

verus! {

/// What the surroundings of the program say, found out once at its start.
#[derive(Debug)]
pub struct Context {
    /// The directory below which the fragments lie.
    pub config_directory: String,
    /// Whether the environment asks for a key before the program leaves.
    pub keep_at_end: bool,
}

/// The directory below which the fragments lie.
pub fn config_directory(context: &Context) -> (directory: &str)
    ensures
        directory@ == context.config_directory@,
{
    context.config_directory.as_str()
}

/// How tmux is started.
#[derive(Debug)]
pub struct TmuxConfig {
    /// Extra arguments of tmux.
    pub args: Vec<String>,
    /// How the new session is entered.
    pub session_mode: TmuxSessionMode,
}

/// The value of a field, or the default where the field is not set.
pub open spec fn or<T>(value: Option<T>, default: T) -> T {
    match value {
        Some(v) => v,
        None => default,
    }
}

/// The characters of an optional string slice.
pub open spec fn slice_text(value: Option<&str>) -> Option<Seq<char>> {
    match value {
        Some(s) => Some(s@),
        None => None,
    }
}

/// The characters of an optional borrowed string.
pub open spec fn string_text(value: Option<&String>) -> Option<Seq<char>> {
    match value {
        Some(s) => Some(s@),
        None => None,
    }
}

/// The strings of an optional borrowed list, each by its characters.
pub open spec fn list_texts(value: Option<&Vec<String>>) -> Option<Seq<Seq<char>>> {
    match value {
        Some(list) => Some(lines(list@)),
        None => None,
    }
}

/// Whether a setting that is given as a list of steps applies to a step: it
/// applies to the steps of the list, and to every step where the list is empty.
pub open spec fn applies(list: Seq<Step>, step: Step) -> bool {
    list.len() == 0 || list.contains(step)
}

/// The strings of a list in one string, with a comma between each two.
pub open spec fn joined(list: Seq<Seq<char>>) -> Seq<char>
    decreases list.len(),
{
    if list.len() == 0 {
        Seq::empty()
    } else if list.len() == 1 {
        list[0]
    } else {
        joined(list.drop_last()).push(',') + list.last()
    }
}

/// The settings of a run: the arguments of the command line, the resolved
/// record, and the steps that follow from the two.
#[derive(Debug)]
pub struct Config {
    opt: CommandLineArgs,
    config_file: ConfigFile,
    allowed_steps: Vec<Step>,
    context: Context,
}

/// What the settings rest on.
pub struct ConfigView {
    /// The arguments of the command line.
    pub opt: CommandLineArgsView,
    /// The resolved record.
    pub config_file: ConfigFileView,
    /// The directory below which the fragments lie.
    pub config_directory: Seq<char>,
    /// Whether the environment asks for a key before the program leaves.
    pub keep_at_end: bool,
}

impl ConfigView {
    /// The steps that the run performs.
    pub open spec fn allowed_steps(self) -> Seq<Step> {
        resolved(
            self.opt.only,
            self.opt.disable,
            or(self.config_file.misc_settings().only, Seq::empty()),
            or(self.config_file.misc_settings().disable, Seq::empty()),
        )
    }

    /// The filter directives of the log: those of the resolved record, those
    /// of the command line, and `debug` where the command line asks for it.
    pub open spec fn tracing_filter_directives(self) -> Seq<char> {
        let first = joined(or(self.config_file.misc_settings().log_filters, Seq::empty())).push(',')
            + self.opt.log_filter;
        if self.opt.verbose {
            first + ",debug"@
        } else {
            first
        }
    }

    /// The tmux arguments as they are written; empty where there are none.
    pub open spec fn tmux_arguments(self) -> Seq<char> {
        or(self.config_file.misc_settings().tmux_arguments, Seq::empty())
    }
}

impl View for Config {
    type V = ConfigView;

    closed spec fn view(&self) -> ConfigView {
        ConfigView {
            opt: self.opt@,
            config_file: self.config_file@,
            config_directory: self.context.config_directory@,
            keep_at_end: self.context.keep_at_end,
        }
    }
}

/// A copy of a list of strings.
fn copied(list: &Vec<String>) -> (copy: Vec<String>)
    ensures
        lines(copy@) == lines(list@),
{
    let mut copy: Vec<String> = Vec::new();
    let mut at: usize = 0;
    while at < list.len()
        invariant
            at <= list.len(),
            copy@.len() == at,
            forall|k: int| 0 <= k < at ==> copy@[k]@ == list@[k]@,
        decreases list.len() - at,
    {
        copy.push(list[at].clone());
        at += 1;
    }
    proof {
        assert(lines(copy@) =~= lines(list@));
    }
    copy
}

/// The strings of a list in one string, with a comma between each two.
fn join(list: &Vec<String>) -> (line: String)
    ensures
        line@ == joined(lines(list@)),
{
    let mut line = String::new();
    let mut at: usize = 0;
    proof {
        assert(lines(list@).take(0) =~= Seq::empty());
    }
    while at < list.len()
        invariant
            at <= list.len(),
            line@ == joined(lines(list@).take(at as int)),
        decreases list.len() - at,
    {
        proof {
            reveal_strlit(",");
            let next = lines(list@).take(at + 1);
            assert(next.drop_last() =~= lines(list@).take(at as int));
            assert(next.last() == list@[at as int]@);
            assert(line@ + ","@ =~= line@.push(','));
            if at == 0 {
                assert(Seq::<char>::empty() + list@[0]@ =~= list@[0]@);
            }
        }
        if at > 0 {
            line.append(",");
        }
        line.append(list[at].as_str());
        at += 1;
    }
    proof {
        assert(lines(list@).take(at as int) =~= lines(list@));
    }
    line
}

impl Config {
    #[verifier::type_invariant]
    closed spec fn inv(self) -> bool {
        self.allowed_steps@ == self@.allowed_steps()
    }

    /// The settings of a run, from the arguments of the command line and from
    /// what reading the fragments gave. Where reading gave no record, for
    /// whatever reason, the settings rest on the empty one.
    pub fn load(opt: CommandLineArgs, context: Context, read: Option<Result<ConfigFile, ReadError>>) -> (config:
        Config)
        ensures
            config@.opt == opt@,
            config@.config_file == match read {
                Some(Ok(record)) => record@,
                _ => ConfigFileView::empty(),
            },
            config@.config_directory == context.config_directory@,
            config@.keep_at_end == context.keep_at_end,
    {
        let config_file = match read {
            Some(Ok(record)) => record,
            _ => ConfigFile::default(),
        };
        let allowed_steps = Config::allowed_steps(&opt, &config_file);
        Config { opt, config_file, allowed_steps, context }
    }

    /// The steps that a run performs.
    pub fn allowed_steps(opt: &CommandLineArgs, config_file: &ConfigFile) -> (steps: Vec<Step>)
        ensures
            steps@ == resolved(
                opt@.only,
                opt@.disable,
                or(config_file@.misc_settings().only, Seq::empty()),
                or(config_file@.misc_settings().disable, Seq::empty()),
            ),
    {
        let none: Vec<Step> = Vec::new();
        let (config_only, config_disable) = match &config_file.misc {
            Some(misc) => (
                match &misc.only {
                    Some(only) => only,
                    None => &none,
                },
                match &misc.disable {
                    Some(disable) => disable,
                    None => &none,
                },
            ),
            None => (&none, &none),
        };
        resolve(&opt.only, &opt.disable, config_only, config_disable)
    }

    /// Whether the run performs a step.
    pub fn should_run(&self, step: Step) -> (run: bool)
        ensures
            run == self@.allowed_steps().contains(step),
    {
        proof {
            use_type_invariant(self);
        }
        holds(&self.allowed_steps, step)
    }

    /// The commands that run before the steps.
    pub fn pre_commands(&self) -> (commands: &Option<Commands>)
        ensures
            table(*commands) == self@.config_file.pre_commands,
    {
        &self.config_file.pre_commands
    }

    /// The commands that run after the steps.
    pub fn post_commands(&self) -> (commands: &Option<Commands>)
        ensures
            table(*commands) == self@.config_file.post_commands,
    {
        &self.config_file.post_commands
    }

    /// The custom steps.
    pub fn commands(&self) -> (commands: &Option<Commands>)
        ensures
            table(*commands) == self@.config_file.commands,
    {
        &self.config_file.commands
    }

    /// Whether the program leaves itself as it is.
    pub fn no_self_update(&self) -> (enabled: bool)
        ensures
            enabled == (self@.opt.no_self_update || or(self@.config_file.misc_settings().no_self_update, false)),
    {
        self.opt.no_self_update || match &self.config_file.misc {
            Some(misc) => misc.no_self_update.unwrap_or(false),
            None => false,
        }
    }

    /// Whether the run takes place in tmux.
    pub fn run_in_tmux(&self) -> (enabled: bool)
        ensures
            enabled == (self@.opt.run_in_tmux || or(self@.config_file.misc_settings().run_in_tmux, false)),
    {
        self.opt.run_in_tmux || match &self.config_file.misc {
            Some(misc) => misc.run_in_tmux.unwrap_or(false),
            None => false,
        }
    }

    /// Whether the steps clean up behind them.
    pub fn cleanup(&self) -> (enabled: bool)
        ensures
            enabled == (self@.opt.cleanup || or(self@.config_file.misc_settings().cleanup, false)),
    {
        self.opt.cleanup || match &self.config_file.misc {
            Some(misc) => misc.cleanup.unwrap_or(false),
            None => false,
        }
    }

    /// Whether a failed step is left without asking to retry it.
    pub fn no_retry(&self) -> (enabled: bool)
        ensures
            enabled == (self@.opt.no_retry || or(self@.config_file.misc_settings().no_retry, false)),
    {
        self.opt.no_retry || match &self.config_file.misc {
            Some(misc) => misc.no_retry.unwrap_or(false),
            None => false,
        }
    }

    /// Whether no notification is sent at the end of the run.
    pub fn skip_notify(&self) -> (enabled: bool)
        ensures
            enabled == (self@.opt.skip_notify || or(self@.config_file.misc_settings().skip_notify, false)),
    {
        self.opt.skip_notify || match &self.config_file.misc {
            Some(misc) => misc.skip_notify.unwrap_or(false),
            None => false,
        }
    }

    /// Whether the run only prints what it would do.
    pub fn dry_run(&self) -> (enabled: bool)
        ensures
            enabled == self@.opt.dry_run,
    {
        self.opt.dry_run
    }

    /// Whether the log holds the level `debug` too.
    pub fn verbose(&self) -> (enabled: bool)
        ensures
            enabled == self@.opt.verbose,
    {
        self.opt.verbose
    }

    /// Whether the reasons for skipped steps are shown.
    pub fn show_skipped(&self) -> (enabled: bool)
        ensures
            enabled == self@.opt.show_skipped,
    {
        self.opt.show_skipped
    }

    /// Whether the program asks for a key before it leaves.
    pub fn keep_at_end(&self) -> (enabled: bool)
        ensures
            enabled == (self@.opt.keep_at_end || self@.keep_at_end),
    {
        self.opt.keep_at_end || self.context.keep_at_end
    }

    /// Whether the predefined repositories are pulled.
    pub fn use_predefined_git_repos(&self) -> (enabled: bool)
        ensures
            enabled == (!self@.opt.disable_predefined_git_repos && or(
                self@.config_file.git_settings().pull_predefined,
                true,
            )),
    {
        !self.opt.disable_predefined_git_repos && match &self.config_file.git {
            Some(git) => git.pull_predefined.unwrap_or(true),
            None => true,
        }
    }

    /// Whether the questions of a step are answered with yes. The list of
    /// the command line decides where there is one, and applies to every step
    /// where it is empty; else the resolved record decides.
    pub fn yes(&self, step: Step) -> (enabled: bool)
        ensures
            enabled == match self@.opt.yes {
                Some(list) => applies(list, step),
                None => or(self@.config_file.misc_settings().assume_yes, false),
            },
    {
        match &self.opt.yes {
            Some(list) => list.len() == 0 || holds(list, step),
            None => match &self.config_file.misc {
                Some(misc) => misc.assume_yes.unwrap_or(false),
                None => false,
            },
        }
    }

    /// Whether the failure of a step is passed over. The list of the
    /// resolved record decides, and applies to every step where it is empty.
    pub fn ignore_failure(&self, step: Step) -> (ignored: bool)
        ensures
            ignored == match self@.config_file.misc_settings().ignore_failures {
                Some(list) => applies(list, step),
                None => false,
            },
    {
        match &self.config_file.misc {
            Some(misc) => match &misc.ignore_failures {
                Some(list) => list.len() == 0 || holds(list, step),
                None => false,
            },
            None => false,
        }
    }

    /// Whether a custom command runs: each one does where the command line
    /// names none, else those that it names.
    pub fn should_run_custom_command(&self, name: &str) -> (run: bool)
        ensures
            run == (self@.opt.custom_commands.len() == 0 || self@.opt.custom_commands.contains(name@)),
    {
        if self.opt.custom_commands.len() == 0 {
            return true;
        }
        let wanted = name.to_owned();
        let mut at: usize = 0;
        while at < self.opt.custom_commands.len()
            invariant
                at <= self.opt.custom_commands.len(),
                wanted@ == name@,
                forall|k: int| 0 <= k < at ==> lines(self.opt.custom_commands@)[k] != name@,
            decreases self.opt.custom_commands.len() - at,
        {
            if self.opt.custom_commands[at] == wanted {
                proof {
                    assert(lines(self.opt.custom_commands@)[at as int] == name@);
                }
                return true;
            }
            at += 1;
        }
        false
    }

    /// Whether the run goes on to `remote`, where `hostname` is the name of
    /// the host that the run is on, if it could be found out. The run does not
    /// go to its own host, and of the others it goes to those that the limit of
    /// the command line admits.
    pub fn should_execute_remote<E>(&self, hostname: Result<String, E>, remote: &str) -> (run: bool)
        ensures
            run == admitted(
                hostname matches Ok(name) && name@ == host_of(remote@),
                match self@.opt.remote_host_limit {
                    Some(expression) => Some(pattern_matches(expression, host_of(remote@))),
                    None => None,
                },
            ),
    {
        let limit = match &self.opt.remote_host_limit {
            Some(expression) => Some(expression.as_str()),
            None => None,
        };
        match &hostname {
            Ok(name) => should_execute(Some(name.as_str()), remote, limit),
            Err(_) => should_execute(None, remote, limit),
        }
    }

    /// The filter directives of the log: those of the resolved record, those
    /// of the command line, and `debug` where the command line asks for it. Of
    /// two directives for one target the later one counts.
    pub fn tracing_filter_directives(&self) -> (directives: String)
        ensures
            directives@ == self@.tracing_filter_directives(),
    {
        let mut directives = match &self.config_file.misc {
            Some(misc) => match &misc.log_filters {
                Some(filters) => join(filters),
                None => String::new(),
            },
            None => String::new(),
        };
        proof {
            reveal_strlit(",");
            assert(directives@ + ","@ =~= directives@.push(','));
        }
        directives.append(",");
        directives.append(self.opt.log_filter.as_str());
        if self.opt.verbose {
            directives.append(",debug");
        }
        directives
    }

    /// The extra arguments of tmux as words.
    pub fn tmux_arguments(&self) -> (outcome: Result<Vec<String>, MalformedArguments>)
        ensures
            match outcome {
                Ok(words) => split_words(self@.tmux_arguments()) == Some(lines(words@)),
                Err(error) => {
                    &&& split_words(self@.tmux_arguments()) is None
                    &&& error.field@ == "tmux_arguments"@
                    &&& error.value@ == self@.tmux_arguments()
                },
            },
            self@.tmux_arguments().len() == 0 ==> outcome is Ok,
    {
        let written = match &self.config_file.misc {
            Some(misc) => match &misc.tmux_arguments {
                Some(arguments) => arguments.as_str(),
                None => "",
            },
            None => "",
        };
        proof {
            reveal_strlit("");
            assert(""@ =~= Seq::<char>::empty());
        }
        tokenize("tmux_arguments", written)
    }

    /// How tmux is started; an error where its extra arguments are no list
    /// of words.
    pub fn tmux_config(&self) -> (outcome: Result<TmuxConfig, MalformedArguments>)
        ensures
            match outcome {
                Ok(tmux) => {
                    &&& split_words(self@.tmux_arguments()) == Some(lines(tmux.args@))
                    &&& tmux.session_mode == or(
                        self@.config_file.misc_settings().tmux_session_mode,
                        TmuxSessionMode::AttachIfNotInSession,
                    )
                },
                Err(error) => {
                    &&& split_words(self@.tmux_arguments()) is None
                    &&& error.field@ == "tmux_arguments"@
                    &&& error.value@ == self@.tmux_arguments()
                },
            },
            self@.tmux_arguments().len() == 0 ==> outcome is Ok,
    {
        match self.tmux_arguments() {
            Ok(args) => Ok(TmuxConfig { args, session_mode: self.tmux_session_mode() }),
            Err(error) => Err(error),
        }
    }

    /// The versions of Zig that Zigup keeps.
    pub fn zigup_target_versions(&self) -> (versions: Vec<String>)
        ensures
            lines(versions@) == or(self@.config_file.zigup_settings().target_versions, seq!["master"@]),
    {
        match &self.config_file.zigup {
            Some(zigup) => match &zigup.target_versions {
                Some(versions) => {
                    return copied(versions);
                },
                None => {},
            },
            None => {},
        }
        let mut versions: Vec<String> = Vec::new();
        versions.push("master".to_owned());
        proof {
            assert(lines(versions@) =~= seq!["master"@]);
        }
        versions
    }

    /// The profile of Visual Studio Code, where one is named.
    pub fn vscode_profile(&self) -> (profile: Option<&str>)
        ensures
            slice_text(profile) == match self@.config_file.vscode_settings().profile {
                Some(name) if name.len() > 0 => Some(name),
                _ => None,
            },
    {
        match &self.config_file.vscode {
            Some(vscode) => match &vscode.profile {
                Some(name) => if name.as_str().is_empty() {
                    None
                } else {
                    Some(name.as_str())
                },
                None => None,
            },
            None => None,
        }
    }

    /// Whether to set the title of the terminal.
    pub fn set_title(&self) -> (enabled: bool)
        ensures
            enabled == or(self@.config_file.misc_settings().set_title, true),
    {
        match &self.config_file.misc {
            Some(misc) => misc.set_title.unwrap_or(true),
            None => true,
        }
    }

    /// Whether to accept every update of Windows.
    pub fn accept_all_windows_updates(&self) -> (enabled: bool)
        ensures
            enabled == or(self@.config_file.windows_settings().accept_all_updates, true),
    {
        match &self.config_file.windows {
            Some(windows) => windows.accept_all_updates.unwrap_or(true),
            None => true,
        }
    }

    /// Whether the program renames its own file while it runs.
    pub fn self_rename(&self) -> (enabled: bool)
        ensures
            enabled == or(self@.config_file.windows_settings().self_rename, false),
    {
        match &self.config_file.windows {
            Some(windows) => windows.self_rename.unwrap_or(false),
            None => false,
        }
    }

    /// Whether the update of WSL takes pre-releases.
    pub fn wsl_update_pre_release(&self) -> (enabled: bool)
        ensures
            enabled == or(self@.config_file.windows_settings().wsl_update_pre_release, false),
    {
        match &self.config_file.windows {
            Some(windows) => windows.wsl_update_pre_release.unwrap_or(false),
            None => false,
        }
    }

    /// Whether the update of WSL downloads from the web.
    pub fn wsl_update_use_web_download(&self) -> (enabled: bool)
        ensures
            enabled == or(self@.config_file.windows_settings().wsl_update_use_web_download, false),
    {
        match &self.config_file.windows {
            Some(windows) => windows.wsl_update_use_web_download.unwrap_or(false),
            None => false,
        }
    }

    /// Whether Winget runs with privileges.
    pub fn winget_use_sudo(&self) -> (enabled: bool)
        ensures
            enabled == or(self@.config_file.windows_settings().winget_use_sudo, false),
    {
        match &self.config_file.windows {
            Some(windows) => windows.winget_use_sudo.unwrap_or(false),
            None => false,
        }
    }

    /// Whether Homebrew upgrades casks greedily.
    pub fn brew_cask_greedy(&self) -> (enabled: bool)
        ensures
            enabled == or(self@.config_file.brew_settings().greedy_cask, false),
    {
        match &self.config_file.brew {
            Some(brew) => brew.greedy_cask.unwrap_or(false),
            None => false,
        }
    }

    /// Whether Homebrew upgrades casks of the version `latest`.
    pub fn brew_greedy_latest(&self) -> (enabled: bool)
        ensures
            enabled == or(self@.config_file.brew_settings().greedy_latest, false),
    {
        match &self.config_file.brew {
            Some(brew) => brew.greedy_latest.unwrap_or(false),
            None => false,
        }
    }

    /// Whether Homebrew upgrades casks that update themselves.
    pub fn brew_greedy_auto_updates(&self) -> (enabled: bool)
        ensures
            enabled == or(self@.config_file.brew_settings().greedy_auto_updates, false),
    {
        match &self.config_file.brew {
            Some(brew) => brew.greedy_auto_updates.unwrap_or(false),
            None => false,
        }
    }

    /// Whether Homebrew removes what is no longer needed.
    pub fn brew_autoremove(&self) -> (enabled: bool)
        ensures
            enabled == or(self@.config_file.brew_settings().autoremove, false),
    {
        match &self.config_file.brew {
            Some(brew) => brew.autoremove.unwrap_or(false),
            None => false,
        }
    }

    /// Whether Homebrew upgrades formulae built from the head of their branch.
    pub fn brew_fetch_head(&self) -> (enabled: bool)
        ensures
            enabled == or(self@.config_file.brew_settings().fetch_head, false),
    {
        match &self.config_file.brew {
            Some(brew) => brew.fetch_head.unwrap_or(false),
            None => false,
        }
    }

    /// Whether Composer updates itself.
    pub fn composer_self_update(&self) -> (enabled: bool)
        ensures
            enabled == or(self@.config_file.composer_settings().self_update, false),
    {
        match &self.config_file.composer {
            Some(composer) => composer.self_update.unwrap_or(false),
            None => false,
        }
    }

    /// Whether the plugins of Vim are updated by force.
    pub fn force_vim_plug_update(&self) -> (enabled: bool)
        ensures
            enabled == or(self@.config_file.vim_settings().force_plug_update, false),
    {
        match &self.config_file.vim {
            Some(vim) => vim.force_plug_update.unwrap_or(false),
            None => false,
        }
    }

    /// Whether a notification is sent at the start of every step.
    pub fn notify_each_step(&self) -> (enabled: bool)
        ensures
            enabled == or(self@.config_file.misc_settings().notify_each_step, false),
    {
        match &self.config_file.misc {
            Some(misc) => misc.notify_each_step.unwrap_or(false),
            None => false,
        }
    }

    /// Whether the news of Arch Linux are shown.
    pub fn show_arch_news(&self) -> (enabled: bool)
        ensures
            enabled == or(self@.config_file.linux_settings().show_arch_news, true),
    {
        match &self.config_file.linux {
            Some(linux) => linux.show_arch_news.unwrap_or(true),
            None => true,
        }
    }

    /// Whether Distrobox runs as root.
    pub fn distrobox_root(&self) -> (enabled: bool)
        ensures
            enabled == or(self@.config_file.distrobox_settings().use_root, false),
    {
        match &self.config_file.distrobox {
            Some(distrobox) => distrobox.use_root.unwrap_or(false),
            None => false,
        }
    }

    /// Whether tlmgr runs on Linux.
    pub fn enable_tlmgr_linux(&self) -> (enabled: bool)
        ensures
            enabled == or(self@.config_file.linux_settings().enable_tlmgr, false),
    {
        match &self.config_file.linux {
            Some(linux) => linux.enable_tlmgr.unwrap_or(false),
            None => false,
        }
    }

    /// Whether the distributions of Red Hat are synchronised rather than updated.
    pub fn redhat_distro_sync(&self) -> (enabled: bool)
        ensures
            enabled == or(self@.config_file.linux_settings().redhat_distro_sync, false),
    {
        match &self.config_file.linux {
            Some(linux) => linux.redhat_distro_sync.unwrap_or(false),
            None => false,
        }
    }

    /// Whether zypper upgrades the distribution rather than updating it.
    pub fn suse_dup(&self) -> (enabled: bool)
        ensures
            enabled == or(self@.config_file.linux_settings().suse_dup, false),
    {
        match &self.config_file.linux {
            Some(linux) => linux.suse_dup.unwrap_or(false),
            None => false,
        }
    }

    /// Whether rpm-ostree is used where it is found.
    pub fn rpm_ostree(&self) -> (enabled: bool)
        ensures
            enabled == or(self@.config_file.linux_settings().rpm_ostree, false),
    {
        match &self.config_file.linux {
            Some(linux) => linux.rpm_ostree.unwrap_or(false),
            None => false,
        }
    }

    /// Whether bootc is used where it is found.
    pub fn bootc(&self) -> (enabled: bool)
        ensures
            enabled == or(self@.config_file.linux_settings().bootc, false),
    {
        match &self.config_file.linux {
            Some(linux) => linux.bootc.unwrap_or(false),
            None => false,
        }
    }

    /// Whether remote hosts are opened in a terminal of their own.
    pub fn open_remotes_in_new_terminal(&self) -> (enabled: bool)
        ensures
            enabled == or(self@.config_file.windows_settings().open_remotes_in_new_terminal, false),
    {
        match &self.config_file.windows {
            Some(windows) => windows.open_remotes_in_new_terminal.unwrap_or(false),
            None => false,
        }
    }

    /// Whether Winget installs without a dialogue.
    pub fn winget_silent_install(&self) -> (enabled: bool)
        ensures
            enabled == or(self@.config_file.windows_settings().winget_silent_install, true),
    {
        match &self.config_file.windows {
            Some(windows) => windows.winget_silent_install.unwrap_or(true),
            None => true,
        }
    }

    /// Whether privileges are asked for at the start of the run, behind the commands that precede the steps.
    pub fn pre_sudo(&self) -> (enabled: bool)
        ensures
            enabled == or(self@.config_file.misc_settings().pre_sudo, false),
    {
        match &self.config_file.misc {
            Some(misc) => misc.pre_sudo.unwrap_or(false),
            None => false,
        }
    }

    /// Whether npm runs with privileges.
    pub fn npm_use_sudo(&self) -> (enabled: bool)
        ensures
            enabled == or(self@.config_file.npm_settings().use_sudo, false),
    {
        match &self.config_file.npm {
            Some(npm) => npm.use_sudo.unwrap_or(false),
            None => false,
        }
    }

    /// Whether Yarn runs with privileges.
    pub fn yarn_use_sudo(&self) -> (enabled: bool)
        ensures
            enabled == or(self@.config_file.yarn_settings().use_sudo, false),
    {
        match &self.config_file.yarn {
            Some(yarn) => yarn.use_sudo.unwrap_or(false),
            None => false,
        }
    }

    /// Whether firmware is upgraded and not only looked for.
    pub fn firmware_upgrade(&self) -> (enabled: bool)
        ensures
            enabled == or(self@.config_file.firmware_settings().upgrade, false),
    {
        match &self.config_file.firmware {
            Some(firmware) => firmware.upgrade.unwrap_or(false),
            None => false,
        }
    }

    /// Whether Flatpak runs with privileges.
    pub fn flatpak_use_sudo(&self) -> (enabled: bool)
        ensures
            enabled == or(self@.config_file.flatpak_settings().use_sudo, false),
    {
        match &self.config_file.flatpak {
            Some(flatpak) => flatpak.use_sudo.unwrap_or(false),
            None => false,
        }
    }

    /// Whether pipupgrade runs.
    pub fn enable_pipupgrade(&self) -> (enabled: bool)
        ensures
            enabled == or(self@.config_file.python_settings().enable_pipupgrade, false),
    {
        match &self.config_file.python {
            Some(python) => python.enable_pipupgrade.unwrap_or(false),
            None => false,
        }
    }

    /// Whether pip-review runs.
    pub fn enable_pip_review(&self) -> (enabled: bool)
        ensures
            enabled == or(self@.config_file.python_settings().enable_pip_review, false),
    {
        match &self.config_file.python {
            Some(python) => python.enable_pip_review.unwrap_or(false),
            None => false,
        }
    }

    /// Whether pip-review runs on the packages of the user.
    pub fn enable_pip_review_local(&self) -> (enabled: bool)
        ensures
            enabled == or(self@.config_file.python_settings().enable_pip_review_local, false),
    {
        match &self.config_file.python {
            Some(python) => python.enable_pip_review_local.unwrap_or(false),
            None => false,
        }
    }

    /// Whether Poetry updates itself by force.
    pub fn poetry_force_self_update(&self) -> (enabled: bool)
        ensures
            enabled == or(self@.config_file.python_settings().poetry_force_self_update, false),
    {
        match &self.config_file.python {
            Some(python) => python.poetry_force_self_update.unwrap_or(false),
            None => false,
        }
    }

    /// Whether the time is shown in the summary of the steps.
    pub fn display_time(&self) -> (enabled: bool)
        ensures
            enabled == or(self@.config_file.misc_settings().display_time, true),
    {
        match &self.config_file.misc {
            Some(misc) => misc.display_time.unwrap_or(true),
            None => true,
        }
    }

    /// Whether the update of Lensfun runs with privileges.
    pub fn lensfun_use_sudo(&self) -> (enabled: bool)
        ensures
            enabled == or(self@.config_file.lensfun_settings().use_sudo, false),
    {
        match &self.config_file.lensfun {
            Some(lensfun) => lensfun.use_sudo.unwrap_or(false),
            None => false,
        }
    }

    /// Whether Julia reads its startup file.
    pub fn julia_use_startup_file(&self) -> (enabled: bool)
        ensures
            enabled == or(self@.config_file.julia_settings().startup_file, true),
    {
        match &self.config_file.julia {
            Some(julia) => julia.startup_file.unwrap_or(true),
            None => true,
        }
    }

    /// Whether Zigup removes the versions that are not asked for.
    pub fn zigup_cleanup(&self) -> (enabled: bool)
        ensures
            enabled == or(self@.config_file.zigup_settings().cleanup, false),
    {
        match &self.config_file.zigup {
            Some(zigup) => zigup.cleanup.unwrap_or(false),
            None => false,
        }
    }

    /// The program that runs the containers.
    pub fn containers_runtime(&self) -> (chosen: ContainerRuntime)
        ensures
            chosen == or(self@.config_file.containers_settings().runtime, ContainerRuntime::Docker),
    {
        match &self.config_file.containers {
            Some(containers) => containers.runtime.unwrap_or(ContainerRuntime::Docker),
            None => ContainerRuntime::Docker,
        }
    }

    /// The package manager of an Arch Linux system.
    pub fn arch_package_manager(&self) -> (chosen: ArchPackageManager)
        ensures
            chosen == or(self@.config_file.linux_settings().arch_package_manager, ArchPackageManager::Autodetect),
    {
        match &self.config_file.linux {
            Some(linux) => linux.arch_package_manager.unwrap_or(ArchPackageManager::Autodetect),
            None => ArchPackageManager::Autodetect,
        }
    }

    /// How a new tmux session is entered.
    pub fn tmux_session_mode(&self) -> (chosen: TmuxSessionMode)
        ensures
            chosen == or(self@.config_file.misc_settings().tmux_session_mode, TmuxSessionMode::AttachIfNotInSession),
    {
        match &self.config_file.misc {
            Some(misc) => misc.tmux_session_mode.unwrap_or(TmuxSessionMode::AttachIfNotInSession),
            None => TmuxSessionMode::AttachIfNotInSession,
        }
    }

    /// How many repositories are pulled at a time, if that is limited.
    pub fn git_concurrency_limit(&self) -> (value: Option<usize>)
        ensures
            value == self@.config_file.git_settings().max_concurrency,
    {
        match &self.config_file.git {
            Some(git) => git.max_concurrency,
            None => None,
        }
    }

    /// Whether Vagrant boxes are powered on, if that is decided.
    pub fn vagrant_power_on(&self) -> (value: Option<bool>)
        ensures
            value == self@.config_file.vagrant_settings().power_on,
    {
        match &self.config_file.vagrant {
            Some(vagrant) => vagrant.power_on,
            None => None,
        }
    }

    /// Whether Vagrant boxes are suspended rather than powered off, if that is decided.
    pub fn vagrant_always_suspend(&self) -> (value: Option<bool>)
        ensures
            value == self@.config_file.vagrant_settings().always_suspend,
    {
        match &self.config_file.vagrant {
            Some(vagrant) => vagrant.always_suspend,
            None => None,
        }
    }

    /// The program through which steps gain privileges, if one is named.
    pub fn sudo_command(&self) -> (value: Option<SudoKind>)
        ensures
            value == self@.config_file.misc_settings().sudo_command,
    {
        match &self.config_file.misc {
            Some(misc) => misc.sudo_command,
            None => None,
        }
    }

    /// The path of the program on the remote hosts.
    pub fn remote_topgrade_path(&self) -> (value: &str)
        ensures
            value@ == or(self@.config_file.misc_settings().remote_topgrade_path, "topgrade"@),
    {
        match &self.config_file.misc {
            Some(misc) => match &misc.remote_topgrade_path {
                Some(value) => value.as_str(),
                None => "topgrade",
            },
            None => "topgrade",
        }
    }

    /// The branch of Bash-it.
    pub fn bashit_branch(&self) -> (value: &str)
        ensures
            value@ == or(self@.config_file.misc_settings().bashit_branch, "stable"@),
    {
        match &self.config_file.misc {
            Some(misc) => match &misc.bashit_branch {
                Some(value) => value.as_str(),
                None => "stable",
            },
            None => "stable",
        }
    }

    /// Extra arguments of garuda-update.
    pub fn garuda_update_arguments(&self) -> (value: &str)
        ensures
            value@ == or(self@.config_file.linux_settings().garuda_update_arguments, Seq::empty()),
    {
        proof {
            reveal_strlit("");
            assert(""@ =~= Seq::<char>::empty());
        }
        match &self.config_file.linux {
            Some(linux) => match &linux.garuda_update_arguments {
                Some(value) => value.as_str(),
                None => "",
            },
            None => "",
        }
    }

    /// Extra arguments of Trizen.
    pub fn trizen_arguments(&self) -> (value: &str)
        ensures
            value@ == or(self@.config_file.linux_settings().trizen_arguments, Seq::empty()),
    {
        proof {
            reveal_strlit("");
            assert(""@ =~= Seq::<char>::empty());
        }
        match &self.config_file.linux {
            Some(linux) => match &linux.trizen_arguments {
                Some(value) => value.as_str(),
                None => "",
            },
            None => "",
        }
    }

    /// Extra arguments of Pikaur.
    pub fn pikaur_arguments(&self) -> (value: &str)
        ensures
            value@ == or(self@.config_file.linux_settings().pikaur_arguments, Seq::empty()),
    {
        proof {
            reveal_strlit("");
            assert(""@ =~= Seq::<char>::empty());
        }
        match &self.config_file.linux {
            Some(linux) => match &linux.pikaur_arguments {
                Some(value) => value.as_str(),
                None => "",
            },
            None => "",
        }
    }

    /// Extra arguments of Pamac.
    pub fn pamac_arguments(&self) -> (value: &str)
        ensures
            value@ == or(self@.config_file.linux_settings().pamac_arguments, Seq::empty()),
    {
        proof {
            reveal_strlit("");
            assert(""@ =~= Seq::<char>::empty());
        }
        match &self.config_file.linux {
            Some(linux) => match &linux.pamac_arguments {
                Some(value) => value.as_str(),
                None => "",
            },
            None => "",
        }
    }

    /// Extra arguments of yay.
    pub fn yay_arguments(&self) -> (value: &str)
        ensures
            value@ == or(self@.config_file.linux_settings().yay_arguments, Seq::empty()),
    {
        proof {
            reveal_strlit("");
            assert(""@ =~= Seq::<char>::empty());
        }
        match &self.config_file.linux {
            Some(linux) => match &linux.yay_arguments {
                Some(value) => value.as_str(),
                None => "",
            },
            None => "",
        }
    }

    /// Extra arguments of Aura for the user repository.
    pub fn aura_aur_arguments(&self) -> (value: &str)
        ensures
            value@ == or(self@.config_file.linux_settings().aura_aur_arguments, Seq::empty()),
    {
        proof {
            reveal_strlit("");
            assert(""@ =~= Seq::<char>::empty());
        }
        match &self.config_file.linux {
            Some(linux) => match &linux.aura_aur_arguments {
                Some(value) => value.as_str(),
                None => "",
            },
            None => "",
        }
    }

    /// Extra arguments of Aura for the repositories of Pacman.
    pub fn aura_pacman_arguments(&self) -> (value: &str)
        ensures
            value@ == or(self@.config_file.linux_settings().aura_pacman_arguments, Seq::empty()),
    {
        proof {
            reveal_strlit("");
            assert(""@ =~= Seq::<char>::empty());
        }
        match &self.config_file.linux {
            Some(linux) => match &linux.aura_pacman_arguments {
                Some(value) => value.as_str(),
                None => "",
            },
            None => "",
        }
    }

    /// Extra arguments of pipupgrade.
    pub fn pipupgrade_arguments(&self) -> (value: &str)
        ensures
            value@ == or(self@.config_file.python_settings().pipupgrade_arguments, Seq::empty()),
    {
        proof {
            reveal_strlit("");
            assert(""@ =~= Seq::<char>::empty());
        }
        match &self.config_file.python {
            Some(python) => match &python.pipupgrade_arguments {
                Some(value) => value.as_str(),
                None => "",
            },
            None => "",
        }
    }

    /// Extra arguments of apt.
    pub fn apt_arguments(&self) -> (value: Option<&str>)
        ensures
            slice_text(value) == self@.config_file.linux_settings().apt_arguments,
    {
        match &self.config_file.linux {
            Some(linux) => match &linux.apt_arguments {
                Some(value) => Some(value.as_str()),
                None => None,
            },
            None => None,
        }
    }

    /// Extra arguments of dnf.
    pub fn dnf_arguments(&self) -> (value: Option<&str>)
        ensures
            slice_text(value) == self@.config_file.linux_settings().dnf_arguments,
    {
        match &self.config_file.linux {
            Some(linux) => match &linux.dnf_arguments {
                Some(value) => Some(value.as_str()),
                None => None,
            },
            None => None,
        }
    }

    /// Extra arguments of Nix.
    pub fn nix_arguments(&self) -> (value: Option<&str>)
        ensures
            slice_text(value) == self@.config_file.linux_settings().nix_arguments,
    {
        match &self.config_file.linux {
            Some(linux) => match &linux.nix_arguments {
                Some(value) => Some(value.as_str()),
                None => None,
            },
            None => None,
        }
    }

    /// Extra arguments of nix-env.
    pub fn nix_env_arguments(&self) -> (value: Option<&str>)
        ensures
            slice_text(value) == self@.config_file.linux_settings().nix_env_arguments,
    {
        match &self.config_file.linux {
            Some(linux) => match &linux.nix_env_arguments {
                Some(value) => Some(value.as_str()),
                None => None,
            },
            None => None,
        }
    }

    /// The flags with which emerge synchronises.
    pub fn emerge_sync_flags(&self) -> (value: Option<&str>)
        ensures
            slice_text(value) == self@.config_file.linux_settings().emerge_sync_flags,
    {
        match &self.config_file.linux {
            Some(linux) => match &linux.emerge_sync_flags {
                Some(value) => Some(value.as_str()),
                None => None,
            },
            None => None,
        }
    }

    /// The flags with which emerge updates.
    pub fn emerge_update_flags(&self) -> (value: Option<&str>)
        ensures
            slice_text(value) == self@.config_file.linux_settings().emerge_update_flags,
    {
        match &self.config_file.linux {
            Some(linux) => match &linux.emerge_update_flags {
                Some(value) => Some(value.as_str()),
                None => None,
            },
            None => None,
        }
    }

    /// The version of Deno to upgrade to.
    pub fn deno_version(&self) -> (value: Option<&str>)
        ensures
            slice_text(value) == self@.config_file.deno_settings().version,
    {
        match &self.config_file.deno {
            Some(deno) => match &deno.version {
                Some(value) => Some(value.as_str()),
                None => None,
            },
            None => None,
        }
    }

    /// The directory into which Zigup installs.
    pub fn zigup_install_dir(&self) -> (value: Option<&str>)
        ensures
            slice_text(value) == self@.config_file.zigup_settings().install_dir,
    {
        match &self.config_file.zigup {
            Some(zigup) => match &zigup.install_dir {
                Some(value) => Some(value.as_str()),
                None => None,
            },
            None => None,
        }
    }

    /// The path at which Zigup links the compiler.
    pub fn zigup_path_link(&self) -> (value: Option<&str>)
        ensures
            slice_text(value) == self@.config_file.zigup_settings().path_link,
    {
        match &self.config_file.zigup {
            Some(zigup) => match &zigup.path_link {
                Some(value) => Some(value.as_str()),
                None => None,
            },
            None => None,
        }
    }

    /// Extra arguments of SSH.
    pub fn ssh_arguments(&self) -> (value: Option<&String>)
        ensures
            string_text(value) == self@.config_file.misc_settings().ssh_arguments,
    {
        match &self.config_file.misc {
            Some(misc) => misc.ssh_arguments.as_ref(),
            None => None,
        }
    }

    /// Extra arguments of Git.
    pub fn git_arguments(&self) -> (value: Option<&String>)
        ensures
            string_text(value) == self@.config_file.git_settings().arguments,
    {
        match &self.config_file.git {
            Some(git) => git.arguments.as_ref(),
            None => None,
        }
    }

    /// The further repositories to pull.
    pub fn git_repos(&self) -> (list: Option<&Vec<String>>)
        ensures
            list_texts(list) == self@.config_file.git_settings().repos,
    {
        match &self.config_file.git {
            Some(git) => git.repos.as_ref(),
            None => None,
        }
    }

    /// The containers to leave as they are.
    pub fn containers_ignored_tags(&self) -> (list: Option<&Vec<String>>)
        ensures
            list_texts(list) == self@.config_file.containers_settings().ignored_containers,
    {
        match &self.config_file.containers {
            Some(containers) => containers.ignored_containers.as_ref(),
            None => None,
        }
    }

    /// The remote hosts to go on to.
    pub fn remote_topgrades(&self) -> (list: Option<&Vec<String>>)
        ensures
            list_texts(list) == self@.config_file.misc_settings().remote_topgrades,
    {
        match &self.config_file.misc {
            Some(misc) => misc.remote_topgrades.as_ref(),
            None => None,
        }
    }

    /// Extra arguments of Home Manager.
    pub fn home_manager(&self) -> (list: Option<&Vec<String>>)
        ensures
            list_texts(list) == self@.config_file.linux_settings().home_manager_arguments,
    {
        match &self.config_file.linux {
            Some(linux) => linux.home_manager_arguments.as_ref(),
            None => None,
        }
    }

    /// The containers of Distrobox to update.
    pub fn distrobox_containers(&self) -> (list: Option<&Vec<String>>)
        ensures
            list_texts(list) == self@.config_file.distrobox_settings().containers,
    {
        match &self.config_file.distrobox {
            Some(distrobox) => distrobox.containers.as_ref(),
            None => None,
        }
    }

    /// The directories of the Vagrant boxes.
    pub fn vagrant_directories(&self) -> (list: Option<&Vec<String>>)
        ensures
            list_texts(list) == self@.config_file.vagrant_settings().directories,
    {
        match &self.config_file.vagrant {
            Some(vagrant) => vagrant.directories.as_ref(),
            None => None,
        }
    }
}

} // verus!
