//! The sections that belong to no single step.

use crate::step::Step;
use crate::strategy::{append_string, appended, items, Merge, prepend_list, prepend_strings, prepended, replace, replaced, text, texts};
use vstd::prelude::*;

verus! {

/// How a new tmux session is entered.
#[derive(Clone, Copy, Debug, PartialEq, Eq, Structural)]
pub enum TmuxSessionMode {
    AttachIfNotInSession,
    AttachAlways,
}

/// The program through which a step gains privileges.
#[derive(Clone, Copy, Debug, PartialEq, Eq, Structural)]
pub enum SudoKind {
    Doas,
    Sudo,
    Gsudo,
    Pkexec,
    Run0,
    Please,
}

/// Further fragments that a fragment asks to be loaded.
#[derive(Debug)]
pub struct Include {
    /// Merged by `PrependList`.
    pub paths: Option<Vec<String>>,
}

/// What a `Include` section holds.
pub struct IncludeView {
    pub paths: Option<Seq<Seq<char>>>,
}

impl IncludeView {
    /// The section in which no field is set.
    pub open spec fn empty() -> IncludeView {
        IncludeView { paths: None }
    }
}

impl View for Include {
    type V = IncludeView;

    open spec fn view(&self) -> IncludeView {
        IncludeView { paths: texts(self.paths) }
    }
}

impl Default for Include {
    fn default() -> (section: Include)
        ensures
            section@ == IncludeView::empty(),
    {
        Include { paths: None }
    }
}

impl Merge for Include {
    open spec fn merged(existing: IncludeView, incoming: IncludeView) -> IncludeView {
        IncludeView { paths: prepended(existing.paths, incoming.paths) }
    }

    open spec fn replace_only(record: IncludeView) -> bool {
        &&& record.paths.is_none()
    }

    open spec fn overlaid(existing: IncludeView, incoming: IncludeView) -> IncludeView {
        IncludeView { paths: replaced(existing.paths, incoming.paths) }
    }

    fn merge(&mut self, incoming: Include) {
        prepend_strings(&mut self.paths, incoming.paths);
    }

    proof fn law_replace_only(existing: IncludeView, incoming: IncludeView) {
    }
}

/// Settings that belong to no single step.
#[derive(Debug)]
pub struct Misc {
    pub pre_sudo: Option<bool>,
    pub sudo_command: Option<SudoKind>,
    /// Merged by `PrependList`.
    pub disable: Option<Vec<Step>>,
    /// Merged by `PrependList`.
    pub ignore_failures: Option<Vec<Step>>,
    /// Merged by `PrependList`.
    pub remote_topgrades: Option<Vec<String>>,
    pub remote_topgrade_path: Option<String>,
    /// Merged by `AppendString`.
    pub ssh_arguments: Option<String>,
    /// Merged by `AppendString`.
    pub tmux_arguments: Option<String>,
    pub set_title: Option<bool>,
    pub display_time: Option<bool>,
    pub assume_yes: Option<bool>,
    pub no_retry: Option<bool>,
    pub run_in_tmux: Option<bool>,
    pub tmux_session_mode: Option<TmuxSessionMode>,
    pub cleanup: Option<bool>,
    pub notify_each_step: Option<bool>,
    pub skip_notify: Option<bool>,
    pub bashit_branch: Option<String>,
    /// Merged by `PrependList`.
    pub only: Option<Vec<Step>>,
    pub no_self_update: Option<bool>,
    pub log_filters: Option<Vec<String>>,
}

/// What a `Misc` section holds.
pub struct MiscView {
    pub pre_sudo: Option<bool>,
    pub sudo_command: Option<SudoKind>,
    pub disable: Option<Seq<Step>>,
    pub ignore_failures: Option<Seq<Step>>,
    pub remote_topgrades: Option<Seq<Seq<char>>>,
    pub remote_topgrade_path: Option<Seq<char>>,
    pub ssh_arguments: Option<Seq<char>>,
    pub tmux_arguments: Option<Seq<char>>,
    pub set_title: Option<bool>,
    pub display_time: Option<bool>,
    pub assume_yes: Option<bool>,
    pub no_retry: Option<bool>,
    pub run_in_tmux: Option<bool>,
    pub tmux_session_mode: Option<TmuxSessionMode>,
    pub cleanup: Option<bool>,
    pub notify_each_step: Option<bool>,
    pub skip_notify: Option<bool>,
    pub bashit_branch: Option<Seq<char>>,
    pub only: Option<Seq<Step>>,
    pub no_self_update: Option<bool>,
    pub log_filters: Option<Seq<Seq<char>>>,
}

impl MiscView {
    /// The section in which no field is set.
    pub open spec fn empty() -> MiscView {
        MiscView {
            pre_sudo: None,
            sudo_command: None,
            disable: None,
            ignore_failures: None,
            remote_topgrades: None,
            remote_topgrade_path: None,
            ssh_arguments: None,
            tmux_arguments: None,
            set_title: None,
            display_time: None,
            assume_yes: None,
            no_retry: None,
            run_in_tmux: None,
            tmux_session_mode: None,
            cleanup: None,
            notify_each_step: None,
            skip_notify: None,
            bashit_branch: None,
            only: None,
            no_self_update: None,
            log_filters: None,
        }
    }
}

impl View for Misc {
    type V = MiscView;

    open spec fn view(&self) -> MiscView {
        MiscView {
            pre_sudo: self.pre_sudo,
            sudo_command: self.sudo_command,
            disable: items(self.disable),
            ignore_failures: items(self.ignore_failures),
            remote_topgrades: texts(self.remote_topgrades),
            remote_topgrade_path: text(self.remote_topgrade_path),
            ssh_arguments: text(self.ssh_arguments),
            tmux_arguments: text(self.tmux_arguments),
            set_title: self.set_title,
            display_time: self.display_time,
            assume_yes: self.assume_yes,
            no_retry: self.no_retry,
            run_in_tmux: self.run_in_tmux,
            tmux_session_mode: self.tmux_session_mode,
            cleanup: self.cleanup,
            notify_each_step: self.notify_each_step,
            skip_notify: self.skip_notify,
            bashit_branch: text(self.bashit_branch),
            only: items(self.only),
            no_self_update: self.no_self_update,
            log_filters: texts(self.log_filters),
        }
    }
}

impl Default for Misc {
    fn default() -> (section: Misc)
        ensures
            section@ == MiscView::empty(),
    {
        Misc {
            pre_sudo: None,
            sudo_command: None,
            disable: None,
            ignore_failures: None,
            remote_topgrades: None,
            remote_topgrade_path: None,
            ssh_arguments: None,
            tmux_arguments: None,
            set_title: None,
            display_time: None,
            assume_yes: None,
            no_retry: None,
            run_in_tmux: None,
            tmux_session_mode: None,
            cleanup: None,
            notify_each_step: None,
            skip_notify: None,
            bashit_branch: None,
            only: None,
            no_self_update: None,
            log_filters: None,
        }
    }
}

impl Merge for Misc {
    open spec fn merged(existing: MiscView, incoming: MiscView) -> MiscView {
        MiscView {
            pre_sudo: replaced(existing.pre_sudo, incoming.pre_sudo),
            sudo_command: replaced(existing.sudo_command, incoming.sudo_command),
            disable: prepended(existing.disable, incoming.disable),
            ignore_failures: prepended(existing.ignore_failures, incoming.ignore_failures),
            remote_topgrades: prepended(existing.remote_topgrades, incoming.remote_topgrades),
            remote_topgrade_path: replaced(existing.remote_topgrade_path, incoming.remote_topgrade_path),
            ssh_arguments: appended(existing.ssh_arguments, incoming.ssh_arguments),
            tmux_arguments: appended(existing.tmux_arguments, incoming.tmux_arguments),
            set_title: replaced(existing.set_title, incoming.set_title),
            display_time: replaced(existing.display_time, incoming.display_time),
            assume_yes: replaced(existing.assume_yes, incoming.assume_yes),
            no_retry: replaced(existing.no_retry, incoming.no_retry),
            run_in_tmux: replaced(existing.run_in_tmux, incoming.run_in_tmux),
            tmux_session_mode: replaced(existing.tmux_session_mode, incoming.tmux_session_mode),
            cleanup: replaced(existing.cleanup, incoming.cleanup),
            notify_each_step: replaced(existing.notify_each_step, incoming.notify_each_step),
            skip_notify: replaced(existing.skip_notify, incoming.skip_notify),
            bashit_branch: replaced(existing.bashit_branch, incoming.bashit_branch),
            only: prepended(existing.only, incoming.only),
            no_self_update: replaced(existing.no_self_update, incoming.no_self_update),
            log_filters: replaced(existing.log_filters, incoming.log_filters),
        }
    }

    open spec fn replace_only(record: MiscView) -> bool {
        &&& record.disable.is_none()
        &&& record.ignore_failures.is_none()
        &&& record.remote_topgrades.is_none()
        &&& record.ssh_arguments.is_none()
        &&& record.tmux_arguments.is_none()
        &&& record.only.is_none()
    }

    open spec fn overlaid(existing: MiscView, incoming: MiscView) -> MiscView {
        MiscView {
            pre_sudo: replaced(existing.pre_sudo, incoming.pre_sudo),
            sudo_command: replaced(existing.sudo_command, incoming.sudo_command),
            disable: replaced(existing.disable, incoming.disable),
            ignore_failures: replaced(existing.ignore_failures, incoming.ignore_failures),
            remote_topgrades: replaced(existing.remote_topgrades, incoming.remote_topgrades),
            remote_topgrade_path: replaced(existing.remote_topgrade_path, incoming.remote_topgrade_path),
            ssh_arguments: replaced(existing.ssh_arguments, incoming.ssh_arguments),
            tmux_arguments: replaced(existing.tmux_arguments, incoming.tmux_arguments),
            set_title: replaced(existing.set_title, incoming.set_title),
            display_time: replaced(existing.display_time, incoming.display_time),
            assume_yes: replaced(existing.assume_yes, incoming.assume_yes),
            no_retry: replaced(existing.no_retry, incoming.no_retry),
            run_in_tmux: replaced(existing.run_in_tmux, incoming.run_in_tmux),
            tmux_session_mode: replaced(existing.tmux_session_mode, incoming.tmux_session_mode),
            cleanup: replaced(existing.cleanup, incoming.cleanup),
            notify_each_step: replaced(existing.notify_each_step, incoming.notify_each_step),
            skip_notify: replaced(existing.skip_notify, incoming.skip_notify),
            bashit_branch: replaced(existing.bashit_branch, incoming.bashit_branch),
            only: replaced(existing.only, incoming.only),
            no_self_update: replaced(existing.no_self_update, incoming.no_self_update),
            log_filters: replaced(existing.log_filters, incoming.log_filters),
        }
    }

    fn merge(&mut self, incoming: Misc) {
        replace(&mut self.pre_sudo, incoming.pre_sudo);
        replace(&mut self.sudo_command, incoming.sudo_command);
        prepend_list(&mut self.disable, incoming.disable);
        prepend_list(&mut self.ignore_failures, incoming.ignore_failures);
        prepend_strings(&mut self.remote_topgrades, incoming.remote_topgrades);
        replace(&mut self.remote_topgrade_path, incoming.remote_topgrade_path);
        append_string(&mut self.ssh_arguments, incoming.ssh_arguments);
        append_string(&mut self.tmux_arguments, incoming.tmux_arguments);
        replace(&mut self.set_title, incoming.set_title);
        replace(&mut self.display_time, incoming.display_time);
        replace(&mut self.assume_yes, incoming.assume_yes);
        replace(&mut self.no_retry, incoming.no_retry);
        replace(&mut self.run_in_tmux, incoming.run_in_tmux);
        replace(&mut self.tmux_session_mode, incoming.tmux_session_mode);
        replace(&mut self.cleanup, incoming.cleanup);
        replace(&mut self.notify_each_step, incoming.notify_each_step);
        replace(&mut self.skip_notify, incoming.skip_notify);
        replace(&mut self.bashit_branch, incoming.bashit_branch);
        prepend_list(&mut self.only, incoming.only);
        replace(&mut self.no_self_update, incoming.no_self_update);
        replace(&mut self.log_filters, incoming.log_filters);
    }

    proof fn law_replace_only(existing: MiscView, incoming: MiscView) {
    }
}

} // verus!
