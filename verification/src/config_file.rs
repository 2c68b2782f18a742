//! The record that a configuration fragment contributes, and the resolved
//! record that the fragments of a run are folded into.

use crate::commands::{merge_commands, merged_tables, table, Commands};
use crate::sections::general::{Include, IncludeView, Misc, MiscView};
use crate::sections::system::{
    Brew, BrewView, Distrobox, DistroboxView, Firmware, FirmwareView, Flatpak, FlatpakView, Linux,
    LinuxView, Windows, WindowsView,
};
use crate::sections::tools::{
    Composer, ComposerView, Containers, ContainersView, Deno, DenoView, Git, GitView, JuliaConfig,
    JuliaConfigView, Lensfun, LensfunView, NPM, NPMView, Python, PythonView, Vagrant, VagrantView,
    Vim, VimView, VscodeConfig, VscodeConfigView, Yarn, YarnView, Zigup, ZigupView,
};
use crate::strategy::{
    overlaid_section, prepended, recurse, recursed, replace_only_section, replaced, section, Merge,
};
use vstd::prelude::*;

verus! {

/// A sparse record of settings: a field that is not set holds no opinion.
#[derive(Debug)]
pub struct ConfigFile {
    pub includes: Option<Include>,
    pub misc: Option<Misc>,
    /// Commands that run before the steps.
    pub pre_commands: Option<Commands>,
    /// Commands that run after the steps.
    pub post_commands: Option<Commands>,
    /// The custom steps.
    pub commands: Option<Commands>,
    pub python: Option<Python>,
    pub composer: Option<Composer>,
    pub brew: Option<Brew>,
    pub linux: Option<Linux>,
    pub git: Option<Git>,
    pub containers: Option<Containers>,
    pub windows: Option<Windows>,
    pub npm: Option<NPM>,
    pub yarn: Option<Yarn>,
    pub deno: Option<Deno>,
    pub vim: Option<Vim>,
    pub firmware: Option<Firmware>,
    pub vagrant: Option<Vagrant>,
    pub flatpak: Option<Flatpak>,
    pub distrobox: Option<Distrobox>,
    pub lensfun: Option<Lensfun>,
    pub julia: Option<JuliaConfig>,
    pub zigup: Option<Zigup>,
    pub vscode: Option<VscodeConfig>,
}

/// What a record holds.
pub struct ConfigFileView {
    pub includes: Option<IncludeView>,
    pub misc: Option<MiscView>,
    pub pre_commands: Option<Seq<(Seq<char>, Seq<char>)>>,
    pub post_commands: Option<Seq<(Seq<char>, Seq<char>)>>,
    pub commands: Option<Seq<(Seq<char>, Seq<char>)>>,
    pub python: Option<PythonView>,
    pub composer: Option<ComposerView>,
    pub brew: Option<BrewView>,
    pub linux: Option<LinuxView>,
    pub git: Option<GitView>,
    pub containers: Option<ContainersView>,
    pub windows: Option<WindowsView>,
    pub npm: Option<NPMView>,
    pub yarn: Option<YarnView>,
    pub deno: Option<DenoView>,
    pub vim: Option<VimView>,
    pub firmware: Option<FirmwareView>,
    pub vagrant: Option<VagrantView>,
    pub flatpak: Option<FlatpakView>,
    pub distrobox: Option<DistroboxView>,
    pub lensfun: Option<LensfunView>,
    pub julia: Option<JuliaConfigView>,
    pub zigup: Option<ZigupView>,
    pub vscode: Option<VscodeConfigView>,
}

impl ConfigFileView {
    /// The record in which no section is set.
    pub open spec fn empty() -> ConfigFileView {
        ConfigFileView {
            includes: None,
            misc: None,
            pre_commands: None,
            post_commands: None,
            commands: None,
            python: None,
            composer: None,
            brew: None,
            linux: None,
            git: None,
            containers: None,
            windows: None,
            npm: None,
            yarn: None,
            deno: None,
            vim: None,
            firmware: None,
            vagrant: None,
            flatpak: None,
            distrobox: None,
            lensfun: None,
            julia: None,
            zigup: None,
            vscode: None,
        }
    }

    /// The `include` section, or the empty one where the record has none.
    pub open spec fn includes_settings(self) -> IncludeView {
        match self.includes {
            Some(settings) => settings,
            None => IncludeView::empty(),
        }
    }

    /// The `misc` section, or the empty one where the record has none.
    pub open spec fn misc_settings(self) -> MiscView {
        match self.misc {
            Some(settings) => settings,
            None => MiscView::empty(),
        }
    }

    /// The `python` section, or the empty one where the record has none.
    pub open spec fn python_settings(self) -> PythonView {
        match self.python {
            Some(settings) => settings,
            None => PythonView::empty(),
        }
    }

    /// The `composer` section, or the empty one where the record has none.
    pub open spec fn composer_settings(self) -> ComposerView {
        match self.composer {
            Some(settings) => settings,
            None => ComposerView::empty(),
        }
    }

    /// The `brew` section, or the empty one where the record has none.
    pub open spec fn brew_settings(self) -> BrewView {
        match self.brew {
            Some(settings) => settings,
            None => BrewView::empty(),
        }
    }

    /// The `linux` section, or the empty one where the record has none.
    pub open spec fn linux_settings(self) -> LinuxView {
        match self.linux {
            Some(settings) => settings,
            None => LinuxView::empty(),
        }
    }

    /// The `git` section, or the empty one where the record has none.
    pub open spec fn git_settings(self) -> GitView {
        match self.git {
            Some(settings) => settings,
            None => GitView::empty(),
        }
    }

    /// The `containers` section, or the empty one where the record has none.
    pub open spec fn containers_settings(self) -> ContainersView {
        match self.containers {
            Some(settings) => settings,
            None => ContainersView::empty(),
        }
    }

    /// The `windows` section, or the empty one where the record has none.
    pub open spec fn windows_settings(self) -> WindowsView {
        match self.windows {
            Some(settings) => settings,
            None => WindowsView::empty(),
        }
    }

    /// The `npm` section, or the empty one where the record has none.
    pub open spec fn npm_settings(self) -> NPMView {
        match self.npm {
            Some(settings) => settings,
            None => NPMView::empty(),
        }
    }

    /// The `yarn` section, or the empty one where the record has none.
    pub open spec fn yarn_settings(self) -> YarnView {
        match self.yarn {
            Some(settings) => settings,
            None => YarnView::empty(),
        }
    }

    /// The `deno` section, or the empty one where the record has none.
    pub open spec fn deno_settings(self) -> DenoView {
        match self.deno {
            Some(settings) => settings,
            None => DenoView::empty(),
        }
    }

    /// The `vim` section, or the empty one where the record has none.
    pub open spec fn vim_settings(self) -> VimView {
        match self.vim {
            Some(settings) => settings,
            None => VimView::empty(),
        }
    }

    /// The `firmware` section, or the empty one where the record has none.
    pub open spec fn firmware_settings(self) -> FirmwareView {
        match self.firmware {
            Some(settings) => settings,
            None => FirmwareView::empty(),
        }
    }

    /// The `vagrant` section, or the empty one where the record has none.
    pub open spec fn vagrant_settings(self) -> VagrantView {
        match self.vagrant {
            Some(settings) => settings,
            None => VagrantView::empty(),
        }
    }

    /// The `flatpak` section, or the empty one where the record has none.
    pub open spec fn flatpak_settings(self) -> FlatpakView {
        match self.flatpak {
            Some(settings) => settings,
            None => FlatpakView::empty(),
        }
    }

    /// The `distrobox` section, or the empty one where the record has none.
    pub open spec fn distrobox_settings(self) -> DistroboxView {
        match self.distrobox {
            Some(settings) => settings,
            None => DistroboxView::empty(),
        }
    }

    /// The `lensfun` section, or the empty one where the record has none.
    pub open spec fn lensfun_settings(self) -> LensfunView {
        match self.lensfun {
            Some(settings) => settings,
            None => LensfunView::empty(),
        }
    }

    /// The `julia` section, or the empty one where the record has none.
    pub open spec fn julia_settings(self) -> JuliaConfigView {
        match self.julia {
            Some(settings) => settings,
            None => JuliaConfigView::empty(),
        }
    }

    /// The `zigup` section, or the empty one where the record has none.
    pub open spec fn zigup_settings(self) -> ZigupView {
        match self.zigup {
            Some(settings) => settings,
            None => ZigupView::empty(),
        }
    }

    /// The `vscode` section, or the empty one where the record has none.
    pub open spec fn vscode_settings(self) -> VscodeConfigView {
        match self.vscode {
            Some(settings) => settings,
            None => VscodeConfigView::empty(),
        }
    }
}

impl View for ConfigFile {
    type V = ConfigFileView;

    open spec fn view(&self) -> ConfigFileView {
        ConfigFileView {
            includes: section(self.includes),
            misc: section(self.misc),
            pre_commands: table(self.pre_commands),
            post_commands: table(self.post_commands),
            commands: table(self.commands),
            python: section(self.python),
            composer: section(self.composer),
            brew: section(self.brew),
            linux: section(self.linux),
            git: section(self.git),
            containers: section(self.containers),
            windows: section(self.windows),
            npm: section(self.npm),
            yarn: section(self.yarn),
            deno: section(self.deno),
            vim: section(self.vim),
            firmware: section(self.firmware),
            vagrant: section(self.vagrant),
            flatpak: section(self.flatpak),
            distrobox: section(self.distrobox),
            lensfun: section(self.lensfun),
            julia: section(self.julia),
            zigup: section(self.zigup),
            vscode: section(self.vscode),
        }
    }
}

impl Default for ConfigFile {
    fn default() -> (record: ConfigFile)
        ensures
            record@ == ConfigFileView::empty(),
    {
        ConfigFile {
            includes: None,
            misc: None,
            pre_commands: None,
            post_commands: None,
            commands: None,
            python: None,
            composer: None,
            brew: None,
            linux: None,
            git: None,
            containers: None,
            windows: None,
            npm: None,
            yarn: None,
            deno: None,
            vim: None,
            firmware: None,
            vagrant: None,
            flatpak: None,
            distrobox: None,
            lensfun: None,
            julia: None,
            zigup: None,
            vscode: None,
        }
    }
}

impl Merge for ConfigFile {
    open spec fn merged(existing: ConfigFileView, incoming: ConfigFileView) -> ConfigFileView {
        ConfigFileView {
            includes: recursed::<Include>(existing.includes, incoming.includes),
            misc: recursed::<Misc>(existing.misc, incoming.misc),
            pre_commands: merged_tables(existing.pre_commands, incoming.pre_commands),
            post_commands: merged_tables(existing.post_commands, incoming.post_commands),
            commands: merged_tables(existing.commands, incoming.commands),
            python: recursed::<Python>(existing.python, incoming.python),
            composer: recursed::<Composer>(existing.composer, incoming.composer),
            brew: recursed::<Brew>(existing.brew, incoming.brew),
            linux: recursed::<Linux>(existing.linux, incoming.linux),
            git: recursed::<Git>(existing.git, incoming.git),
            containers: recursed::<Containers>(existing.containers, incoming.containers),
            windows: recursed::<Windows>(existing.windows, incoming.windows),
            npm: recursed::<NPM>(existing.npm, incoming.npm),
            yarn: recursed::<Yarn>(existing.yarn, incoming.yarn),
            deno: recursed::<Deno>(existing.deno, incoming.deno),
            vim: recursed::<Vim>(existing.vim, incoming.vim),
            firmware: recursed::<Firmware>(existing.firmware, incoming.firmware),
            vagrant: recursed::<Vagrant>(existing.vagrant, incoming.vagrant),
            flatpak: recursed::<Flatpak>(existing.flatpak, incoming.flatpak),
            distrobox: recursed::<Distrobox>(existing.distrobox, incoming.distrobox),
            lensfun: recursed::<Lensfun>(existing.lensfun, incoming.lensfun),
            julia: recursed::<JuliaConfig>(existing.julia, incoming.julia),
            zigup: recursed::<Zigup>(existing.zigup, incoming.zigup),
            vscode: recursed::<VscodeConfig>(existing.vscode, incoming.vscode),
        }
    }

    open spec fn replace_only(record: ConfigFileView) -> bool {
        &&& replace_only_section::<Include>(record.includes)
        &&& replace_only_section::<Misc>(record.misc)
        &&& replace_only_section::<Python>(record.python)
        &&& replace_only_section::<Composer>(record.composer)
        &&& replace_only_section::<Brew>(record.brew)
        &&& replace_only_section::<Linux>(record.linux)
        &&& replace_only_section::<Git>(record.git)
        &&& replace_only_section::<Containers>(record.containers)
        &&& replace_only_section::<Windows>(record.windows)
        &&& replace_only_section::<NPM>(record.npm)
        &&& replace_only_section::<Yarn>(record.yarn)
        &&& replace_only_section::<Deno>(record.deno)
        &&& replace_only_section::<Vim>(record.vim)
        &&& replace_only_section::<Firmware>(record.firmware)
        &&& replace_only_section::<Vagrant>(record.vagrant)
        &&& replace_only_section::<Flatpak>(record.flatpak)
        &&& replace_only_section::<Distrobox>(record.distrobox)
        &&& replace_only_section::<Lensfun>(record.lensfun)
        &&& replace_only_section::<JuliaConfig>(record.julia)
        &&& replace_only_section::<Zigup>(record.zigup)
        &&& replace_only_section::<VscodeConfig>(record.vscode)
    }

    open spec fn overlaid(existing: ConfigFileView, incoming: ConfigFileView) -> ConfigFileView {
        ConfigFileView {
            includes: overlaid_section::<Include>(existing.includes, incoming.includes),
            misc: overlaid_section::<Misc>(existing.misc, incoming.misc),
            pre_commands: merged_tables(existing.pre_commands, incoming.pre_commands),
            post_commands: merged_tables(existing.post_commands, incoming.post_commands),
            commands: merged_tables(existing.commands, incoming.commands),
            python: overlaid_section::<Python>(existing.python, incoming.python),
            composer: overlaid_section::<Composer>(existing.composer, incoming.composer),
            brew: overlaid_section::<Brew>(existing.brew, incoming.brew),
            linux: overlaid_section::<Linux>(existing.linux, incoming.linux),
            git: overlaid_section::<Git>(existing.git, incoming.git),
            containers: overlaid_section::<Containers>(existing.containers, incoming.containers),
            windows: overlaid_section::<Windows>(existing.windows, incoming.windows),
            npm: overlaid_section::<NPM>(existing.npm, incoming.npm),
            yarn: overlaid_section::<Yarn>(existing.yarn, incoming.yarn),
            deno: overlaid_section::<Deno>(existing.deno, incoming.deno),
            vim: overlaid_section::<Vim>(existing.vim, incoming.vim),
            firmware: overlaid_section::<Firmware>(existing.firmware, incoming.firmware),
            vagrant: overlaid_section::<Vagrant>(existing.vagrant, incoming.vagrant),
            flatpak: overlaid_section::<Flatpak>(existing.flatpak, incoming.flatpak),
            distrobox: overlaid_section::<Distrobox>(existing.distrobox, incoming.distrobox),
            lensfun: overlaid_section::<Lensfun>(existing.lensfun, incoming.lensfun),
            julia: overlaid_section::<JuliaConfig>(existing.julia, incoming.julia),
            zigup: overlaid_section::<Zigup>(existing.zigup, incoming.zigup),
            vscode: overlaid_section::<VscodeConfig>(existing.vscode, incoming.vscode),
        }
    }

    fn merge(&mut self, incoming: ConfigFile) {
        recurse(&mut self.includes, incoming.includes);
        recurse(&mut self.misc, incoming.misc);
        merge_commands(&mut self.pre_commands, incoming.pre_commands);
        merge_commands(&mut self.post_commands, incoming.post_commands);
        merge_commands(&mut self.commands, incoming.commands);
        recurse(&mut self.python, incoming.python);
        recurse(&mut self.composer, incoming.composer);
        recurse(&mut self.brew, incoming.brew);
        recurse(&mut self.linux, incoming.linux);
        recurse(&mut self.git, incoming.git);
        recurse(&mut self.containers, incoming.containers);
        recurse(&mut self.windows, incoming.windows);
        recurse(&mut self.npm, incoming.npm);
        recurse(&mut self.yarn, incoming.yarn);
        recurse(&mut self.deno, incoming.deno);
        recurse(&mut self.vim, incoming.vim);
        recurse(&mut self.firmware, incoming.firmware);
        recurse(&mut self.vagrant, incoming.vagrant);
        recurse(&mut self.flatpak, incoming.flatpak);
        recurse(&mut self.distrobox, incoming.distrobox);
        recurse(&mut self.lensfun, incoming.lensfun);
        recurse(&mut self.julia, incoming.julia);
        recurse(&mut self.zigup, incoming.zigup);
        recurse(&mut self.vscode, incoming.vscode);
    }

    proof fn law_replace_only(existing: ConfigFileView, incoming: ConfigFileView) {
        if let (Some(old), Some(new)) = (existing.includes, incoming.includes) {
            Include::law_replace_only(old, new);
        }
        if let (Some(old), Some(new)) = (existing.misc, incoming.misc) {
            Misc::law_replace_only(old, new);
        }
        if let (Some(old), Some(new)) = (existing.python, incoming.python) {
            Python::law_replace_only(old, new);
        }
        if let (Some(old), Some(new)) = (existing.composer, incoming.composer) {
            Composer::law_replace_only(old, new);
        }
        if let (Some(old), Some(new)) = (existing.brew, incoming.brew) {
            Brew::law_replace_only(old, new);
        }
        if let (Some(old), Some(new)) = (existing.linux, incoming.linux) {
            Linux::law_replace_only(old, new);
        }
        if let (Some(old), Some(new)) = (existing.git, incoming.git) {
            Git::law_replace_only(old, new);
        }
        if let (Some(old), Some(new)) = (existing.containers, incoming.containers) {
            Containers::law_replace_only(old, new);
        }
        if let (Some(old), Some(new)) = (existing.windows, incoming.windows) {
            Windows::law_replace_only(old, new);
        }
        if let (Some(old), Some(new)) = (existing.npm, incoming.npm) {
            NPM::law_replace_only(old, new);
        }
        if let (Some(old), Some(new)) = (existing.yarn, incoming.yarn) {
            Yarn::law_replace_only(old, new);
        }
        if let (Some(old), Some(new)) = (existing.deno, incoming.deno) {
            Deno::law_replace_only(old, new);
        }
        if let (Some(old), Some(new)) = (existing.vim, incoming.vim) {
            Vim::law_replace_only(old, new);
        }
        if let (Some(old), Some(new)) = (existing.firmware, incoming.firmware) {
            Firmware::law_replace_only(old, new);
        }
        if let (Some(old), Some(new)) = (existing.vagrant, incoming.vagrant) {
            Vagrant::law_replace_only(old, new);
        }
        if let (Some(old), Some(new)) = (existing.flatpak, incoming.flatpak) {
            Flatpak::law_replace_only(old, new);
        }
        if let (Some(old), Some(new)) = (existing.distrobox, incoming.distrobox) {
            Distrobox::law_replace_only(old, new);
        }
        if let (Some(old), Some(new)) = (existing.lensfun, incoming.lensfun) {
            Lensfun::law_replace_only(old, new);
        }
        if let (Some(old), Some(new)) = (existing.julia, incoming.julia) {
            JuliaConfig::law_replace_only(old, new);
        }
        if let (Some(old), Some(new)) = (existing.zigup, incoming.zigup) {
            Zigup::law_replace_only(old, new);
        }
        if let (Some(old), Some(new)) = (existing.vscode, incoming.vscode) {
            VscodeConfig::law_replace_only(old, new);
        }
    }
}

/// The record after a fragment was loaded: the fragment is merged into it, and
/// a fragment that could not be had leaves it as it is.
pub open spec fn absorbed(record: ConfigFileView, loaded: Option<ConfigFileView>) -> ConfigFileView {
    match loaded {
        Some(fragment) => ConfigFile::merged(record, fragment),
        None => record,
    }
}

/// Whether `field` reads a field that is merged by `Replace`: what it reads in
/// a merged record is the incoming value where there is one, and else the old
/// one.
pub open spec fn reads_replace_field<T>(field: spec_fn(ConfigFileView) -> Option<T>) -> bool {
    forall|existing: ConfigFileView, incoming: ConfigFileView| #[trigger]
        field(ConfigFile::merged(existing, incoming)) == replaced(field(existing), field(incoming))
}

/// A `PrependList` field of the merged record holds the incoming list in front of
/// the old one where both records set the field, and else the list of the
/// record that sets it. A section that a record lacks counts as empty.
pub proof fn law_prepend_list(existing: ConfigFileView, incoming: ConfigFileView)
    ensures
        ConfigFile::merged(existing, incoming).includes_settings().paths == prepended(
            existing.includes_settings().paths,
            incoming.includes_settings().paths,
        ),
        ConfigFile::merged(existing, incoming).misc_settings().disable == prepended(
            existing.misc_settings().disable,
            incoming.misc_settings().disable,
        ),
        ConfigFile::merged(existing, incoming).misc_settings().ignore_failures == prepended(
            existing.misc_settings().ignore_failures,
            incoming.misc_settings().ignore_failures,
        ),
        ConfigFile::merged(existing, incoming).misc_settings().remote_topgrades == prepended(
            existing.misc_settings().remote_topgrades,
            incoming.misc_settings().remote_topgrades,
        ),
        ConfigFile::merged(existing, incoming).misc_settings().only == prepended(
            existing.misc_settings().only,
            incoming.misc_settings().only,
        ),
        ConfigFile::merged(existing, incoming).linux_settings().home_manager_arguments == prepended(
            existing.linux_settings().home_manager_arguments,
            incoming.linux_settings().home_manager_arguments,
        ),
        ConfigFile::merged(existing, incoming).git_settings().repos == prepended(
            existing.git_settings().repos,
            incoming.git_settings().repos,
        ),
        ConfigFile::merged(existing, incoming).containers_settings().ignored_containers == prepended(
            existing.containers_settings().ignored_containers,
            incoming.containers_settings().ignored_containers,
        ),
        ConfigFile::merged(existing, incoming).vagrant_settings().directories == prepended(
            existing.vagrant_settings().directories,
            incoming.vagrant_settings().directories,
        ),
        ConfigFile::merged(existing, incoming).distrobox_settings().containers == prepended(
            existing.distrobox_settings().containers,
            incoming.distrobox_settings().containers,
        ),
{
}

/// `PrependList` on one field: both lists present, only the old one, only the
/// incoming one.
pub proof fn law_prepend_cases<T>(old: Seq<T>, new: Seq<T>)
    ensures
        prepended(Some(old), Some(new)) == Some(new + old),
        prepended(Some(old), None) == Some(old),
        prepended(None, Some(new)) == Some(new),
        prepended(None::<Seq<T>>, None) == None::<Seq<T>>,
{
}

} // verus!
