//! The sections of the steps that update an operating system.

use crate::strategy::{append_string, appended, Merge, prepend_strings, prepended, replace, replaced, text, texts};
use vstd::prelude::*;

verus! {

/// The package manager of an Arch Linux system.
#[derive(Clone, Copy, Debug, PartialEq, Eq, Structural)]
pub enum ArchPackageManager {
    Autodetect,
    Aura,
    GarudaUpdate,
    Pacman,
    Pamac,
    Paru,
    Pikaur,
    Trizen,
    Yay,
}

/// Settings of the steps that update a Linux system.
#[derive(Debug)]
pub struct Linux {
    /// Merged by `AppendString`.
    pub yay_arguments: Option<String>,
    /// Merged by `AppendString`.
    pub aura_aur_arguments: Option<String>,
    /// Merged by `AppendString`.
    pub aura_pacman_arguments: Option<String>,
    pub arch_package_manager: Option<ArchPackageManager>,
    pub show_arch_news: Option<bool>,
    /// Merged by `AppendString`.
    pub garuda_update_arguments: Option<String>,
    /// Merged by `AppendString`.
    pub trizen_arguments: Option<String>,
    /// Merged by `AppendString`.
    pub pikaur_arguments: Option<String>,
    /// Merged by `AppendString`.
    pub pamac_arguments: Option<String>,
    /// Merged by `AppendString`.
    pub dnf_arguments: Option<String>,
    /// Merged by `AppendString`.
    pub nix_arguments: Option<String>,
    /// Merged by `AppendString`.
    pub nix_env_arguments: Option<String>,
    /// Merged by `AppendString`.
    pub apt_arguments: Option<String>,
    pub enable_tlmgr: Option<bool>,
    pub redhat_distro_sync: Option<bool>,
    pub suse_dup: Option<bool>,
    pub rpm_ostree: Option<bool>,
    pub bootc: Option<bool>,
    /// Merged by `AppendString`.
    pub emerge_sync_flags: Option<String>,
    /// Merged by `AppendString`.
    pub emerge_update_flags: Option<String>,
    /// Merged by `PrependList`.
    pub home_manager_arguments: Option<Vec<String>>,
}

/// What a `Linux` section holds.
pub struct LinuxView {
    pub yay_arguments: Option<Seq<char>>,
    pub aura_aur_arguments: Option<Seq<char>>,
    pub aura_pacman_arguments: Option<Seq<char>>,
    pub arch_package_manager: Option<ArchPackageManager>,
    pub show_arch_news: Option<bool>,
    pub garuda_update_arguments: Option<Seq<char>>,
    pub trizen_arguments: Option<Seq<char>>,
    pub pikaur_arguments: Option<Seq<char>>,
    pub pamac_arguments: Option<Seq<char>>,
    pub dnf_arguments: Option<Seq<char>>,
    pub nix_arguments: Option<Seq<char>>,
    pub nix_env_arguments: Option<Seq<char>>,
    pub apt_arguments: Option<Seq<char>>,
    pub enable_tlmgr: Option<bool>,
    pub redhat_distro_sync: Option<bool>,
    pub suse_dup: Option<bool>,
    pub rpm_ostree: Option<bool>,
    pub bootc: Option<bool>,
    pub emerge_sync_flags: Option<Seq<char>>,
    pub emerge_update_flags: Option<Seq<char>>,
    pub home_manager_arguments: Option<Seq<Seq<char>>>,
}

impl LinuxView {
    /// The section in which no field is set.
    pub open spec fn empty() -> LinuxView {
        LinuxView {
            yay_arguments: None,
            aura_aur_arguments: None,
            aura_pacman_arguments: None,
            arch_package_manager: None,
            show_arch_news: None,
            garuda_update_arguments: None,
            trizen_arguments: None,
            pikaur_arguments: None,
            pamac_arguments: None,
            dnf_arguments: None,
            nix_arguments: None,
            nix_env_arguments: None,
            apt_arguments: None,
            enable_tlmgr: None,
            redhat_distro_sync: None,
            suse_dup: None,
            rpm_ostree: None,
            bootc: None,
            emerge_sync_flags: None,
            emerge_update_flags: None,
            home_manager_arguments: None,
        }
    }
}

impl View for Linux {
    type V = LinuxView;

    open spec fn view(&self) -> LinuxView {
        LinuxView {
            yay_arguments: text(self.yay_arguments),
            aura_aur_arguments: text(self.aura_aur_arguments),
            aura_pacman_arguments: text(self.aura_pacman_arguments),
            arch_package_manager: self.arch_package_manager,
            show_arch_news: self.show_arch_news,
            garuda_update_arguments: text(self.garuda_update_arguments),
            trizen_arguments: text(self.trizen_arguments),
            pikaur_arguments: text(self.pikaur_arguments),
            pamac_arguments: text(self.pamac_arguments),
            dnf_arguments: text(self.dnf_arguments),
            nix_arguments: text(self.nix_arguments),
            nix_env_arguments: text(self.nix_env_arguments),
            apt_arguments: text(self.apt_arguments),
            enable_tlmgr: self.enable_tlmgr,
            redhat_distro_sync: self.redhat_distro_sync,
            suse_dup: self.suse_dup,
            rpm_ostree: self.rpm_ostree,
            bootc: self.bootc,
            emerge_sync_flags: text(self.emerge_sync_flags),
            emerge_update_flags: text(self.emerge_update_flags),
            home_manager_arguments: texts(self.home_manager_arguments),
        }
    }
}

impl Default for Linux {
    fn default() -> (section: Linux)
        ensures
            section@ == LinuxView::empty(),
    {
        Linux {
            yay_arguments: None,
            aura_aur_arguments: None,
            aura_pacman_arguments: None,
            arch_package_manager: None,
            show_arch_news: None,
            garuda_update_arguments: None,
            trizen_arguments: None,
            pikaur_arguments: None,
            pamac_arguments: None,
            dnf_arguments: None,
            nix_arguments: None,
            nix_env_arguments: None,
            apt_arguments: None,
            enable_tlmgr: None,
            redhat_distro_sync: None,
            suse_dup: None,
            rpm_ostree: None,
            bootc: None,
            emerge_sync_flags: None,
            emerge_update_flags: None,
            home_manager_arguments: None,
        }
    }
}

impl Merge for Linux {
    open spec fn merged(existing: LinuxView, incoming: LinuxView) -> LinuxView {
        LinuxView {
            yay_arguments: appended(existing.yay_arguments, incoming.yay_arguments),
            aura_aur_arguments: appended(existing.aura_aur_arguments, incoming.aura_aur_arguments),
            aura_pacman_arguments: appended(existing.aura_pacman_arguments, incoming.aura_pacman_arguments),
            arch_package_manager: replaced(existing.arch_package_manager, incoming.arch_package_manager),
            show_arch_news: replaced(existing.show_arch_news, incoming.show_arch_news),
            garuda_update_arguments: appended(existing.garuda_update_arguments, incoming.garuda_update_arguments),
            trizen_arguments: appended(existing.trizen_arguments, incoming.trizen_arguments),
            pikaur_arguments: appended(existing.pikaur_arguments, incoming.pikaur_arguments),
            pamac_arguments: appended(existing.pamac_arguments, incoming.pamac_arguments),
            dnf_arguments: appended(existing.dnf_arguments, incoming.dnf_arguments),
            nix_arguments: appended(existing.nix_arguments, incoming.nix_arguments),
            nix_env_arguments: appended(existing.nix_env_arguments, incoming.nix_env_arguments),
            apt_arguments: appended(existing.apt_arguments, incoming.apt_arguments),
            enable_tlmgr: replaced(existing.enable_tlmgr, incoming.enable_tlmgr),
            redhat_distro_sync: replaced(existing.redhat_distro_sync, incoming.redhat_distro_sync),
            suse_dup: replaced(existing.suse_dup, incoming.suse_dup),
            rpm_ostree: replaced(existing.rpm_ostree, incoming.rpm_ostree),
            bootc: replaced(existing.bootc, incoming.bootc),
            emerge_sync_flags: appended(existing.emerge_sync_flags, incoming.emerge_sync_flags),
            emerge_update_flags: appended(existing.emerge_update_flags, incoming.emerge_update_flags),
            home_manager_arguments: prepended(existing.home_manager_arguments, incoming.home_manager_arguments),
        }
    }

    open spec fn replace_only(record: LinuxView) -> bool {
        &&& record.yay_arguments.is_none()
        &&& record.aura_aur_arguments.is_none()
        &&& record.aura_pacman_arguments.is_none()
        &&& record.garuda_update_arguments.is_none()
        &&& record.trizen_arguments.is_none()
        &&& record.pikaur_arguments.is_none()
        &&& record.pamac_arguments.is_none()
        &&& record.dnf_arguments.is_none()
        &&& record.nix_arguments.is_none()
        &&& record.nix_env_arguments.is_none()
        &&& record.apt_arguments.is_none()
        &&& record.emerge_sync_flags.is_none()
        &&& record.emerge_update_flags.is_none()
        &&& record.home_manager_arguments.is_none()
    }

    open spec fn overlaid(existing: LinuxView, incoming: LinuxView) -> LinuxView {
        LinuxView {
            yay_arguments: replaced(existing.yay_arguments, incoming.yay_arguments),
            aura_aur_arguments: replaced(existing.aura_aur_arguments, incoming.aura_aur_arguments),
            aura_pacman_arguments: replaced(existing.aura_pacman_arguments, incoming.aura_pacman_arguments),
            arch_package_manager: replaced(existing.arch_package_manager, incoming.arch_package_manager),
            show_arch_news: replaced(existing.show_arch_news, incoming.show_arch_news),
            garuda_update_arguments: replaced(existing.garuda_update_arguments, incoming.garuda_update_arguments),
            trizen_arguments: replaced(existing.trizen_arguments, incoming.trizen_arguments),
            pikaur_arguments: replaced(existing.pikaur_arguments, incoming.pikaur_arguments),
            pamac_arguments: replaced(existing.pamac_arguments, incoming.pamac_arguments),
            dnf_arguments: replaced(existing.dnf_arguments, incoming.dnf_arguments),
            nix_arguments: replaced(existing.nix_arguments, incoming.nix_arguments),
            nix_env_arguments: replaced(existing.nix_env_arguments, incoming.nix_env_arguments),
            apt_arguments: replaced(existing.apt_arguments, incoming.apt_arguments),
            enable_tlmgr: replaced(existing.enable_tlmgr, incoming.enable_tlmgr),
            redhat_distro_sync: replaced(existing.redhat_distro_sync, incoming.redhat_distro_sync),
            suse_dup: replaced(existing.suse_dup, incoming.suse_dup),
            rpm_ostree: replaced(existing.rpm_ostree, incoming.rpm_ostree),
            bootc: replaced(existing.bootc, incoming.bootc),
            emerge_sync_flags: replaced(existing.emerge_sync_flags, incoming.emerge_sync_flags),
            emerge_update_flags: replaced(existing.emerge_update_flags, incoming.emerge_update_flags),
            home_manager_arguments: replaced(existing.home_manager_arguments, incoming.home_manager_arguments),
        }
    }

    fn merge(&mut self, incoming: Linux) {
        append_string(&mut self.yay_arguments, incoming.yay_arguments);
        append_string(&mut self.aura_aur_arguments, incoming.aura_aur_arguments);
        append_string(&mut self.aura_pacman_arguments, incoming.aura_pacman_arguments);
        replace(&mut self.arch_package_manager, incoming.arch_package_manager);
        replace(&mut self.show_arch_news, incoming.show_arch_news);
        append_string(&mut self.garuda_update_arguments, incoming.garuda_update_arguments);
        append_string(&mut self.trizen_arguments, incoming.trizen_arguments);
        append_string(&mut self.pikaur_arguments, incoming.pikaur_arguments);
        append_string(&mut self.pamac_arguments, incoming.pamac_arguments);
        append_string(&mut self.dnf_arguments, incoming.dnf_arguments);
        append_string(&mut self.nix_arguments, incoming.nix_arguments);
        append_string(&mut self.nix_env_arguments, incoming.nix_env_arguments);
        append_string(&mut self.apt_arguments, incoming.apt_arguments);
        replace(&mut self.enable_tlmgr, incoming.enable_tlmgr);
        replace(&mut self.redhat_distro_sync, incoming.redhat_distro_sync);
        replace(&mut self.suse_dup, incoming.suse_dup);
        replace(&mut self.rpm_ostree, incoming.rpm_ostree);
        replace(&mut self.bootc, incoming.bootc);
        append_string(&mut self.emerge_sync_flags, incoming.emerge_sync_flags);
        append_string(&mut self.emerge_update_flags, incoming.emerge_update_flags);
        prepend_strings(&mut self.home_manager_arguments, incoming.home_manager_arguments);
    }

    proof fn law_replace_only(existing: LinuxView, incoming: LinuxView) {
    }
}

/// Settings of the steps that update a Windows system.
#[derive(Debug)]
pub struct Windows {
    pub accept_all_updates: Option<bool>,
    pub self_rename: Option<bool>,
    pub open_remotes_in_new_terminal: Option<bool>,
    pub wsl_update_pre_release: Option<bool>,
    pub wsl_update_use_web_download: Option<bool>,
    pub winget_silent_install: Option<bool>,
    pub winget_use_sudo: Option<bool>,
}

/// What a `Windows` section holds.
pub struct WindowsView {
    pub accept_all_updates: Option<bool>,
    pub self_rename: Option<bool>,
    pub open_remotes_in_new_terminal: Option<bool>,
    pub wsl_update_pre_release: Option<bool>,
    pub wsl_update_use_web_download: Option<bool>,
    pub winget_silent_install: Option<bool>,
    pub winget_use_sudo: Option<bool>,
}

impl WindowsView {
    /// The section in which no field is set.
    pub open spec fn empty() -> WindowsView {
        WindowsView {
            accept_all_updates: None,
            self_rename: None,
            open_remotes_in_new_terminal: None,
            wsl_update_pre_release: None,
            wsl_update_use_web_download: None,
            winget_silent_install: None,
            winget_use_sudo: None,
        }
    }
}

impl View for Windows {
    type V = WindowsView;

    open spec fn view(&self) -> WindowsView {
        WindowsView {
            accept_all_updates: self.accept_all_updates,
            self_rename: self.self_rename,
            open_remotes_in_new_terminal: self.open_remotes_in_new_terminal,
            wsl_update_pre_release: self.wsl_update_pre_release,
            wsl_update_use_web_download: self.wsl_update_use_web_download,
            winget_silent_install: self.winget_silent_install,
            winget_use_sudo: self.winget_use_sudo,
        }
    }
}

impl Default for Windows {
    fn default() -> (section: Windows)
        ensures
            section@ == WindowsView::empty(),
    {
        Windows {
            accept_all_updates: None,
            self_rename: None,
            open_remotes_in_new_terminal: None,
            wsl_update_pre_release: None,
            wsl_update_use_web_download: None,
            winget_silent_install: None,
            winget_use_sudo: None,
        }
    }
}

impl Merge for Windows {
    open spec fn merged(existing: WindowsView, incoming: WindowsView) -> WindowsView {
        WindowsView {
            accept_all_updates: replaced(existing.accept_all_updates, incoming.accept_all_updates),
            self_rename: replaced(existing.self_rename, incoming.self_rename),
            open_remotes_in_new_terminal: replaced(existing.open_remotes_in_new_terminal, incoming.open_remotes_in_new_terminal),
            wsl_update_pre_release: replaced(existing.wsl_update_pre_release, incoming.wsl_update_pre_release),
            wsl_update_use_web_download: replaced(existing.wsl_update_use_web_download, incoming.wsl_update_use_web_download),
            winget_silent_install: replaced(existing.winget_silent_install, incoming.winget_silent_install),
            winget_use_sudo: replaced(existing.winget_use_sudo, incoming.winget_use_sudo),
        }
    }

    open spec fn replace_only(record: WindowsView) -> bool {
        true
    }

    open spec fn overlaid(existing: WindowsView, incoming: WindowsView) -> WindowsView {
        WindowsView {
            accept_all_updates: replaced(existing.accept_all_updates, incoming.accept_all_updates),
            self_rename: replaced(existing.self_rename, incoming.self_rename),
            open_remotes_in_new_terminal: replaced(existing.open_remotes_in_new_terminal, incoming.open_remotes_in_new_terminal),
            wsl_update_pre_release: replaced(existing.wsl_update_pre_release, incoming.wsl_update_pre_release),
            wsl_update_use_web_download: replaced(existing.wsl_update_use_web_download, incoming.wsl_update_use_web_download),
            winget_silent_install: replaced(existing.winget_silent_install, incoming.winget_silent_install),
            winget_use_sudo: replaced(existing.winget_use_sudo, incoming.winget_use_sudo),
        }
    }

    fn merge(&mut self, incoming: Windows) {
        replace(&mut self.accept_all_updates, incoming.accept_all_updates);
        replace(&mut self.self_rename, incoming.self_rename);
        replace(&mut self.open_remotes_in_new_terminal, incoming.open_remotes_in_new_terminal);
        replace(&mut self.wsl_update_pre_release, incoming.wsl_update_pre_release);
        replace(&mut self.wsl_update_use_web_download, incoming.wsl_update_use_web_download);
        replace(&mut self.winget_silent_install, incoming.winget_silent_install);
        replace(&mut self.winget_use_sudo, incoming.winget_use_sudo);
    }

    proof fn law_replace_only(existing: WindowsView, incoming: WindowsView) {
    }
}

/// Settings of the Homebrew steps.
#[derive(Debug)]
pub struct Brew {
    pub greedy_cask: Option<bool>,
    pub greedy_latest: Option<bool>,
    pub greedy_auto_updates: Option<bool>,
    pub autoremove: Option<bool>,
    pub fetch_head: Option<bool>,
}

/// What a `Brew` section holds.
pub struct BrewView {
    pub greedy_cask: Option<bool>,
    pub greedy_latest: Option<bool>,
    pub greedy_auto_updates: Option<bool>,
    pub autoremove: Option<bool>,
    pub fetch_head: Option<bool>,
}

impl BrewView {
    /// The section in which no field is set.
    pub open spec fn empty() -> BrewView {
        BrewView {
            greedy_cask: None,
            greedy_latest: None,
            greedy_auto_updates: None,
            autoremove: None,
            fetch_head: None,
        }
    }
}

impl View for Brew {
    type V = BrewView;

    open spec fn view(&self) -> BrewView {
        BrewView {
            greedy_cask: self.greedy_cask,
            greedy_latest: self.greedy_latest,
            greedy_auto_updates: self.greedy_auto_updates,
            autoremove: self.autoremove,
            fetch_head: self.fetch_head,
        }
    }
}

impl Default for Brew {
    fn default() -> (section: Brew)
        ensures
            section@ == BrewView::empty(),
    {
        Brew {
            greedy_cask: None,
            greedy_latest: None,
            greedy_auto_updates: None,
            autoremove: None,
            fetch_head: None,
        }
    }
}

impl Merge for Brew {
    open spec fn merged(existing: BrewView, incoming: BrewView) -> BrewView {
        BrewView {
            greedy_cask: replaced(existing.greedy_cask, incoming.greedy_cask),
            greedy_latest: replaced(existing.greedy_latest, incoming.greedy_latest),
            greedy_auto_updates: replaced(existing.greedy_auto_updates, incoming.greedy_auto_updates),
            autoremove: replaced(existing.autoremove, incoming.autoremove),
            fetch_head: replaced(existing.fetch_head, incoming.fetch_head),
        }
    }

    open spec fn replace_only(record: BrewView) -> bool {
        true
    }

    open spec fn overlaid(existing: BrewView, incoming: BrewView) -> BrewView {
        BrewView {
            greedy_cask: replaced(existing.greedy_cask, incoming.greedy_cask),
            greedy_latest: replaced(existing.greedy_latest, incoming.greedy_latest),
            greedy_auto_updates: replaced(existing.greedy_auto_updates, incoming.greedy_auto_updates),
            autoremove: replaced(existing.autoremove, incoming.autoremove),
            fetch_head: replaced(existing.fetch_head, incoming.fetch_head),
        }
    }

    fn merge(&mut self, incoming: Brew) {
        replace(&mut self.greedy_cask, incoming.greedy_cask);
        replace(&mut self.greedy_latest, incoming.greedy_latest);
        replace(&mut self.greedy_auto_updates, incoming.greedy_auto_updates);
        replace(&mut self.autoremove, incoming.autoremove);
        replace(&mut self.fetch_head, incoming.fetch_head);
    }

    proof fn law_replace_only(existing: BrewView, incoming: BrewView) {
    }
}

/// Settings of the firmware step.
#[derive(Debug)]
pub struct Firmware {
    pub upgrade: Option<bool>,
}

/// What a `Firmware` section holds.
pub struct FirmwareView {
    pub upgrade: Option<bool>,
}

impl FirmwareView {
    /// The section in which no field is set.
    pub open spec fn empty() -> FirmwareView {
        FirmwareView { upgrade: None }
    }
}

impl View for Firmware {
    type V = FirmwareView;

    open spec fn view(&self) -> FirmwareView {
        FirmwareView { upgrade: self.upgrade }
    }
}

impl Default for Firmware {
    fn default() -> (section: Firmware)
        ensures
            section@ == FirmwareView::empty(),
    {
        Firmware { upgrade: None }
    }
}

impl Merge for Firmware {
    open spec fn merged(existing: FirmwareView, incoming: FirmwareView) -> FirmwareView {
        FirmwareView { upgrade: replaced(existing.upgrade, incoming.upgrade) }
    }

    open spec fn replace_only(record: FirmwareView) -> bool {
        true
    }

    open spec fn overlaid(existing: FirmwareView, incoming: FirmwareView) -> FirmwareView {
        FirmwareView { upgrade: replaced(existing.upgrade, incoming.upgrade) }
    }

    fn merge(&mut self, incoming: Firmware) {
        replace(&mut self.upgrade, incoming.upgrade);
    }

    proof fn law_replace_only(existing: FirmwareView, incoming: FirmwareView) {
    }
}

/// Settings of the Flatpak step.
#[derive(Debug)]
pub struct Flatpak {
    pub use_sudo: Option<bool>,
}

/// What a `Flatpak` section holds.
pub struct FlatpakView {
    pub use_sudo: Option<bool>,
}

impl FlatpakView {
    /// The section in which no field is set.
    pub open spec fn empty() -> FlatpakView {
        FlatpakView { use_sudo: None }
    }
}

impl View for Flatpak {
    type V = FlatpakView;

    open spec fn view(&self) -> FlatpakView {
        FlatpakView { use_sudo: self.use_sudo }
    }
}

impl Default for Flatpak {
    fn default() -> (section: Flatpak)
        ensures
            section@ == FlatpakView::empty(),
    {
        Flatpak { use_sudo: None }
    }
}

impl Merge for Flatpak {
    open spec fn merged(existing: FlatpakView, incoming: FlatpakView) -> FlatpakView {
        FlatpakView { use_sudo: replaced(existing.use_sudo, incoming.use_sudo) }
    }

    open spec fn replace_only(record: FlatpakView) -> bool {
        true
    }

    open spec fn overlaid(existing: FlatpakView, incoming: FlatpakView) -> FlatpakView {
        FlatpakView { use_sudo: replaced(existing.use_sudo, incoming.use_sudo) }
    }

    fn merge(&mut self, incoming: Flatpak) {
        replace(&mut self.use_sudo, incoming.use_sudo);
    }

    proof fn law_replace_only(existing: FlatpakView, incoming: FlatpakView) {
    }
}

/// Settings of the Distrobox step.
#[derive(Debug)]
pub struct Distrobox {
    pub use_root: Option<bool>,
    /// Merged by `PrependList`.
    pub containers: Option<Vec<String>>,
}

/// What a `Distrobox` section holds.
pub struct DistroboxView {
    pub use_root: Option<bool>,
    pub containers: Option<Seq<Seq<char>>>,
}

impl DistroboxView {
    /// The section in which no field is set.
    pub open spec fn empty() -> DistroboxView {
        DistroboxView { use_root: None, containers: None }
    }
}

impl View for Distrobox {
    type V = DistroboxView;

    open spec fn view(&self) -> DistroboxView {
        DistroboxView { use_root: self.use_root, containers: texts(self.containers) }
    }
}

impl Default for Distrobox {
    fn default() -> (section: Distrobox)
        ensures
            section@ == DistroboxView::empty(),
    {
        Distrobox { use_root: None, containers: None }
    }
}

impl Merge for Distrobox {
    open spec fn merged(existing: DistroboxView, incoming: DistroboxView) -> DistroboxView {
        DistroboxView {
            use_root: replaced(existing.use_root, incoming.use_root),
            containers: prepended(existing.containers, incoming.containers),
        }
    }

    open spec fn replace_only(record: DistroboxView) -> bool {
        &&& record.containers.is_none()
    }

    open spec fn overlaid(existing: DistroboxView, incoming: DistroboxView) -> DistroboxView {
        DistroboxView {
            use_root: replaced(existing.use_root, incoming.use_root),
            containers: replaced(existing.containers, incoming.containers),
        }
    }

    fn merge(&mut self, incoming: Distrobox) {
        replace(&mut self.use_root, incoming.use_root);
        prepend_strings(&mut self.containers, incoming.containers);
    }

    proof fn law_replace_only(existing: DistroboxView, incoming: DistroboxView) {
    }
}

} // verus!
