//! The sections of the steps that update a single tool.

use crate::strategy::{append_string, appended, Merge, prepend_strings, prepended, replace, replaced, text, texts};
use vstd::prelude::*;

verus! {

/// The program that runs containers.
#[derive(Clone, Copy, Debug, PartialEq, Eq, Structural)]
pub enum ContainerRuntime {
    Docker,
    Podman,
}

impl ContainerRuntime {
    /// The name of the program.
    pub open spec fn spec_name(self) -> Seq<char> {
        match self {
            ContainerRuntime::Docker => "docker"@,
            ContainerRuntime::Podman => "podman"@,
        }
    }

    /// The name of the program.
    pub fn to_string(&self) -> (name: String)
        ensures
            name@ == self.spec_name(),
    {
        match self {
            ContainerRuntime::Docker => "docker".to_owned(),
            ContainerRuntime::Podman => "podman".to_owned(),
        }
    }
}

/// Settings of the step that pulls container images.
#[derive(Debug)]
pub struct Containers {
    /// Merged by `PrependList`.
    pub ignored_containers: Option<Vec<String>>,
    pub runtime: Option<ContainerRuntime>,
}

/// What a `Containers` section holds.
pub struct ContainersView {
    pub ignored_containers: Option<Seq<Seq<char>>>,
    pub runtime: Option<ContainerRuntime>,
}

impl ContainersView {
    /// The section in which no field is set.
    pub open spec fn empty() -> ContainersView {
        ContainersView { ignored_containers: None, runtime: None }
    }
}

impl View for Containers {
    type V = ContainersView;

    open spec fn view(&self) -> ContainersView {
        ContainersView {
            ignored_containers: texts(self.ignored_containers),
            runtime: self.runtime,
        }
    }
}

impl Default for Containers {
    fn default() -> (section: Containers)
        ensures
            section@ == ContainersView::empty(),
    {
        Containers { ignored_containers: None, runtime: None }
    }
}

impl Merge for Containers {
    open spec fn merged(existing: ContainersView, incoming: ContainersView) -> ContainersView {
        ContainersView {
            ignored_containers: prepended(existing.ignored_containers, incoming.ignored_containers),
            runtime: replaced(existing.runtime, incoming.runtime),
        }
    }

    open spec fn replace_only(record: ContainersView) -> bool {
        &&& record.ignored_containers.is_none()
    }

    open spec fn overlaid(existing: ContainersView, incoming: ContainersView) -> ContainersView {
        ContainersView {
            ignored_containers: replaced(existing.ignored_containers, incoming.ignored_containers),
            runtime: replaced(existing.runtime, incoming.runtime),
        }
    }

    fn merge(&mut self, incoming: Containers) {
        prepend_strings(&mut self.ignored_containers, incoming.ignored_containers);
        replace(&mut self.runtime, incoming.runtime);
    }

    proof fn law_replace_only(existing: ContainersView, incoming: ContainersView) {
    }
}

/// Settings of the step that pulls Git repositories.
#[derive(Debug)]
pub struct Git {
    pub max_concurrency: Option<usize>,
    /// Merged by `AppendString`.
    pub arguments: Option<String>,
    /// Merged by `PrependList`.
    pub repos: Option<Vec<String>>,
    pub pull_predefined: Option<bool>,
}

/// What a `Git` section holds.
pub struct GitView {
    pub max_concurrency: Option<usize>,
    pub arguments: Option<Seq<char>>,
    pub repos: Option<Seq<Seq<char>>>,
    pub pull_predefined: Option<bool>,
}

impl GitView {
    /// The section in which no field is set.
    pub open spec fn empty() -> GitView {
        GitView { max_concurrency: None, arguments: None, repos: None, pull_predefined: None }
    }
}

impl View for Git {
    type V = GitView;

    open spec fn view(&self) -> GitView {
        GitView {
            max_concurrency: self.max_concurrency,
            arguments: text(self.arguments),
            repos: texts(self.repos),
            pull_predefined: self.pull_predefined,
        }
    }
}

impl Default for Git {
    fn default() -> (section: Git)
        ensures
            section@ == GitView::empty(),
    {
        Git { max_concurrency: None, arguments: None, repos: None, pull_predefined: None }
    }
}

impl Merge for Git {
    open spec fn merged(existing: GitView, incoming: GitView) -> GitView {
        GitView {
            max_concurrency: replaced(existing.max_concurrency, incoming.max_concurrency),
            arguments: appended(existing.arguments, incoming.arguments),
            repos: prepended(existing.repos, incoming.repos),
            pull_predefined: replaced(existing.pull_predefined, incoming.pull_predefined),
        }
    }

    open spec fn replace_only(record: GitView) -> bool {
        &&& record.arguments.is_none()
        &&& record.repos.is_none()
    }

    open spec fn overlaid(existing: GitView, incoming: GitView) -> GitView {
        GitView {
            max_concurrency: replaced(existing.max_concurrency, incoming.max_concurrency),
            arguments: replaced(existing.arguments, incoming.arguments),
            repos: replaced(existing.repos, incoming.repos),
            pull_predefined: replaced(existing.pull_predefined, incoming.pull_predefined),
        }
    }

    fn merge(&mut self, incoming: Git) {
        replace(&mut self.max_concurrency, incoming.max_concurrency);
        append_string(&mut self.arguments, incoming.arguments);
        prepend_strings(&mut self.repos, incoming.repos);
        replace(&mut self.pull_predefined, incoming.pull_predefined);
    }

    proof fn law_replace_only(existing: GitView, incoming: GitView) {
    }
}

/// Settings of the Vagrant step.
#[derive(Debug)]
pub struct Vagrant {
    /// Merged by `PrependList`.
    pub directories: Option<Vec<String>>,
    pub power_on: Option<bool>,
    pub always_suspend: Option<bool>,
}

/// What a `Vagrant` section holds.
pub struct VagrantView {
    pub directories: Option<Seq<Seq<char>>>,
    pub power_on: Option<bool>,
    pub always_suspend: Option<bool>,
}

impl VagrantView {
    /// The section in which no field is set.
    pub open spec fn empty() -> VagrantView {
        VagrantView { directories: None, power_on: None, always_suspend: None }
    }
}

impl View for Vagrant {
    type V = VagrantView;

    open spec fn view(&self) -> VagrantView {
        VagrantView {
            directories: texts(self.directories),
            power_on: self.power_on,
            always_suspend: self.always_suspend,
        }
    }
}

impl Default for Vagrant {
    fn default() -> (section: Vagrant)
        ensures
            section@ == VagrantView::empty(),
    {
        Vagrant { directories: None, power_on: None, always_suspend: None }
    }
}

impl Merge for Vagrant {
    open spec fn merged(existing: VagrantView, incoming: VagrantView) -> VagrantView {
        VagrantView {
            directories: prepended(existing.directories, incoming.directories),
            power_on: replaced(existing.power_on, incoming.power_on),
            always_suspend: replaced(existing.always_suspend, incoming.always_suspend),
        }
    }

    open spec fn replace_only(record: VagrantView) -> bool {
        &&& record.directories.is_none()
    }

    open spec fn overlaid(existing: VagrantView, incoming: VagrantView) -> VagrantView {
        VagrantView {
            directories: replaced(existing.directories, incoming.directories),
            power_on: replaced(existing.power_on, incoming.power_on),
            always_suspend: replaced(existing.always_suspend, incoming.always_suspend),
        }
    }

    fn merge(&mut self, incoming: Vagrant) {
        prepend_strings(&mut self.directories, incoming.directories);
        replace(&mut self.power_on, incoming.power_on);
        replace(&mut self.always_suspend, incoming.always_suspend);
    }

    proof fn law_replace_only(existing: VagrantView, incoming: VagrantView) {
    }
}

/// Settings of the Python steps.
#[derive(Debug)]
pub struct Python {
    pub enable_pip_review: Option<bool>,
    pub enable_pip_review_local: Option<bool>,
    pub enable_pipupgrade: Option<bool>,
    pub pipupgrade_arguments: Option<String>,
    pub poetry_force_self_update: Option<bool>,
}

/// What a `Python` section holds.
pub struct PythonView {
    pub enable_pip_review: Option<bool>,
    pub enable_pip_review_local: Option<bool>,
    pub enable_pipupgrade: Option<bool>,
    pub pipupgrade_arguments: Option<Seq<char>>,
    pub poetry_force_self_update: Option<bool>,
}

impl PythonView {
    /// The section in which no field is set.
    pub open spec fn empty() -> PythonView {
        PythonView {
            enable_pip_review: None,
            enable_pip_review_local: None,
            enable_pipupgrade: None,
            pipupgrade_arguments: None,
            poetry_force_self_update: None,
        }
    }
}

impl View for Python {
    type V = PythonView;

    open spec fn view(&self) -> PythonView {
        PythonView {
            enable_pip_review: self.enable_pip_review,
            enable_pip_review_local: self.enable_pip_review_local,
            enable_pipupgrade: self.enable_pipupgrade,
            pipupgrade_arguments: text(self.pipupgrade_arguments),
            poetry_force_self_update: self.poetry_force_self_update,
        }
    }
}

impl Default for Python {
    fn default() -> (section: Python)
        ensures
            section@ == PythonView::empty(),
    {
        Python {
            enable_pip_review: None,
            enable_pip_review_local: None,
            enable_pipupgrade: None,
            pipupgrade_arguments: None,
            poetry_force_self_update: None,
        }
    }
}

impl Merge for Python {
    open spec fn merged(existing: PythonView, incoming: PythonView) -> PythonView {
        PythonView {
            enable_pip_review: replaced(existing.enable_pip_review, incoming.enable_pip_review),
            enable_pip_review_local: replaced(existing.enable_pip_review_local, incoming.enable_pip_review_local),
            enable_pipupgrade: replaced(existing.enable_pipupgrade, incoming.enable_pipupgrade),
            pipupgrade_arguments: replaced(existing.pipupgrade_arguments, incoming.pipupgrade_arguments),
            poetry_force_self_update: replaced(existing.poetry_force_self_update, incoming.poetry_force_self_update),
        }
    }

    open spec fn replace_only(record: PythonView) -> bool {
        true
    }

    open spec fn overlaid(existing: PythonView, incoming: PythonView) -> PythonView {
        PythonView {
            enable_pip_review: replaced(existing.enable_pip_review, incoming.enable_pip_review),
            enable_pip_review_local: replaced(existing.enable_pip_review_local, incoming.enable_pip_review_local),
            enable_pipupgrade: replaced(existing.enable_pipupgrade, incoming.enable_pipupgrade),
            pipupgrade_arguments: replaced(existing.pipupgrade_arguments, incoming.pipupgrade_arguments),
            poetry_force_self_update: replaced(existing.poetry_force_self_update, incoming.poetry_force_self_update),
        }
    }

    fn merge(&mut self, incoming: Python) {
        replace(&mut self.enable_pip_review, incoming.enable_pip_review);
        replace(&mut self.enable_pip_review_local, incoming.enable_pip_review_local);
        replace(&mut self.enable_pipupgrade, incoming.enable_pipupgrade);
        replace(&mut self.pipupgrade_arguments, incoming.pipupgrade_arguments);
        replace(&mut self.poetry_force_self_update, incoming.poetry_force_self_update);
    }

    proof fn law_replace_only(existing: PythonView, incoming: PythonView) {
    }
}

/// Settings of the Yarn step.
#[derive(Debug)]
pub struct Yarn {
    pub use_sudo: Option<bool>,
}

/// What a `Yarn` section holds.
pub struct YarnView {
    pub use_sudo: Option<bool>,
}

impl YarnView {
    /// The section in which no field is set.
    pub open spec fn empty() -> YarnView {
        YarnView { use_sudo: None }
    }
}

impl View for Yarn {
    type V = YarnView;

    open spec fn view(&self) -> YarnView {
        YarnView { use_sudo: self.use_sudo }
    }
}

impl Default for Yarn {
    fn default() -> (section: Yarn)
        ensures
            section@ == YarnView::empty(),
    {
        Yarn { use_sudo: None }
    }
}

impl Merge for Yarn {
    open spec fn merged(existing: YarnView, incoming: YarnView) -> YarnView {
        YarnView { use_sudo: replaced(existing.use_sudo, incoming.use_sudo) }
    }

    open spec fn replace_only(record: YarnView) -> bool {
        true
    }

    open spec fn overlaid(existing: YarnView, incoming: YarnView) -> YarnView {
        YarnView { use_sudo: replaced(existing.use_sudo, incoming.use_sudo) }
    }

    fn merge(&mut self, incoming: Yarn) {
        replace(&mut self.use_sudo, incoming.use_sudo);
    }

    proof fn law_replace_only(existing: YarnView, incoming: YarnView) {
    }
}

/// Settings of the npm step.
#[derive(Debug)]
pub struct NPM {
    pub use_sudo: Option<bool>,
}

/// What a `NPM` section holds.
pub struct NPMView {
    pub use_sudo: Option<bool>,
}

impl NPMView {
    /// The section in which no field is set.
    pub open spec fn empty() -> NPMView {
        NPMView { use_sudo: None }
    }
}

impl View for NPM {
    type V = NPMView;

    open spec fn view(&self) -> NPMView {
        NPMView { use_sudo: self.use_sudo }
    }
}

impl Default for NPM {
    fn default() -> (section: NPM)
        ensures
            section@ == NPMView::empty(),
    {
        NPM { use_sudo: None }
    }
}

impl Merge for NPM {
    open spec fn merged(existing: NPMView, incoming: NPMView) -> NPMView {
        NPMView { use_sudo: replaced(existing.use_sudo, incoming.use_sudo) }
    }

    open spec fn replace_only(record: NPMView) -> bool {
        true
    }

    open spec fn overlaid(existing: NPMView, incoming: NPMView) -> NPMView {
        NPMView { use_sudo: replaced(existing.use_sudo, incoming.use_sudo) }
    }

    fn merge(&mut self, incoming: NPM) {
        replace(&mut self.use_sudo, incoming.use_sudo);
    }

    proof fn law_replace_only(existing: NPMView, incoming: NPMView) {
    }
}

/// Settings of the Deno step.
#[derive(Debug)]
pub struct Deno {
    pub version: Option<String>,
}

/// What a `Deno` section holds.
pub struct DenoView {
    pub version: Option<Seq<char>>,
}

impl DenoView {
    /// The section in which no field is set.
    pub open spec fn empty() -> DenoView {
        DenoView { version: None }
    }
}

impl View for Deno {
    type V = DenoView;

    open spec fn view(&self) -> DenoView {
        DenoView { version: text(self.version) }
    }
}

impl Default for Deno {
    fn default() -> (section: Deno)
        ensures
            section@ == DenoView::empty(),
    {
        Deno { version: None }
    }
}

impl Merge for Deno {
    open spec fn merged(existing: DenoView, incoming: DenoView) -> DenoView {
        DenoView { version: replaced(existing.version, incoming.version) }
    }

    open spec fn replace_only(record: DenoView) -> bool {
        true
    }

    open spec fn overlaid(existing: DenoView, incoming: DenoView) -> DenoView {
        DenoView { version: replaced(existing.version, incoming.version) }
    }

    fn merge(&mut self, incoming: Deno) {
        replace(&mut self.version, incoming.version);
    }

    proof fn law_replace_only(existing: DenoView, incoming: DenoView) {
    }
}

/// Settings of the Composer step.
#[derive(Debug)]
pub struct Composer {
    pub self_update: Option<bool>,
}

/// What a `Composer` section holds.
pub struct ComposerView {
    pub self_update: Option<bool>,
}

impl ComposerView {
    /// The section in which no field is set.
    pub open spec fn empty() -> ComposerView {
        ComposerView { self_update: None }
    }
}

impl View for Composer {
    type V = ComposerView;

    open spec fn view(&self) -> ComposerView {
        ComposerView { self_update: self.self_update }
    }
}

impl Default for Composer {
    fn default() -> (section: Composer)
        ensures
            section@ == ComposerView::empty(),
    {
        Composer { self_update: None }
    }
}

impl Merge for Composer {
    open spec fn merged(existing: ComposerView, incoming: ComposerView) -> ComposerView {
        ComposerView { self_update: replaced(existing.self_update, incoming.self_update) }
    }

    open spec fn replace_only(record: ComposerView) -> bool {
        true
    }

    open spec fn overlaid(existing: ComposerView, incoming: ComposerView) -> ComposerView {
        ComposerView { self_update: replaced(existing.self_update, incoming.self_update) }
    }

    fn merge(&mut self, incoming: Composer) {
        replace(&mut self.self_update, incoming.self_update);
    }

    proof fn law_replace_only(existing: ComposerView, incoming: ComposerView) {
    }
}

/// Settings of the Vim step.
#[derive(Debug)]
pub struct Vim {
    pub force_plug_update: Option<bool>,
}

/// What a `Vim` section holds.
pub struct VimView {
    pub force_plug_update: Option<bool>,
}

impl VimView {
    /// The section in which no field is set.
    pub open spec fn empty() -> VimView {
        VimView { force_plug_update: None }
    }
}

impl View for Vim {
    type V = VimView;

    open spec fn view(&self) -> VimView {
        VimView { force_plug_update: self.force_plug_update }
    }
}

impl Default for Vim {
    fn default() -> (section: Vim)
        ensures
            section@ == VimView::empty(),
    {
        Vim { force_plug_update: None }
    }
}

impl Merge for Vim {
    open spec fn merged(existing: VimView, incoming: VimView) -> VimView {
        VimView {
            force_plug_update: replaced(existing.force_plug_update, incoming.force_plug_update),
        }
    }

    open spec fn replace_only(record: VimView) -> bool {
        true
    }

    open spec fn overlaid(existing: VimView, incoming: VimView) -> VimView {
        VimView {
            force_plug_update: replaced(existing.force_plug_update, incoming.force_plug_update),
        }
    }

    fn merge(&mut self, incoming: Vim) {
        replace(&mut self.force_plug_update, incoming.force_plug_update);
    }

    proof fn law_replace_only(existing: VimView, incoming: VimView) {
    }
}

/// Settings of the Lensfun step.
#[derive(Debug)]
pub struct Lensfun {
    pub use_sudo: Option<bool>,
}

/// What a `Lensfun` section holds.
pub struct LensfunView {
    pub use_sudo: Option<bool>,
}

impl LensfunView {
    /// The section in which no field is set.
    pub open spec fn empty() -> LensfunView {
        LensfunView { use_sudo: None }
    }
}

impl View for Lensfun {
    type V = LensfunView;

    open spec fn view(&self) -> LensfunView {
        LensfunView { use_sudo: self.use_sudo }
    }
}

impl Default for Lensfun {
    fn default() -> (section: Lensfun)
        ensures
            section@ == LensfunView::empty(),
    {
        Lensfun { use_sudo: None }
    }
}

impl Merge for Lensfun {
    open spec fn merged(existing: LensfunView, incoming: LensfunView) -> LensfunView {
        LensfunView { use_sudo: replaced(existing.use_sudo, incoming.use_sudo) }
    }

    open spec fn replace_only(record: LensfunView) -> bool {
        true
    }

    open spec fn overlaid(existing: LensfunView, incoming: LensfunView) -> LensfunView {
        LensfunView { use_sudo: replaced(existing.use_sudo, incoming.use_sudo) }
    }

    fn merge(&mut self, incoming: Lensfun) {
        replace(&mut self.use_sudo, incoming.use_sudo);
    }

    proof fn law_replace_only(existing: LensfunView, incoming: LensfunView) {
    }
}

/// Settings of the Julia step.
#[derive(Debug)]
pub struct JuliaConfig {
    pub startup_file: Option<bool>,
}

/// What a `JuliaConfig` section holds.
pub struct JuliaConfigView {
    pub startup_file: Option<bool>,
}

impl JuliaConfigView {
    /// The section in which no field is set.
    pub open spec fn empty() -> JuliaConfigView {
        JuliaConfigView { startup_file: None }
    }
}

impl View for JuliaConfig {
    type V = JuliaConfigView;

    open spec fn view(&self) -> JuliaConfigView {
        JuliaConfigView { startup_file: self.startup_file }
    }
}

impl Default for JuliaConfig {
    fn default() -> (section: JuliaConfig)
        ensures
            section@ == JuliaConfigView::empty(),
    {
        JuliaConfig { startup_file: None }
    }
}

impl Merge for JuliaConfig {
    open spec fn merged(existing: JuliaConfigView, incoming: JuliaConfigView) -> JuliaConfigView {
        JuliaConfigView { startup_file: replaced(existing.startup_file, incoming.startup_file) }
    }

    open spec fn replace_only(record: JuliaConfigView) -> bool {
        true
    }

    open spec fn overlaid(existing: JuliaConfigView, incoming: JuliaConfigView) -> JuliaConfigView {
        JuliaConfigView { startup_file: replaced(existing.startup_file, incoming.startup_file) }
    }

    fn merge(&mut self, incoming: JuliaConfig) {
        replace(&mut self.startup_file, incoming.startup_file);
    }

    proof fn law_replace_only(existing: JuliaConfigView, incoming: JuliaConfigView) {
    }
}

/// Settings of the Zigup step.
#[derive(Debug)]
pub struct Zigup {
    pub target_versions: Option<Vec<String>>,
    pub install_dir: Option<String>,
    pub path_link: Option<String>,
    pub cleanup: Option<bool>,
}

/// What a `Zigup` section holds.
pub struct ZigupView {
    pub target_versions: Option<Seq<Seq<char>>>,
    pub install_dir: Option<Seq<char>>,
    pub path_link: Option<Seq<char>>,
    pub cleanup: Option<bool>,
}

impl ZigupView {
    /// The section in which no field is set.
    pub open spec fn empty() -> ZigupView {
        ZigupView { target_versions: None, install_dir: None, path_link: None, cleanup: None }
    }
}

impl View for Zigup {
    type V = ZigupView;

    open spec fn view(&self) -> ZigupView {
        ZigupView {
            target_versions: texts(self.target_versions),
            install_dir: text(self.install_dir),
            path_link: text(self.path_link),
            cleanup: self.cleanup,
        }
    }
}

impl Default for Zigup {
    fn default() -> (section: Zigup)
        ensures
            section@ == ZigupView::empty(),
    {
        Zigup { target_versions: None, install_dir: None, path_link: None, cleanup: None }
    }
}

impl Merge for Zigup {
    open spec fn merged(existing: ZigupView, incoming: ZigupView) -> ZigupView {
        ZigupView {
            target_versions: replaced(existing.target_versions, incoming.target_versions),
            install_dir: replaced(existing.install_dir, incoming.install_dir),
            path_link: replaced(existing.path_link, incoming.path_link),
            cleanup: replaced(existing.cleanup, incoming.cleanup),
        }
    }

    open spec fn replace_only(record: ZigupView) -> bool {
        true
    }

    open spec fn overlaid(existing: ZigupView, incoming: ZigupView) -> ZigupView {
        ZigupView {
            target_versions: replaced(existing.target_versions, incoming.target_versions),
            install_dir: replaced(existing.install_dir, incoming.install_dir),
            path_link: replaced(existing.path_link, incoming.path_link),
            cleanup: replaced(existing.cleanup, incoming.cleanup),
        }
    }

    fn merge(&mut self, incoming: Zigup) {
        replace(&mut self.target_versions, incoming.target_versions);
        replace(&mut self.install_dir, incoming.install_dir);
        replace(&mut self.path_link, incoming.path_link);
        replace(&mut self.cleanup, incoming.cleanup);
    }

    proof fn law_replace_only(existing: ZigupView, incoming: ZigupView) {
    }
}

/// Settings of the Visual Studio Code steps.
#[derive(Debug)]
pub struct VscodeConfig {
    pub profile: Option<String>,
}

/// What a `VscodeConfig` section holds.
pub struct VscodeConfigView {
    pub profile: Option<Seq<char>>,
}

impl VscodeConfigView {
    /// The section in which no field is set.
    pub open spec fn empty() -> VscodeConfigView {
        VscodeConfigView { profile: None }
    }
}

impl View for VscodeConfig {
    type V = VscodeConfigView;

    open spec fn view(&self) -> VscodeConfigView {
        VscodeConfigView { profile: text(self.profile) }
    }
}

impl Default for VscodeConfig {
    fn default() -> (section: VscodeConfig)
        ensures
            section@ == VscodeConfigView::empty(),
    {
        VscodeConfig { profile: None }
    }
}

impl Merge for VscodeConfig {
    open spec fn merged(existing: VscodeConfigView, incoming: VscodeConfigView) -> VscodeConfigView {
        VscodeConfigView { profile: replaced(existing.profile, incoming.profile) }
    }

    open spec fn replace_only(record: VscodeConfigView) -> bool {
        true
    }

    open spec fn overlaid(existing: VscodeConfigView, incoming: VscodeConfigView) -> VscodeConfigView {
        VscodeConfigView { profile: replaced(existing.profile, incoming.profile) }
    }

    fn merge(&mut self, incoming: VscodeConfig) {
        replace(&mut self.profile, incoming.profile);
    }

    proof fn law_replace_only(existing: VscodeConfigView, incoming: VscodeConfigView) {
    }
}

} // verus!
