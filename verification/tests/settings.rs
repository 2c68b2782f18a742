use indexmap::IndexMap;
use topgrade_config::{
    config_directory, ArchPackageManager, Brew, CommandLineArgs, Commands, Config, ConfigFile, ContainerRuntime,
    Containers, Context, Deno, Distrobox, Git, Linux, Misc, ReadError, Step, SudoKind, TmuxSessionMode, Vagrant,
    VscodeConfig, Windows, Zigup, DEFAULT_LOG_LEVEL,
};

fn context() -> Context {
    Context { config_directory: "/home/user/.config".to_string(), keep_at_end: false }
}

fn with(opt: CommandLineArgs, record: ConfigFile) -> Config {
    Config::load(opt, context(), Some(Ok(record)))
}

fn defaults() -> Config {
    with(CommandLineArgs::default(), ConfigFile::default())
}

fn misc(misc: Misc) -> ConfigFile {
    let mut record = ConfigFile::default();
    record.misc = Some(misc);
    record
}

fn strings(list: &[&str]) -> Vec<String> {
    list.iter().map(|s| s.to_string()).collect()
}

#[test]
fn configuration_directory_comes_from_the_context() {
    assert_eq!(config_directory(&context()), "/home/user/.config");
}

#[test]
fn default_arguments() {
    let opt = CommandLineArgs::default();
    assert_eq!(opt.log_filter, "warn");
    assert_eq!(DEFAULT_LOG_LEVEL, "warn");
    assert!(!opt.edit_config());
    assert!(!opt.show_config_reference());
    assert!(opt.env_variables().is_empty());
    assert_eq!(opt.tracing_filter_directives(), "warn");
    assert_eq!(opt.yes, None);
}

#[test]
fn arguments_are_handed_out() {
    let mut opt = CommandLineArgs::default();
    opt.edit_config = true;
    opt.show_config_reference = true;
    opt.env = strings(&["A=1", "B=2"]);
    opt.verbose = true;
    opt.log_filter = "info".to_string();
    assert!(opt.edit_config());
    assert!(opt.show_config_reference());
    assert_eq!(opt.env_variables(), &strings(&["A=1", "B=2"]));
    assert_eq!(opt.tracing_filter_directives(), "info,debug");
}

#[test]
fn failed_reading_falls_back_to_the_empty_record() {
    let config = Config::load(CommandLineArgs::default(), context(), Some(Err(ReadError::Unreadable)));
    assert!(config.pre_commands().is_none());
    assert!(config.set_title());
    assert!(config.should_run(Step::Vim));
    let config = Config::load(CommandLineArgs::default(), context(), None);
    assert!(config.git_repos().is_none());
    assert!(config.should_run(Step::Vim));
}

#[test]
fn defaults_of_the_settings() {
    let config = defaults();
    assert!(!config.no_self_update());
    assert!(!config.run_in_tmux());
    assert!(!config.cleanup());
    assert!(!config.dry_run());
    assert!(!config.no_retry());
    assert!(!config.skip_notify());
    assert!(!config.verbose());
    assert!(!config.show_skipped());
    assert!(!config.keep_at_end());
    assert!(config.use_predefined_git_repos());
    assert!(config.set_title());
    assert!(config.accept_all_windows_updates());
    assert!(config.show_arch_news());
    assert!(config.winget_silent_install());
    assert!(config.display_time());
    assert!(config.julia_use_startup_file());
    assert!(!config.self_rename());
    assert!(!config.wsl_update_pre_release());
    assert!(!config.wsl_update_use_web_download());
    assert!(!config.winget_use_sudo());
    assert!(!config.brew_cask_greedy());
    assert!(!config.brew_greedy_latest());
    assert!(!config.brew_greedy_auto_updates());
    assert!(!config.brew_autoremove());
    assert!(!config.brew_fetch_head());
    assert!(!config.composer_self_update());
    assert!(!config.force_vim_plug_update());
    assert!(!config.notify_each_step());
    assert!(!config.distrobox_root());
    assert!(!config.enable_tlmgr_linux());
    assert!(!config.redhat_distro_sync());
    assert!(!config.suse_dup());
    assert!(!config.rpm_ostree());
    assert!(!config.bootc());
    assert!(!config.open_remotes_in_new_terminal());
    assert!(!config.pre_sudo());
    assert!(!config.npm_use_sudo());
    assert!(!config.yarn_use_sudo());
    assert!(!config.firmware_upgrade());
    assert!(!config.flatpak_use_sudo());
    assert!(!config.enable_pipupgrade());
    assert!(!config.enable_pip_review());
    assert!(!config.enable_pip_review_local());
    assert!(!config.poetry_force_self_update());
    assert!(!config.lensfun_use_sudo());
    assert!(!config.zigup_cleanup());
    assert_eq!(config.remote_topgrade_path(), "topgrade");
    assert_eq!(config.bashit_branch(), "stable");
    assert_eq!(config.garuda_update_arguments(), "");
    assert_eq!(config.trizen_arguments(), "");
    assert_eq!(config.pikaur_arguments(), "");
    assert_eq!(config.pamac_arguments(), "");
    assert_eq!(config.yay_arguments(), "");
    assert_eq!(config.aura_aur_arguments(), "");
    assert_eq!(config.aura_pacman_arguments(), "");
    assert_eq!(config.pipupgrade_arguments(), "");
    assert_eq!(config.apt_arguments(), None);
    assert_eq!(config.dnf_arguments(), None);
    assert_eq!(config.nix_arguments(), None);
    assert_eq!(config.nix_env_arguments(), None);
    assert_eq!(config.emerge_sync_flags(), None);
    assert_eq!(config.emerge_update_flags(), None);
    assert_eq!(config.deno_version(), None);
    assert_eq!(config.zigup_install_dir(), None);
    assert_eq!(config.zigup_path_link(), None);
    assert_eq!(config.vscode_profile(), None);
    assert_eq!(config.ssh_arguments(), None);
    assert_eq!(config.git_arguments(), None);
    assert_eq!(config.git_repos(), None);
    assert_eq!(config.containers_ignored_tags(), None);
    assert_eq!(config.remote_topgrades(), None);
    assert_eq!(config.home_manager(), None);
    assert_eq!(config.distrobox_containers(), None);
    assert_eq!(config.vagrant_directories(), None);
    assert_eq!(config.git_concurrency_limit(), None);
    assert_eq!(config.vagrant_power_on(), None);
    assert_eq!(config.vagrant_always_suspend(), None);
    assert_eq!(config.sudo_command(), None);
    assert_eq!(config.containers_runtime(), ContainerRuntime::Docker);
    assert_eq!(config.arch_package_manager(), ArchPackageManager::Autodetect);
    assert_eq!(config.tmux_session_mode(), TmuxSessionMode::AttachIfNotInSession);
    assert_eq!(config.zigup_target_versions(), strings(&["master"]));
    assert!(config.pre_commands().is_none());
    assert!(config.post_commands().is_none());
    assert!(config.commands().is_none());
    assert!(!config.yes(Step::Vim));
    assert!(!config.ignore_failure(Step::Vim));
    assert!(config.should_run_custom_command("anything"));
    assert_eq!(config.tracing_filter_directives(), ",warn");
}

#[test]
fn section_without_the_field_gives_the_default() {
    let mut record = ConfigFile::default();
    record.misc = Some(Misc::default());
    record.windows = Some(Windows::default());
    record.linux = Some(Linux::default());
    record.git = Some(Git::default());
    record.zigup = Some(Zigup::default());
    record.vscode = Some(VscodeConfig::default());
    let config = with(CommandLineArgs::default(), record);
    assert!(config.set_title());
    assert!(!config.no_retry());
    assert!(config.accept_all_windows_updates());
    assert!(config.show_arch_news());
    assert!(config.use_predefined_git_repos());
    assert_eq!(config.bashit_branch(), "stable");
    assert_eq!(config.yay_arguments(), "");
    assert_eq!(config.apt_arguments(), None);
    assert_eq!(config.git_repos(), None);
    assert_eq!(config.zigup_target_versions(), strings(&["master"]));
    assert_eq!(config.vscode_profile(), None);
    assert_eq!(config.arch_package_manager(), ArchPackageManager::Autodetect);
}

#[test]
fn record_decides_where_the_command_line_is_silent() {
    let mut record = misc(Misc {
        pre_sudo: Some(true),
        sudo_command: Some(SudoKind::Doas),
        remote_topgrades: Some(strings(&["one", "two"])),
        remote_topgrade_path: Some("bin/topgrade".to_string()),
        ssh_arguments: Some("-4".to_string()),
        set_title: Some(false),
        display_time: Some(false),
        no_retry: Some(true),
        run_in_tmux: Some(true),
        tmux_session_mode: Some(TmuxSessionMode::AttachAlways),
        cleanup: Some(true),
        notify_each_step: Some(true),
        skip_notify: Some(true),
        bashit_branch: Some("main".to_string()),
        no_self_update: Some(true),
        ..Misc::default()
    });
    record.windows = Some(Windows {
        accept_all_updates: Some(false),
        self_rename: Some(true),
        winget_silent_install: Some(false),
        ..Windows::default()
    });
    record.brew = Some(Brew { greedy_cask: Some(true), autoremove: Some(true), ..Brew::default() });
    record.linux = Some(Linux {
        yay_arguments: Some("--nodevel".to_string()),
        apt_arguments: Some("-y".to_string()),
        arch_package_manager: Some(ArchPackageManager::Paru),
        show_arch_news: Some(false),
        home_manager_arguments: Some(strings(&["--flake", "x"])),
        emerge_sync_flags: Some("-q".to_string()),
        ..Linux::default()
    });
    record.git = Some(Git {
        max_concurrency: Some(5),
        arguments: Some("--rebase".to_string()),
        repos: Some(strings(&["~/src"])),
        pull_predefined: Some(false),
    });
    record.containers = Some(Containers {
        ignored_containers: Some(strings(&["scratch"])),
        runtime: Some(ContainerRuntime::Podman),
    });
    record.vagrant = Some(Vagrant { directories: Some(strings(&["/v"])), power_on: Some(true), always_suspend: Some(false) });
    record.distrobox = Some(Distrobox { use_root: Some(true), containers: Some(strings(&["box"])) });
    record.deno = Some(Deno { version: Some("canary".to_string()) });
    record.zigup = Some(Zigup {
        target_versions: Some(strings(&["0.13.0", "master"])),
        install_dir: Some("/zig".to_string()),
        path_link: Some("/bin/zig".to_string()),
        cleanup: Some(true),
    });
    record.vscode = Some(VscodeConfig { profile: Some("work".to_string()) });
    let config = with(CommandLineArgs::default(), record);
    assert!(config.pre_sudo());
    assert_eq!(config.sudo_command(), Some(SudoKind::Doas));
    assert_eq!(config.remote_topgrades(), Some(&strings(&["one", "two"])));
    assert_eq!(config.remote_topgrade_path(), "bin/topgrade");
    assert_eq!(config.ssh_arguments(), Some(&"-4".to_string()));
    assert!(!config.set_title());
    assert!(!config.display_time());
    assert!(config.no_retry());
    assert!(config.run_in_tmux());
    assert_eq!(config.tmux_session_mode(), TmuxSessionMode::AttachAlways);
    assert!(config.cleanup());
    assert!(config.notify_each_step());
    assert!(config.skip_notify());
    assert_eq!(config.bashit_branch(), "main");
    assert!(config.no_self_update());
    assert!(!config.accept_all_windows_updates());
    assert!(config.self_rename());
    assert!(!config.winget_silent_install());
    assert!(config.brew_cask_greedy());
    assert!(config.brew_autoremove());
    assert!(!config.brew_fetch_head());
    assert_eq!(config.yay_arguments(), "--nodevel");
    assert_eq!(config.apt_arguments(), Some("-y"));
    assert_eq!(config.dnf_arguments(), None);
    assert_eq!(config.arch_package_manager(), ArchPackageManager::Paru);
    assert!(!config.show_arch_news());
    assert_eq!(config.home_manager(), Some(&strings(&["--flake", "x"])));
    assert_eq!(config.emerge_sync_flags(), Some("-q"));
    assert_eq!(config.git_concurrency_limit(), Some(5));
    assert_eq!(config.git_arguments(), Some(&"--rebase".to_string()));
    assert_eq!(config.git_repos(), Some(&strings(&["~/src"])));
    assert!(!config.use_predefined_git_repos());
    assert_eq!(config.containers_ignored_tags(), Some(&strings(&["scratch"])));
    assert_eq!(config.containers_runtime(), ContainerRuntime::Podman);
    assert_eq!(config.vagrant_directories(), Some(&strings(&["/v"])));
    assert_eq!(config.vagrant_power_on(), Some(true));
    assert_eq!(config.vagrant_always_suspend(), Some(false));
    assert!(config.distrobox_root());
    assert_eq!(config.distrobox_containers(), Some(&strings(&["box"])));
    assert_eq!(config.deno_version(), Some("canary"));
    assert_eq!(config.zigup_target_versions(), strings(&["0.13.0", "master"]));
    assert_eq!(config.zigup_install_dir(), Some("/zig"));
    assert_eq!(config.zigup_path_link(), Some("/bin/zig"));
    assert!(config.zigup_cleanup());
    assert_eq!(config.vscode_profile(), Some("work"));
}

#[test]
fn flag_of_the_command_line_wins_where_it_is_set() {
    let mut opt = CommandLineArgs::default();
    opt.no_retry = true;
    opt.cleanup = true;
    opt.run_in_tmux = true;
    opt.no_self_update = true;
    opt.skip_notify = true;
    opt.disable_predefined_git_repos = true;
    opt.dry_run = true;
    opt.verbose = true;
    opt.show_skipped = true;
    opt.keep_at_end = true;
    let mut record = misc(Misc {
        no_retry: Some(false),
        cleanup: Some(false),
        run_in_tmux: Some(false),
        no_self_update: Some(false),
        skip_notify: Some(false),
        ..Misc::default()
    });
    record.git = Some(Git { pull_predefined: Some(true), ..Git::default() });
    let config = with(opt, record);
    assert!(config.no_retry());
    assert!(config.cleanup());
    assert!(config.run_in_tmux());
    assert!(config.no_self_update());
    assert!(config.skip_notify());
    assert!(!config.use_predefined_git_repos());
    assert!(config.dry_run());
    assert!(config.verbose());
    assert!(config.show_skipped());
    assert!(config.keep_at_end());
}

#[test]
fn environment_can_ask_to_keep_the_program_open() {
    let context = Context { config_directory: String::new(), keep_at_end: true };
    let config = Config::load(CommandLineArgs::default(), context, None);
    assert!(config.keep_at_end());
}

#[test]
fn yes_list_of_the_command_line() {
    let mut opt = CommandLineArgs::default();
    opt.yes = Some(vec![Step::Vim, Step::Cargo]);
    let config = with(opt, misc(Misc { assume_yes: Some(false), ..Misc::default() }));
    assert!(config.yes(Step::Vim));
    assert!(config.yes(Step::Cargo));
    assert!(!config.yes(Step::Emacs));
}

#[test]
fn empty_yes_list_applies_to_every_step() {
    let mut opt = CommandLineArgs::default();
    opt.yes = Some(vec![]);
    let config = with(opt, ConfigFile::default());
    for step in Step::all() {
        assert!(config.yes(step));
    }
}

#[test]
fn record_answers_yes_where_the_command_line_is_silent() {
    let config = with(CommandLineArgs::default(), misc(Misc { assume_yes: Some(true), ..Misc::default() }));
    assert!(config.yes(Step::Vim));
    let config = with(CommandLineArgs::default(), misc(Misc { assume_yes: Some(false), ..Misc::default() }));
    assert!(!config.yes(Step::Vim));
}

#[test]
fn ignored_failures() {
    let config = with(
        CommandLineArgs::default(),
        misc(Misc { ignore_failures: Some(vec![Step::Vim]), ..Misc::default() }),
    );
    assert!(config.ignore_failure(Step::Vim));
    assert!(!config.ignore_failure(Step::Cargo));
}

#[test]
fn empty_list_of_ignored_failures_applies_to_every_step() {
    let config =
        with(CommandLineArgs::default(), misc(Misc { ignore_failures: Some(vec![]), ..Misc::default() }));
    for step in Step::all() {
        assert!(config.ignore_failure(step));
    }
}

#[test]
fn custom_commands_of_the_command_line() {
    let mut opt = CommandLineArgs::default();
    opt.custom_commands = strings(&["one", "two"]);
    let config = with(opt, ConfigFile::default());
    assert!(config.should_run_custom_command("one"));
    assert!(config.should_run_custom_command("two"));
    assert!(!config.should_run_custom_command("three"));
    assert!(!config.should_run_custom_command(""));
}

#[test]
fn filter_directives_from_all_sides() {
    let mut opt = CommandLineArgs::default();
    opt.log_filter = "info".to_string();
    opt.verbose = true;
    let config = with(opt, misc(Misc { log_filters: Some(strings(&["a=warn", "b=trace"])), ..Misc::default() }));
    assert_eq!(config.tracing_filter_directives(), "a=warn,b=trace,info,debug");
    let config = with(
        CommandLineArgs::default(),
        misc(Misc { log_filters: Some(strings(&["a=warn"])), ..Misc::default() }),
    );
    assert_eq!(config.tracing_filter_directives(), "a=warn,warn");
    let config = with(CommandLineArgs::default(), misc(Misc { log_filters: Some(vec![]), ..Misc::default() }));
    assert_eq!(config.tracing_filter_directives(), ",warn");
}

#[test]
fn tmux_arguments_are_split_into_words() {
    let config = with(
        CommandLineArgs::default(),
        misc(Misc {
            tmux_arguments: Some("-S '/tmp/my socket' -2".to_string()),
            tmux_session_mode: Some(TmuxSessionMode::AttachAlways),
            ..Misc::default()
        }),
    );
    let tmux = config.tmux_config().unwrap();
    assert_eq!(tmux.args, strings(&["-S", "/tmp/my socket", "-2"]));
    assert_eq!(tmux.session_mode, TmuxSessionMode::AttachAlways);
    assert_eq!(config.tmux_arguments().unwrap(), strings(&["-S", "/tmp/my socket", "-2"]));
}

#[test]
fn tmux_without_arguments() {
    let tmux = defaults().tmux_config().unwrap();
    assert!(tmux.args.is_empty());
    assert_eq!(tmux.session_mode, TmuxSessionMode::AttachIfNotInSession);
}

#[test]
fn open_quote_in_the_tmux_arguments_is_reported() {
    let config =
        with(CommandLineArgs::default(), misc(Misc { tmux_arguments: Some("'foo".to_string()), ..Misc::default() }));
    let error = config.tmux_config().unwrap_err();
    assert_eq!(error.field, "tmux_arguments");
    assert_eq!(error.value, "'foo");
    assert_eq!(error.message(), "Failed to parse `tmux_arguments`: `'foo`: missing closing quote");
    assert!(config.tmux_arguments().is_err());
}

#[test]
fn empty_profile_counts_as_none() {
    let mut record = ConfigFile::default();
    record.vscode = Some(VscodeConfig { profile: Some(String::new()) });
    assert_eq!(with(CommandLineArgs::default(), record).vscode_profile(), None);
}

#[test]
fn command_tables_are_handed_out() {
    let mut table: Commands = IndexMap::new();
    table.insert("greet".to_string(), "echo hello".to_string());
    let mut record = ConfigFile::default();
    record.pre_commands = Some(table.clone());
    record.commands = Some(table.clone());
    let config = with(CommandLineArgs::default(), record);
    assert_eq!(config.pre_commands(), &Some(table.clone()));
    assert_eq!(config.commands(), &Some(table));
    assert!(config.post_commands().is_none());
}

#[test]
fn container_runtimes_have_names() {
    assert_eq!(ContainerRuntime::Docker.to_string(), "docker");
    assert_eq!(ContainerRuntime::Podman.to_string(), "podman");
}
