use topgrade_config::resolver::{holds, resolve};
use topgrade_config::{CommandLineArgs, Config, ConfigFile, Context, Misc, Step};

fn context() -> Context {
    Context { config_directory: String::new(), keep_at_end: false }
}

fn record(only: Option<Vec<Step>>, disable: Option<Vec<Step>>) -> ConfigFile {
    let mut record = ConfigFile::default();
    let mut misc = Misc::default();
    misc.only = only;
    misc.disable = disable;
    record.misc = Some(misc);
    record
}

fn config(cli_only: Vec<Step>, cli_disable: Vec<Step>, record: ConfigFile) -> Config {
    let mut opt = CommandLineArgs::default();
    opt.only = cli_only;
    opt.disable = cli_disable;
    Config::load(opt, context(), Some(Ok(record)))
}

#[test]
fn every_step_runs_by_default() {
    let steps = resolve(&vec![], &vec![], &vec![], &vec![]);
    assert_eq!(steps, Step::all());
    assert_eq!(steps.len(), 141);
    let config = config(vec![], vec![], ConfigFile::default());
    for step in Step::all() {
        assert!(config.should_run(step));
    }
}

#[test]
fn empty_lists_of_the_record_change_nothing() {
    let config = config(vec![], vec![], record(Some(vec![]), Some(vec![])));
    for step in Step::all() {
        assert!(config.should_run(step));
    }
}

#[test]
fn config_only_gives_way_to_config_disable() {
    let config = config(vec![], vec![], record(Some(vec![Step::Cargo]), Some(vec![Step::Cargo])));
    assert!(!config.should_run(Step::Cargo));
    assert_eq!(Config::allowed_steps(&CommandLineArgs::default(), &record(Some(vec![Step::Cargo]), Some(vec![Step::Cargo]))), vec![]);
}

#[test]
fn config_only_gives_way_to_cli_disable() {
    let config = config(vec![], vec![Step::Cargo], record(Some(vec![Step::Cargo, Step::Vim]), None));
    assert!(!config.should_run(Step::Cargo));
    assert!(config.should_run(Step::Vim));
}

#[test]
fn cli_only_outweighs_cli_disable() {
    let config = config(vec![Step::Cargo], vec![Step::Cargo], ConfigFile::default());
    assert!(config.should_run(Step::Cargo));
    assert!(!config.should_run(Step::Vim));
}

#[test]
fn cli_only_outweighs_config_disable() {
    let config = config(vec![Step::Cargo], vec![], record(None, Some(vec![Step::Cargo])));
    assert!(config.should_run(Step::Cargo));
}

#[test]
fn only_lists_of_both_sides_are_united() {
    let steps = resolve(&vec![Step::Vim], &vec![], &vec![Step::Cargo, Step::Emacs], &vec![Step::Emacs]);
    assert_eq!(steps, vec![Step::Vim, Step::Cargo]);
}

#[test]
fn disable_alone_takes_steps_out_of_the_universe() {
    let steps = resolve(&vec![], &vec![Step::System], &vec![], &vec![Step::Vim]);
    assert_eq!(steps.len(), 139);
    assert!(!holds(&steps, Step::System));
    assert!(!holds(&steps, Step::Vim));
    assert!(holds(&steps, Step::Cargo));
}

#[test]
fn order_of_the_lists_does_not_matter() {
    let one = resolve(&vec![Step::Vim, Step::Cargo], &vec![Step::Emacs, Step::Vim], &vec![Step::Emacs], &vec![]);
    let other = resolve(&vec![Step::Cargo, Step::Vim], &vec![Step::Vim, Step::Emacs], &vec![Step::Emacs], &vec![]);
    for step in Step::all() {
        assert_eq!(holds(&one, step), holds(&other, step));
    }
    assert!(holds(&one, Step::Vim));
    assert!(holds(&one, Step::Cargo));
    assert!(!holds(&one, Step::Emacs));
}

#[test]
fn steps_are_iterated_in_declaration_order() {
    let all = Step::all();
    assert_eq!(all[0], Step::AM);
    assert_eq!(all[1], Step::AndroidStudio);
    assert_eq!(all[140], Step::Zvm);
    for (position, step) in all.iter().enumerate() {
        assert_eq!(Step::from_ordinal(position), Some(*step));
    }
    assert_eq!(Step::from_ordinal(141), None);
    assert_eq!(Step::COUNT, 141);
}

#[test]
fn step_names_are_written_in_snake_case() {
    assert_eq!(Step::AM.name(), "am");
    assert_eq!(Step::AndroidStudio.name(), "android_studio");
    assert_eq!(Step::JetbrainsPycharm.name(), "jetbrains_pycharm");
    assert_eq!(Step::Pip3.name(), "pip3");
    assert_eq!(Step::ClamAvDb.name(), "clam_av_db");
    assert_eq!(Step::WslUpdate.name(), "wsl_update");
}

#[test]
fn step_names_and_steps_go_both_ways() {
    for step in Step::all() {
        assert_eq!(Step::from_name(step.name()), Some(step));
    }
    assert_eq!(Step::from_name("vim"), Some(Step::Vim));
    assert_eq!(Step::from_name("Vim"), None);
    assert_eq!(Step::from_name(""), None);
    assert_eq!(Step::from_name("jet_brains_py_charm"), None);
}

#[test]
fn steps_know_their_position() {
    assert_eq!(Step::AM.position(), 0);
    assert_eq!(Step::Zvm.position(), 140);
    for (position, step) in Step::all().into_iter().enumerate() {
        assert_eq!(step.position(), position);
    }
}

#[test]
fn no_step_is_named_twice() {
    let mut names: Vec<&str> = Step::all().iter().map(|step| step.name()).collect();
    names.sort();
    names.dedup();
    assert_eq!(names.len(), 141);
}

#[test]
fn steps_are_ordered_as_they_are_declared() {
    let all = Step::all();
    for pair in all.windows(2) {
        assert!(pair[0] < pair[1]);
    }
    assert!(Step::AM < Step::Zvm);
    assert_eq!(Step::Vim.max(Step::Cargo), Step::Vim);
}
