use indexmap::IndexMap;
use topgrade_config::commands::merge_commands;
use topgrade_config::strategy::{append_string, prepend_list, prepend_strings, recurse, replace};
use topgrade_config::{
    ArchPackageManager, Brew, Commands, ConfigFile, Git, Include, Linux, Merge, Misc, Step, Zigup,
};

fn strings(list: &[&str]) -> Option<Vec<String>> {
    Some(list.iter().map(|s| s.to_string()).collect())
}

fn commands(list: &[(&str, &str)]) -> Option<Commands> {
    let mut table: Commands = IndexMap::new();
    for (name, command) in list {
        table.insert(name.to_string(), command.to_string());
    }
    Some(table)
}

fn pairs(table: &Option<Commands>) -> Vec<(String, String)> {
    table.as_ref().unwrap().iter().map(|(name, command)| (name.clone(), command.clone())).collect()
}

#[test]
fn replace_takes_the_incoming_value() {
    let mut field = Some(1);
    replace(&mut field, Some(2));
    assert_eq!(field, Some(2));
}

#[test]
fn replace_keeps_the_old_value_where_nothing_comes() {
    let mut field = Some(1);
    replace(&mut field, None);
    assert_eq!(field, Some(1));
    let mut unset: Option<u8> = None;
    replace(&mut unset, None);
    assert_eq!(unset, None);
    replace(&mut unset, Some(7));
    assert_eq!(unset, Some(7));
}

#[test]
fn prepend_puts_the_incoming_list_in_front() {
    let mut field = Some(vec![1, 2]);
    prepend_list(&mut field, Some(vec![3, 4]));
    assert_eq!(field, Some(vec![3, 4, 1, 2]));
}

#[test]
fn prepend_with_one_side_missing() {
    let mut field = Some(vec![1, 2]);
    prepend_list(&mut field, None);
    assert_eq!(field, Some(vec![1, 2]));
    let mut unset: Option<Vec<u8>> = None;
    prepend_list(&mut unset, None);
    assert_eq!(unset, None);
    prepend_list(&mut unset, Some(vec![5]));
    assert_eq!(unset, Some(vec![5]));
    let mut empty: Option<Vec<u8>> = Some(vec![]);
    prepend_list(&mut empty, Some(vec![]));
    assert_eq!(empty, Some(vec![]));
}

#[test]
fn prepend_strings_puts_the_incoming_list_in_front() {
    let mut field = strings(&["a", "b"]);
    prepend_strings(&mut field, strings(&["c"]));
    assert_eq!(field, strings(&["c", "a", "b"]));
}

#[test]
fn prepend_is_not_associative_when_reordered() {
    let mut left = strings(&["a"]);
    prepend_strings(&mut left, strings(&["b"]));
    prepend_strings(&mut left, strings(&["c"]));
    assert_eq!(left, strings(&["c", "b", "a"]));
    let mut right = strings(&["a"]);
    prepend_strings(&mut right, strings(&["c"]));
    prepend_strings(&mut right, strings(&["b"]));
    assert_eq!(right, strings(&["b", "c", "a"]));
}

#[test]
fn append_joins_with_one_blank() {
    let mut field = Some("--one".to_string());
    append_string(&mut field, Some("--two".to_string()));
    assert_eq!(field.as_deref(), Some("--one --two"));
}

#[test]
fn append_with_one_side_missing() {
    let mut field = Some("--one".to_string());
    append_string(&mut field, None);
    assert_eq!(field.as_deref(), Some("--one"));
    let mut unset: Option<String> = None;
    append_string(&mut unset, None);
    assert_eq!(unset, None);
    append_string(&mut unset, Some("--two".to_string()));
    assert_eq!(unset.as_deref(), Some("--two"));
    let mut empty = Some(String::new());
    append_string(&mut empty, Some(String::new()));
    assert_eq!(empty.as_deref(), Some(" "));
}

#[test]
fn recurse_merges_field_by_field() {
    let mut field = Some(Git {
        max_concurrency: Some(2),
        arguments: Some("--rebase".to_string()),
        repos: strings(&["~/old"]),
        pull_predefined: None,
    });
    let incoming = Some(Git {
        max_concurrency: None,
        arguments: Some("--autostash".to_string()),
        repos: strings(&["~/new"]),
        pull_predefined: Some(false),
    });
    recurse(&mut field, incoming);
    let git = field.unwrap();
    assert_eq!(git.max_concurrency, Some(2));
    assert_eq!(git.arguments.as_deref(), Some("--rebase --autostash"));
    assert_eq!(git.repos, strings(&["~/new", "~/old"]));
    assert_eq!(git.pull_predefined, Some(false));
}

#[test]
fn recurse_with_one_side_missing() {
    let mut field = Some(Brew { greedy_cask: Some(true), ..Brew::default() });
    recurse(&mut field, None);
    assert_eq!(field.as_ref().unwrap().greedy_cask, Some(true));
    let mut unset: Option<Brew> = None;
    recurse(&mut unset, None);
    assert!(unset.is_none());
    recurse(&mut unset, Some(Brew { autoremove: Some(false), ..Brew::default() }));
    assert_eq!(unset.as_ref().unwrap().autoremove, Some(false));
    assert_eq!(unset.as_ref().unwrap().greedy_cask, None);
}

#[test]
fn record_with_replace_fields_only_is_overlaid() {
    let mut a = ConfigFile::default();
    a.misc = Some(Misc { pre_sudo: Some(true), cleanup: Some(false), bashit_branch: Some("one".to_string()), ..Misc::default() });
    a.linux = Some(Linux { arch_package_manager: Some(ArchPackageManager::Yay), ..Linux::default() });
    a.zigup = Some(Zigup { target_versions: strings(&["0.12.0", "0.13.0"]), ..Zigup::default() });
    let mut b = ConfigFile::default();
    b.misc = Some(Misc { cleanup: Some(true), bashit_branch: Some("two".to_string()), no_retry: Some(true), ..Misc::default() });
    b.brew = Some(Brew { fetch_head: Some(true), ..Brew::default() });
    b.zigup = Some(Zigup { target_versions: strings(&["master"]), ..Zigup::default() });
    a.merge(b);
    let misc = a.misc.as_ref().unwrap();
    assert_eq!(misc.pre_sudo, Some(true));
    assert_eq!(misc.cleanup, Some(true));
    assert_eq!(misc.bashit_branch.as_deref(), Some("two"));
    assert_eq!(misc.no_retry, Some(true));
    assert_eq!(misc.set_title, None);
    assert_eq!(a.linux.as_ref().unwrap().arch_package_manager, Some(ArchPackageManager::Yay));
    assert_eq!(a.brew.as_ref().unwrap().fetch_head, Some(true));
    // A list that is merged by `Replace` is replaced as a whole.
    assert_eq!(a.zigup.as_ref().unwrap().target_versions, strings(&["master"]));
    assert!(a.git.is_none());
}

#[test]
fn record_merges_each_field_by_its_strategy() {
    let mut a = ConfigFile::default();
    a.includes = Some(Include { paths: strings(&["a.toml"]) });
    a.misc = Some(Misc {
        disable: Some(vec![Step::Vim]),
        ssh_arguments: Some("-4".to_string()),
        log_filters: strings(&["info"]),
        ..Misc::default()
    });
    let mut b = ConfigFile::default();
    b.includes = Some(Include { paths: strings(&["b.toml", "c.toml"]) });
    b.misc = Some(Misc {
        disable: Some(vec![Step::Cargo, Step::Vim]),
        ssh_arguments: Some("-v".to_string()),
        log_filters: strings(&["debug"]),
        ..Misc::default()
    });
    a.merge(b);
    assert_eq!(a.includes.as_ref().unwrap().paths, strings(&["b.toml", "c.toml", "a.toml"]));
    let misc = a.misc.as_ref().unwrap();
    assert_eq!(misc.disable, Some(vec![Step::Cargo, Step::Vim, Step::Vim]));
    assert_eq!(misc.ssh_arguments.as_deref(), Some("-4 -v"));
    assert_eq!(misc.log_filters, strings(&["debug"]));
}

#[test]
fn merging_an_empty_record_changes_nothing() {
    let mut a = ConfigFile::default();
    a.git = Some(Git { repos: strings(&["~/src"]), arguments: Some("-q".to_string()), ..Git::default() });
    a.commands = commands(&[("one", "echo 1")]);
    a.merge(ConfigFile::default());
    assert_eq!(a.git.as_ref().unwrap().repos, strings(&["~/src"]));
    assert_eq!(a.git.as_ref().unwrap().arguments.as_deref(), Some("-q"));
    assert_eq!(pairs(&a.commands), vec![("one".to_string(), "echo 1".to_string())]);
    let mut empty = ConfigFile::default();
    empty.merge(a);
    assert_eq!(empty.git.as_ref().unwrap().repos, strings(&["~/src"]));
    assert_eq!(pairs(&empty.commands), vec![("one".to_string(), "echo 1".to_string())]);
}

#[test]
fn command_tables_are_extended_in_order() {
    let mut table = commands(&[("one", "echo 1"), ("two", "echo 2"), ("three", "echo 3")]);
    merge_commands(&mut table, commands(&[("four", "echo 4"), ("two", "echo two"), ("five", "echo 5")]));
    assert_eq!(
        pairs(&table),
        vec![
            ("one".to_string(), "echo 1".to_string()),
            ("two".to_string(), "echo two".to_string()),
            ("three".to_string(), "echo 3".to_string()),
            ("four".to_string(), "echo 4".to_string()),
            ("five".to_string(), "echo 5".to_string()),
        ]
    );
}

#[test]
fn command_tables_with_one_side_missing() {
    let mut table = commands(&[("one", "echo 1")]);
    merge_commands(&mut table, None);
    assert_eq!(pairs(&table), vec![("one".to_string(), "echo 1".to_string())]);
    let mut unset: Option<Commands> = None;
    merge_commands(&mut unset, None);
    assert!(unset.is_none());
    merge_commands(&mut unset, commands(&[("two", "echo 2")]));
    assert_eq!(pairs(&unset), vec![("two".to_string(), "echo 2".to_string())]);
}

#[test]
fn records_merge_their_command_tables() {
    let mut a = ConfigFile::default();
    a.pre_commands = commands(&[("greet", "echo hello")]);
    a.post_commands = commands(&[("leave", "echo bye")]);
    let mut b = ConfigFile::default();
    b.pre_commands = commands(&[("greet", "echo hi"), ("wait", "sleep 1")]);
    b.commands = commands(&[("custom", "true")]);
    a.merge(b);
    assert_eq!(
        pairs(&a.pre_commands),
        vec![("greet".to_string(), "echo hi".to_string()), ("wait".to_string(), "sleep 1".to_string())]
    );
    assert_eq!(pairs(&a.post_commands), vec![("leave".to_string(), "echo bye".to_string())]);
    assert_eq!(pairs(&a.commands), vec![("custom".to_string(), "true".to_string())]);
}

#[test]
fn default_record_is_empty() {
    let record = ConfigFile::default();
    assert!(record.includes.is_none());
    assert!(record.misc.is_none());
    assert!(record.pre_commands.is_none());
    assert!(record.git.is_none());
    assert!(record.vscode.is_none());
    let misc = Misc::default();
    assert_eq!(misc.assume_yes, None);
    assert_eq!(misc.only, None);
}
