use topgrade_config::fragment::{ensure_misc_is_present, slices};
use topgrade_config::sources::{
    ensure, ensure_topgrade_d, primary_names, sort_paths, ADDITIONAL_DIRECTORY, DEFAULT_FRAGMENT,
    NESTED_PRIMARY_NAME, PRIMARY_NAME,
};
use topgrade_config::Candidate;

fn strings(list: &[&str]) -> Vec<String> {
    list.iter().map(|s| s.to_string()).collect()
}

fn candidates(first: bool, second: bool) -> Vec<Candidate> {
    vec![
        Candidate { path: "/cfg/topgrade.toml".to_string(), exists: first },
        Candidate { path: "/cfg/topgrade/topgrade.toml".to_string(), exists: second },
    ]
}

#[test]
fn names_below_the_configuration_directory() {
    assert_eq!(PRIMARY_NAME, "topgrade.toml");
    assert_eq!(NESTED_PRIMARY_NAME, "topgrade/topgrade.toml");
    assert_eq!(ADDITIONAL_DIRECTORY, "topgrade.d");
    assert_eq!(primary_names(), vec!["topgrade.toml", "topgrade/topgrade.toml"]);
}

#[test]
fn paths_are_sorted_lexically() {
    let sorted = sort_paths(strings(&["d/20-second", "d/10-first", "d/3", "d/Z", "d/a", "d/", "d/10-first.toml"]));
    assert_eq!(sorted, strings(&["d/", "d/10-first", "d/10-first.toml", "d/20-second", "d/3", "d/Z", "d/a"]));
}

#[test]
fn sorting_agrees_with_the_order_of_strings() {
    let paths = strings(&["b", "", "ab", "a", "é", "z", "aa", "B", "a", "~", "Z", "10", "9"]);
    let mut expected = paths.clone();
    expected.sort();
    assert_eq!(sort_paths(paths), expected);
    assert_eq!(sort_paths(vec![]), Vec::<String>::new());
}

#[test]
fn missing_directory_is_to_be_created() {
    assert_eq!(ensure_topgrade_d(None), (vec![], true));
}

#[test]
fn files_of_the_directory_are_put_in_order() {
    assert_eq!(
        ensure_topgrade_d(Some(strings(&["d/b.toml", "d/a.toml"]))),
        (strings(&["d/a.toml", "d/b.toml"]), false)
    );
    assert_eq!(ensure_topgrade_d(Some(vec![])), (vec![], false));
}

#[test]
fn first_existing_candidate_is_the_primary_fragment() {
    let sources = ensure(candidates(true, true), vec![]);
    assert_eq!(sources.primary, "/cfg/topgrade.toml");
    assert!(!sources.write_default);
    let sources = ensure(candidates(false, true), strings(&["d/a.toml"]));
    assert_eq!(sources.primary, "/cfg/topgrade/topgrade.toml");
    assert!(!sources.write_default);
    assert_eq!(sources.additional, strings(&["d/a.toml"]));
}

#[test]
fn default_is_written_where_nothing_exists() {
    let sources = ensure(candidates(false, false), vec![]);
    assert_eq!(sources.primary, "/cfg/topgrade.toml");
    assert!(sources.write_default);
    assert!(sources.additional.is_empty());
}

#[test]
fn additional_fragments_alone_need_no_primary_one() {
    let sources = ensure(candidates(false, false), strings(&["d/a.toml"]));
    assert_eq!(sources.primary, "");
    assert!(!sources.write_default);
    assert_eq!(sources.additional, strings(&["d/a.toml"]));
}

#[test]
fn without_candidates_there_is_nothing_to_write() {
    let sources = ensure(vec![], vec![]);
    assert_eq!(sources.primary, "");
    assert!(!sources.write_default);
}

#[test]
fn default_fragment_is_a_valid_document() {
    let table: toml::Table = DEFAULT_FRAGMENT.parse().unwrap();
    let sections: Vec<&String> = table.keys().collect();
    assert_eq!(sections, vec!["git", "misc"]);
    assert!(table["misc"].as_table().unwrap().is_empty());
    // It needs no migration and is one slice.
    let mut contents = DEFAULT_FRAGMENT.to_string();
    assert!(!ensure_misc_is_present(&mut contents));
    assert_eq!(slices(DEFAULT_FRAGMENT), Some(vec![DEFAULT_FRAGMENT.to_string()]));
}
