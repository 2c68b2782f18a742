use topgrade_config::fragment::{
    characters, ensure_misc_is_present, expand_all, slices, text_contains, INCLUDE_MARKER, LEGACY_HEADER,
    LEGACY_MARKER,
};
use topgrade_config::words::tokenize;

fn strings(list: &[&str]) -> Vec<String> {
    list.iter().map(|s| s.to_string()).collect()
}

#[test]
fn characters_of_a_string() {
    assert_eq!(characters(""), Vec::<char>::new());
    assert_eq!(characters("a[é"), vec!['a', '[', 'é']);
}

#[test]
fn contains_finds_a_pattern_anywhere() {
    assert!(text_contains("abc", ""));
    assert!(text_contains("", ""));
    assert!(!text_contains("", "a"));
    assert!(text_contains("abc", "abc"));
    assert!(text_contains("xxabc", "abc"));
    assert!(text_contains("abcxx", "abc"));
    assert!(!text_contains("ab", "abc"));
    assert!(!text_contains("abxc", "abc"));
    assert!(text_contains("aab", "ab"));
    assert!(text_contains("é[misc]", "[misc]"));
}

#[test]
fn fragment_without_marker_gains_it_once() {
    let mut contents = "[git]\nrepos = []\n".to_string();
    assert!(ensure_misc_is_present(&mut contents));
    assert_eq!(contents, "[misc]\n[git]\nrepos = []\n");
    assert_eq!(contents.matches(LEGACY_MARKER).count(), 1);
    // Loading the corrected fragment again changes nothing.
    assert!(!ensure_misc_is_present(&mut contents));
    assert_eq!(contents, "[misc]\n[git]\nrepos = []\n");
    assert_eq!(contents.matches(LEGACY_MARKER).count(), 1);
}

#[test]
fn fragment_with_marker_is_left_alone() {
    let mut contents = "# settings\n[git]\n[misc]\nassume_yes = true\n".to_string();
    assert!(!ensure_misc_is_present(&mut contents));
    assert_eq!(contents, "# settings\n[git]\n[misc]\nassume_yes = true\n");
}

#[test]
fn empty_fragment_gains_the_marker() {
    let mut contents = String::new();
    assert!(ensure_misc_is_present(&mut contents));
    assert_eq!(contents, LEGACY_HEADER);
    assert_eq!(LEGACY_HEADER, "[misc]\n");
}

#[test]
fn marker_counts_wherever_it_stands() {
    let mut contents = "note = \"see [misc]\"\n".to_string();
    assert!(!ensure_misc_is_present(&mut contents));
    assert_eq!(contents, "note = \"see [misc]\"\n");
}

#[test]
fn text_without_include_table_is_one_slice() {
    assert_eq!(slices("[misc]\nassume_yes = true\n"), Some(strings(&["[misc]\nassume_yes = true\n"])));
    assert_eq!(slices(""), Some(strings(&[""])));
}

#[test]
fn every_include_table_opens_a_slice() {
    let text = "[misc]\n[include]\npaths = [\"a\"]\n[git]\n  [include]\npaths = [\"b\"]\n";
    assert_eq!(
        slices(text),
        Some(strings(&["[misc]\n", "[include]\npaths = [\"a\"]\n[git]\n", "  [include]\npaths = [\"b\"]\n"]))
    );
}

#[test]
fn include_table_at_the_start_leaves_an_empty_first_slice() {
    let text = "[include]\npaths = []\n[misc]\n";
    assert_eq!(slices(text), Some(strings(&["", "[include]\npaths = []\n[misc]\n"])));
}

#[test]
fn include_table_counts_only_at_the_start_of_a_line() {
    let text = "[misc]\nnote = \"[include]\"\n";
    assert_eq!(slices(text), Some(strings(&[text])));
}

#[test]
fn slices_together_are_the_text() {
    let text = "a = 1\n\n\n[include]\n[include]\nb = 2\n\t[include]";
    let pieces = slices(text).unwrap();
    assert_eq!(pieces.concat(), text);
    assert_eq!(pieces.len(), 4);
    assert_eq!(INCLUDE_MARKER, "(?m)^\\s*\\[include]");
}

#[test]
fn paths_without_tilde_stay_as_they_are() {
    let paths = strings(&["/etc/fragment.toml", "relative/path", "", "a~", "~user/x", "~x"]);
    assert_eq!(expand_all(&paths), paths);
}

#[test]
fn tilde_gives_way_to_the_home_directory() {
    let home = shellexpand::tilde("~").into_owned();
    let expanded = expand_all(&strings(&["~/fragments/a.toml", "~"]));
    assert_eq!(expanded, vec![format!("{}/fragments/a.toml", home), home.clone()]);
    assert!(expanded[0].ends_with("/fragments/a.toml"));
    if home != "~" {
        assert_ne!(expanded[0], "~/fragments/a.toml");
    }
}

#[test]
fn words_follow_the_quoting_of_a_shell() {
    assert_eq!(tokenize("field", "-a 'b c' \"d e\" f\\ g").unwrap(), strings(&["-a", "b c", "d e", "f g"]));
    assert_eq!(tokenize("field", "").unwrap(), Vec::<String>::new());
    assert_eq!(tokenize("field", "   ").unwrap(), Vec::<String>::new());
    assert_eq!(tokenize("field", "one").unwrap(), strings(&["one"]));
}

#[test]
fn open_quote_is_an_error_of_the_field() {
    let error = tokenize("tmux_arguments", "'foo").unwrap_err();
    assert_eq!(error.field, "tmux_arguments");
    assert_eq!(error.value, "'foo");
    assert_eq!(error.message(), "Failed to parse `tmux_arguments`: `'foo`: missing closing quote");
    assert!(tokenize("ssh_arguments", "a \"b").is_err());
}
