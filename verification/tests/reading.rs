use topgrade_config::sources::ensure_topgrade_d;
use topgrade_config::{ConfigFile, Git, Misc, Phase, ReadError, Reader, Reply, Request};

/// Files, and what parsing makes of their texts, held in memory.
struct Disk {
    files: Vec<(String, String)>,
    /// The include paths of a text; a text that is not listed is no valid
    /// document.
    paths: Vec<(String, Vec<String>)>,
    /// The branch that a text sets; a text that is not listed is no valid
    /// fragment.
    branches: Vec<(String, Option<String>)>,
    written: Vec<(String, String)>,
    requests: Vec<String>,
}

impl Disk {
    fn new() -> Disk {
        Disk { files: vec![], paths: vec![], branches: vec![], written: vec![], requests: vec![] }
    }

    /// A file whose text sets the branch, if one is given, and lists the
    /// include paths.
    fn file(&mut self, path: &str, text: &str, branch: Option<&str>, paths: &[&str]) {
        self.files.push((path.to_string(), text.to_string()));
        self.text(text, branch, paths);
    }

    fn text(&mut self, text: &str, branch: Option<&str>, paths: &[&str]) {
        self.paths.push((text.to_string(), paths.iter().map(|p| p.to_string()).collect()));
        self.branches.push((text.to_string(), branch.map(|b| b.to_string())));
    }

    fn read(&self, path: &str) -> Option<String> {
        self.files.iter().find(|(p, _)| p == path).map(|(_, text)| text.clone())
    }

    fn parse(&self, text: &str) -> Option<ConfigFile> {
        let branch = self.branches.iter().find(|(t, _)| t == text)?.1.clone();
        let mut record = ConfigFile::default();
        record.misc = Some(Misc { bashit_branch: branch, ..Misc::default() });
        Some(record)
    }

    fn parse_paths(&self, text: &str) -> Option<Vec<String>> {
        self.paths.iter().find(|(t, _)| t == text).map(|(_, paths)| paths.clone())
    }
}

fn drive(mut reader: Reader, disk: &mut Disk) -> Option<Result<ConfigFile, ReadError>> {
    loop {
        let reply = match reader.request() {
            Request::Finished => return reader.outcome(),
            Request::Load { path } => {
                disk.requests.push(format!("load {}", path));
                Reply::Fragment(disk.read(&path).and_then(|text| disk.parse(&text)))
            }
            Request::Read { path } => {
                disk.requests.push(format!("read {}", path));
                Reply::Text(disk.read(&path))
            }
            Request::Write { path, contents } => {
                disk.requests.push(format!("write {}", path));
                disk.written.push((path, contents));
                Reply::Written
            }
            Request::ParsePaths { text } => Reply::Paths(disk.parse_paths(&text)),
            Request::Parse { text } => Reply::Fragment(disk.parse(&text)),
        };
        reader = reader.advance(reply);
    }
}

fn branch(outcome: Option<Result<ConfigFile, ReadError>>) -> Option<String> {
    outcome.unwrap().unwrap().misc.and_then(|misc| misc.bashit_branch)
}

const F: &str = "[misc]\nbashit_branch = \"f\"\n[include]\npaths = [\"/a\", \"/b\"]\n";
const F_HEAD: &str = "[misc]\nbashit_branch = \"f\"\n";
const F_TAIL: &str = "[include]\npaths = [\"/a\", \"/b\"]\n";
const SILENT: &str = "[misc]\n[include]\npaths = [\"/a\", \"/b\"]\n";
const SILENT_HEAD: &str = "[misc]\n";

fn disk_with_includes(a: Option<&str>, b: Option<&str>) -> Disk {
    let mut disk = Disk::new();
    disk.file("/a", "[misc]\n# a", a, &[]);
    disk.file("/b", "[misc]\n# b", b, &[]);
    disk.text(F_HEAD, Some("f"), &[]);
    disk.text(SILENT_HEAD, None, &[]);
    disk.text(F_TAIL, None, &["/a", "/b"]);
    disk
}

#[test]
fn fragment_wins_over_what_it_includes() {
    let mut disk = Disk::new();
    disk.file("/a", "[misc]\n# a", Some("a"), &[]);
    disk.file("/b", "[misc]\n# b", Some("b"), &[]);
    // The include table opens the text: the slice in front of it is empty.
    disk.file("/f", "[include]\npaths = [\"/a\", \"/b\"]\n[misc]\nbashit_branch = \"f\"\n", Some("f"), &["/a", "/b"]);
    disk.text("", None, &[]);
    let outcome = drive(Reader::new("/f".to_string(), vec![]), &mut disk);
    assert_eq!(branch(outcome).as_deref(), Some("f"));
    assert_eq!(disk.requests, vec!["read /f", "load /b", "load /a"]);
    assert!(disk.written.is_empty());
}

#[test]
fn earlier_include_wins_over_later_one() {
    let mut disk = disk_with_includes(Some("a"), Some("b"));
    disk.files.push(("/f".to_string(), SILENT.to_string()));
    let outcome = drive(Reader::new("/f".to_string(), vec![]), &mut disk);
    assert_eq!(branch(outcome).as_deref(), Some("a"));
    assert_eq!(disk.requests, vec!["read /f", "load /b", "load /a"]);
}

#[test]
fn later_include_counts_where_nothing_else_speaks() {
    let mut disk = disk_with_includes(None, Some("b"));
    disk.files.push(("/f".to_string(), SILENT.to_string()));
    let outcome = drive(Reader::new("/f".to_string(), vec![]), &mut disk);
    assert_eq!(branch(outcome).as_deref(), Some("b"));
}

#[test]
fn includes_win_over_the_slices_before_them() {
    // The first slice sets the field, the second one only includes.
    let mut disk = disk_with_includes(Some("a"), Some("b"));
    disk.files.push(("/f".to_string(), F.to_string()));
    let outcome = drive(Reader::new("/f".to_string(), vec![]), &mut disk);
    assert_eq!(branch(outcome).as_deref(), Some("a"));
}

#[test]
fn include_that_cannot_be_had_is_passed_over() {
    let mut disk = Disk::new();
    disk.file("/b", "[misc]\n# b", Some("b"), &[]);
    disk.file("/broken", "[misc", Some("broken"), &[]);
    disk.branches.retain(|(text, _)| text != "[misc");
    disk.text(SILENT_HEAD, None, &[]);
    disk.text("[include]\npaths = [\"/missing\", \"/broken\", \"/b\"]\n", None, &["/missing", "/broken", "/b"]);
    disk.files.push(("/f".to_string(), "[misc]\n[include]\npaths = [\"/missing\", \"/broken\", \"/b\"]\n".to_string()));
    let outcome = drive(Reader::new("/f".to_string(), vec![]), &mut disk);
    assert_eq!(branch(outcome).as_deref(), Some("b"));
    assert_eq!(disk.requests, vec!["read /f", "load /b", "load /broken", "load /missing"]);
}

#[test]
fn later_additional_fragment_wins() {
    let mut disk = Disk::new();
    disk.file("/d/10-first", "[misc]\nbashit_branch = \"one\"\n", Some("one"), &[]);
    disk.file("/d/20-second", "[misc]\nbashit_branch = \"two\"\n", Some("two"), &[]);
    let (additional, create) =
        ensure_topgrade_d(Some(vec!["/d/20-second".to_string(), "/d/10-first".to_string()]));
    assert!(!create);
    let outcome = drive(Reader::new(String::new(), additional), &mut disk);
    assert_eq!(branch(outcome).as_deref(), Some("two"));
    assert_eq!(disk.requests, vec!["load /d/10-first", "load /d/20-second"]);
}

#[test]
fn primary_fragment_wins_over_additional_ones() {
    let mut disk = Disk::new();
    disk.file("/d/10-first", "[misc]\n# one", Some("one"), &[]);
    disk.file("/primary", "[misc]\n# primary", Some("primary"), &[]);
    let outcome = drive(Reader::new("/primary".to_string(), vec!["/d/10-first".to_string()]), &mut disk);
    assert_eq!(branch(outcome).as_deref(), Some("primary"));
    assert_eq!(disk.requests, vec!["load /d/10-first", "read /primary"]);
}

#[test]
fn additional_fragment_that_cannot_be_had_is_passed_over() {
    let mut disk = Disk::new();
    disk.file("/d/10-first", "[misc]\n# one", Some("one"), &[]);
    disk.file("/d/30-third", "[misc]\n# three", None, &[]);
    let additional = vec!["/d/10-first".to_string(), "/d/20-missing".to_string(), "/d/30-third".to_string()];
    let outcome = drive(Reader::new(String::new(), additional), &mut disk);
    assert_eq!(branch(outcome).as_deref(), Some("one"));
    assert_eq!(disk.requests, vec!["load /d/10-first", "load /d/20-missing", "load /d/30-third"]);
}

#[test]
fn fragment_without_marker_is_written_back_once() {
    let mut disk = Disk::new();
    disk.files.push(("/f".to_string(), "[git]\n".to_string()));
    disk.text("[misc]\n[git]\n", Some("migrated"), &[]);
    let outcome = drive(Reader::new("/f".to_string(), vec![]), &mut disk);
    assert_eq!(branch(outcome).as_deref(), Some("migrated"));
    assert_eq!(disk.written, vec![("/f".to_string(), "[misc]\n[git]\n".to_string())]);
    assert_eq!(disk.requests, vec!["read /f", "write /f"]);
    // The corrected file is loaded again: nothing is written.
    let mut corrected = Disk::new();
    corrected.file("/f", "[misc]\n[git]\n", Some("migrated"), &[]);
    let outcome = drive(Reader::new("/f".to_string(), vec![]), &mut corrected);
    assert_eq!(branch(outcome).as_deref(), Some("migrated"));
    assert!(corrected.written.is_empty());
    assert_eq!(corrected.requests, vec!["read /f"]);
}

#[test]
fn unreadable_primary_fragment_fails_the_reading() {
    let mut disk = Disk::new();
    disk.file("/d/10-first", "[misc]\n# one", Some("one"), &[]);
    let outcome = drive(Reader::new("/missing".to_string(), vec!["/d/10-first".to_string()]), &mut disk);
    assert_eq!(outcome.unwrap().unwrap_err(), ReadError::Unreadable);
}

#[test]
fn slice_that_is_no_document_fails_the_reading() {
    let mut disk = Disk::new();
    disk.files.push(("/f".to_string(), "[misc]\n= = =\n".to_string()));
    let outcome = drive(Reader::new("/f".to_string(), vec![]), &mut disk);
    assert_eq!(outcome.unwrap().unwrap_err(), ReadError::Malformed);
}

#[test]
fn slice_that_is_no_fragment_contributes_nothing() {
    // The text is a valid document, with an unknown field: its includes are
    // loaded, its own fields are not.
    let mut disk = Disk::new();
    disk.file("/a", "[misc]\n# a", Some("a"), &[]);
    disk.files.push(("/f".to_string(), "[misc]\nunknown = 1\n[include]\npaths = [\"/a\"]\nnope = 2\n".to_string()));
    disk.paths.push(("[misc]\nunknown = 1\n".to_string(), vec![]));
    disk.paths.push(("[include]\npaths = [\"/a\"]\nnope = 2\n".to_string(), vec!["/a".to_string()]));
    let outcome = drive(Reader::new("/f".to_string(), vec![]), &mut disk);
    assert_eq!(branch(outcome).as_deref(), Some("a"));
}

#[test]
fn no_fragment_at_all_gives_the_empty_record() {
    let mut disk = Disk::new();
    let reader = Reader::new(String::new(), vec![]);
    assert!(matches!(reader.request(), Request::Finished));
    let record = drive(reader, &mut disk).unwrap().unwrap();
    assert!(record.misc.is_none());
    assert!(disk.requests.is_empty());
}

#[test]
fn reader_has_no_outcome_before_the_end() {
    let reader = Reader::new("/f".to_string(), vec![]);
    assert!(matches!(reader.request(), Request::Read { path } if path == "/f"));
    assert!(reader.outcome().is_none());
}

#[test]
fn reply_to_another_request_is_ignored() {
    let reader = Reader::new("/f".to_string(), vec![]);
    let reader = reader.advance(Reply::Written);
    assert!(matches!(reader.request(), Request::Read { path } if path == "/f"));
    let reader = reader.advance(Reply::Paths(Some(vec![])));
    assert!(matches!(reader.request(), Request::Read { path } if path == "/f"));
    let reader = reader.advance(Reply::Text(None));
    assert!(matches!(reader.request(), Request::Finished));
    let reader = reader.advance(Reply::Text(Some("[misc]".to_string())));
    assert_eq!(reader.outcome().unwrap().unwrap_err(), ReadError::Unreadable);
}

#[test]
fn repositories_are_expanded_at_the_end() {
    let home = shellexpand::tilde("~").into_owned();
    let reader = Reader::new("/f".to_string(), vec![]);
    let reader = reader.advance(Reply::Text(Some("[misc]\n[git]\n".to_string())));
    assert!(matches!(reader.request(), Request::ParsePaths { text } if text == "[misc]\n[git]\n"));
    let reader = reader.advance(Reply::Paths(Some(vec![])));
    assert!(matches!(reader.request(), Request::Parse { text } if text == "[misc]\n[git]\n"));
    let mut record = ConfigFile::default();
    record.git = Some(Git { repos: Some(vec!["~/src/*".to_string(), "/opt/x".to_string()]), ..Git::default() });
    let reader = reader.advance(Reply::Fragment(Some(record)));
    let record = reader.outcome().unwrap().unwrap();
    assert_eq!(record.git.unwrap().repos, Some(vec![format!("{}/src/*", home), "/opt/x".to_string()]));
}

#[test]
fn include_paths_are_expanded() {
    let home = shellexpand::tilde("~").into_owned();
    let reader = Reader::new("/f".to_string(), vec![]);
    let reader = reader.advance(Reply::Text(Some("[misc]\n".to_string())));
    let reader = reader.advance(Reply::Paths(Some(vec!["~/a.toml".to_string()])));
    let expected = format!("{}/a.toml", home);
    assert!(matches!(reader.request(), Request::Load { path } if path == expected));
}

#[test]
fn phases_can_be_told_apart() {
    assert_ne!(Phase::Primary, Phase::Persist);
    assert_eq!(Phase::Directory(1), Phase::Directory(1));
    assert_ne!(Phase::Failed(ReadError::Unreadable), Phase::Failed(ReadError::Marker));
}
