//! The text of a fragment, before it is parsed.

use crate::strategy::{lines, texts};
use regex::Regex;
use regex_split::RegexSplit;
use vstd::prelude::*;
use vstd::std_specs::iter::IteratorSpec;

verus! {

/// The head of the section that every fragment must hold.
pub const LEGACY_MARKER: &'static str = "[misc]";

/// The line that is put in front of a fragment that lacks the marker.
pub const LEGACY_HEADER: &'static str = "[misc]\n";

/// The expression that finds the head of an include table: at the start of a
/// line, after any white space.
pub const INCLUDE_MARKER: &'static str = "(?m)^\\s*\\[include]";

/// Whether `pattern` stands in `text` at position `at`.
pub open spec fn occurs_at(text: Seq<char>, pattern: Seq<char>, at: int) -> bool {
    &&& 0 <= at
    &&& at + pattern.len() <= text.len()
    &&& text.subrange(at, at + pattern.len()) == pattern
}

/// Whether `pattern` stands somewhere in `text`.
pub open spec fn contains(text: Seq<char>, pattern: Seq<char>) -> bool {
    exists|at: int| occurs_at(text, pattern, at)
}

/// The text of a fragment after the migration: a text that lacks the marker
/// gets the header in front, and nothing else is changed.
pub open spec fn migrated(text: Seq<char>) -> Seq<char> {
    if contains(text, LEGACY_MARKER@) {
        text
    } else {
        LEGACY_HEADER@ + text
    }
}

/// The characters of a string.
pub fn characters(text: &str) -> (list: Vec<char>)
    ensures
        list@ == text@,
{
    let mut list: Vec<char> = Vec::new();
    let mut rest = text.chars();
    loop
        invariant
            list@ + rest.remaining() == text@,
            rest.obeys_prophetic_iter_laws(),
            rest.decrease() is Some,
        ensures
            list@ == text@,
        decreases rest.decrease()->0,
    {
        let ghost before = rest.remaining();
        match rest.next() {
            Some(c) => {
                proof {
                    assert(list@.push(c) + before.drop_first() =~= list@ + before);
                }
                list.push(c);
            },
            None => {
                assert(list@ + Seq::<char>::empty() =~= list@);
                break;
            },
        }
    }
    list
}

/// Whether `pattern` stands in `text` at position `at`.
fn stands_at(text: &Vec<char>, pattern: &Vec<char>, at: usize) -> (found: bool)
    requires
        at + pattern.len() <= text.len(),
    ensures
        found == occurs_at(text@, pattern@, at as int),
{
    let mut matched: usize = 0;
    while matched < pattern.len()
        invariant
            matched <= pattern.len(),
            at + pattern.len() <= text.len(),
            forall|k: int| 0 <= k < matched ==> text@[at + k] == pattern@[k],
        decreases pattern.len() - matched,
    {
        if text[at + matched] != pattern[matched] {
            proof {
                assert(text@.subrange(at as int, at + pattern.len())[matched as int] != pattern@[matched as int]);
            }
            return false;
        }
        matched += 1;
    }
    proof {
        assert(text@.subrange(at as int, at + pattern.len()) =~= pattern@);
    }
    true
}

/// Whether `pattern` stands somewhere in `text`.
pub fn text_contains(text: &str, pattern: &str) -> (found: bool)
    ensures
        found == contains(text@, pattern@),
{
    let haystack = characters(text);
    let needle = characters(pattern);
    if needle.len() == 0 {
        proof {
            assert(text@.subrange(0, 0) =~= pattern@);
            assert(occurs_at(text@, pattern@, 0));
        }
        return true;
    }
    let mut at: usize = 0;
    while needle.len() <= haystack.len() - at
        invariant
            haystack@ == text@,
            needle@ == pattern@,
            0 < needle.len(),
            at <= haystack.len(),
            forall|k: int| 0 <= k < at ==> !occurs_at(text@, pattern@, k),
        decreases haystack.len() - at,
    {
        if stands_at(&haystack, &needle, at) {
            return true;
        }
        at += 1;
    }
    false
}

/// Puts the header in front of a fragment that lacks the marker, and tells
/// whether it did; the caller then writes the fragment back to its file.
pub fn ensure_misc_is_present(contents: &mut String) -> (changed: bool)
    ensures
        final(contents)@ == migrated(old(contents)@),
        changed == !contains(old(contents)@, LEGACY_MARKER@),
{
    if text_contains(contents.as_str(), LEGACY_MARKER) {
        false
    } else {
        let mut fresh = LEGACY_HEADER.to_owned();
        fresh.append(contents.as_str());
        *contents = fresh;
        true
    }
}

/// A fragment that lacks the marker holds it exactly once after the migration,
/// at its start, and a fragment that holds the marker is left as it is: so a
/// second migration changes nothing.
pub proof fn law_migration_once(text: Seq<char>)
    ensures
        contains(migrated(text), LEGACY_MARKER@),
        migrated(migrated(text)) == migrated(text),
        contains(text, LEGACY_MARKER@) ==> migrated(text) == text,
        !contains(text, LEGACY_MARKER@) ==> forall|at: int|
            occurs_at(migrated(text), LEGACY_MARKER@, at) <==> at == 0,
{
    reveal_strlit("[misc]");
    reveal_strlit("[misc]\n");
    let marker = LEGACY_MARKER@;
    let header = LEGACY_HEADER@;
    if !contains(text, marker) {
        let fresh = header + text;
        assert(fresh.subrange(0, 6) =~= marker);
        assert(occurs_at(fresh, marker, 0));
        assert forall|at: int| occurs_at(fresh, marker, at) implies at == 0 by {
            if at >= 7 {
                assert(text.subrange(at - 7, at - 7 + 6) =~= fresh.subrange(at, at + 6));
                assert(occurs_at(text, marker, at - 7));
            } else if at > 0 {
                assert(fresh.subrange(at, at + 6)[0] == fresh[at]);
                assert(fresh[at] == header[at]);
            }
        }
    }
}

/// The pieces into which an expression cuts a text: a cut stands where a match
/// of the expression begins, so that the match opens the piece that follows.
/// There is nothing where the expression is not a valid one.
pub uninterp spec fn left_split(expression: Seq<char>, text: Seq<char>) -> Option<Seq<Seq<char>>>;

/// `Regex::new`, then `RegexSplit::split_inclusive_left` on the expression.
///
/// Trusted: the result is a function of the expression and the text alone,
/// and is nothing only where the expression is refused. The pieces are taken
/// from the text one after the other and the last one runs to its end: there
/// is at least one, and together they are the text.
#[verifier::external_body]
fn split_inclusive_left(expression: &str, text: &str) -> (pieces: Option<Vec<String>>)
    ensures
        texts(pieces) == left_split(expression@, text@),
        pieces matches Some(list) ==> list@.len() > 0 && lines(list@).flatten() == text@,
{
    match Regex::new(expression) {
        Ok(compiled) => Some(compiled.split_inclusive_left(text).map(|piece| piece.to_owned()).collect()),
        Err(_) => None,
    }
}

/// Cuts the text of a fragment into slices, one for each include table: every
/// head of such a table opens a new slice, which runs to the next head or to
/// the end of the text.
pub fn slices(text: &str) -> (pieces: Option<Vec<String>>)
    ensures
        texts(pieces) == left_split(INCLUDE_MARKER@, text@),
        pieces matches Some(list) ==> list@.len() > 0 && lines(list@).flatten() == text@,
{
    split_inclusive_left(INCLUDE_MARKER, text)
}

/// Whether a path begins with the shorthand for the home directory: a tilde
/// that ends the path or that a separator follows.
pub open spec fn bears_tilde(path: Seq<char>) -> bool {
    &&& path.len() > 0
    &&& path[0] == '~'
    &&& (path.len() == 1 || path[1] == '/' || path[1] == '\\')
}

/// Whether `expanded` can be what the expansion of `path` gives. Without the
/// shorthand a path stays as it is. With it, what follows the tilde stays, and
/// the home directory, of which nothing is known, takes the place of the tilde;
/// where there is no home directory the tilde stays too.
pub open spec fn expands_to(path: Seq<char>, expanded: Seq<char>) -> bool {
    if bears_tilde(path) {
        &&& expanded.len() >= path.len() - 1
        &&& expanded.skip(expanded.len() - (path.len() - 1)) == path.skip(1)
    } else {
        expanded == path
    }
}

/// `shellexpand::tilde`.
///
/// Trusted: a path without the shorthand comes back unchanged, and of a path
/// with it the part behind the tilde comes back at the end of the result.
#[verifier::external_body]
fn tilde(path: &str) -> (expanded: String)
    ensures
        expands_to(path@, expanded@),
{
    shellexpand::tilde(path).into_owned()
}

/// Whether `expanded` can be what the expansion of each path of `paths` gives,
/// in the same order.
pub open spec fn all_expand_to(paths: Seq<Seq<char>>, expanded: Seq<Seq<char>>) -> bool {
    &&& expanded.len() == paths.len()
    &&& forall|i: int| 0 <= i < paths.len() ==> expands_to(paths[i], #[trigger] expanded[i])
}

/// Expands every path of a list.
pub fn expand_all(paths: &Vec<String>) -> (expanded: Vec<String>)
    ensures
        all_expand_to(lines(paths@), lines(expanded@)),
{
    let mut expanded: Vec<String> = Vec::new();
    let mut at: usize = 0;
    while at < paths.len()
        invariant
            at <= paths.len(),
            expanded@.len() == at,
            forall|i: int| 0 <= i < at ==> expands_to(paths@[i]@, #[trigger] expanded@[i]@),
        decreases paths.len() - at,
    {
        expanded.push(tilde(paths[at].as_str()));
        at += 1;
    }
    expanded
}

} // verus!
