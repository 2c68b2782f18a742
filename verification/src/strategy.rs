//! The strategies by which one field of an incoming fragment meets the value
//! that the accumulator already holds.
//!
//! There are four. `Replace`: the incoming value, where there is one, takes the
//! place of the old one. `PrependList`: the incoming list is put in front of the
//! old one. `AppendString`: the incoming string is put behind the old one, after
//! a delimiter. `Recurse`: the field is a section, merged field by field.

use vstd::prelude::*;

verus! {

/// The delimiter between the old and the incoming string of an appended field.
pub const DELIMITER: char = ' ';

/// The characters of an optional string.
pub open spec fn text(value: Option<String>) -> Option<Seq<char>> {
    match value {
        Some(s) => Some(s@),
        None => None,
    }
}

/// The elements of an optional list.
pub open spec fn items<T>(value: Option<Vec<T>>) -> Option<Seq<T>> {
    match value {
        Some(v) => Some(v@),
        None => None,
    }
}

/// The strings of a list, each by its characters.
pub open spec fn lines(list: Seq<String>) -> Seq<Seq<char>> {
    list.map_values(|s: String| s@)
}

/// The strings of an optional list, each by its characters.
pub open spec fn texts(value: Option<Vec<String>>) -> Option<Seq<Seq<char>>> {
    match value {
        Some(v) => Some(lines(v@)),
        None => None,
    }
}

/// `Replace`: the last writer wins, and an absent value changes nothing.
pub open spec fn replaced<T>(existing: Option<T>, incoming: Option<T>) -> Option<T> {
    if incoming.is_some() {
        incoming
    } else {
        existing
    }
}

/// `PrependList`: the incoming entries come first.
pub open spec fn prepended<T>(existing: Option<Seq<T>>, incoming: Option<Seq<T>>) -> Option<Seq<T>> {
    match (existing, incoming) {
        (Some(old), Some(new)) => Some(new + old),
        (Some(_), None) => existing,
        (None, _) => incoming,
    }
}

/// `AppendString`: the incoming string follows the old one and the delimiter.
pub open spec fn appended(existing: Option<Seq<char>>, incoming: Option<Seq<char>>) -> Option<Seq<char>> {
    match (existing, incoming) {
        (Some(old), Some(new)) => Some(old.push(DELIMITER) + new),
        (Some(_), None) => existing,
        (None, _) => incoming,
    }
}

/// The overlay of two optional sections: where both are there, the overlay of
/// the two, else the one that is there.
pub open spec fn overlaid_section<S: Merge>(existing: Option<S::V>, incoming: Option<S::V>) -> Option<S::V> {
    match (existing, incoming) {
        (Some(old), Some(new)) => Some(S::overlaid(old, new)),
        (Some(_), None) => existing,
        (None, _) => incoming,
    }
}

/// Whether an optional section sets no field but those merged by `Replace`.
pub open spec fn replace_only_section<S: Merge>(value: Option<S::V>) -> bool {
    match value {
        Some(s) => S::replace_only(s),
        None => true,
    }
}

/// `Recurse`: two sections are merged field by field; a side that is missing
/// counts as a section in which no field is set.
pub open spec fn recursed<S: Merge>(existing: Option<S::V>, incoming: Option<S::V>) -> Option<S::V> {
    match (existing, incoming) {
        (Some(old), Some(new)) => Some(S::merged(old, new)),
        (Some(_), None) => existing,
        (None, _) => incoming,
    }
}

/// What an optional section holds.
pub open spec fn section<S: View>(value: Option<S>) -> Option<S::V> {
    match value {
        Some(s) => Some(s@),
        None => None,
    }
}

/// A record that another record of its kind can be merged into.
pub trait Merge: View + Sized {
    /// What `existing` holds once `incoming` has been merged into it.
    spec fn merged(existing: Self::V, incoming: Self::V) -> Self::V;

    /// Whether the record sets no field but those merged by `Replace`.
    spec fn replace_only(record: Self::V) -> bool;

    /// The record that holds `incoming` wherever `incoming` sets a field, and
    /// `existing` elsewhere.
    spec fn overlaid(existing: Self::V, incoming: Self::V) -> Self::V;

    /// Merges `incoming` into this record, each field by its strategy.
    fn merge(&mut self, incoming: Self)
        ensures
            final(self)@ == Self::merged(old(self)@, incoming@),
    ;

    /// Where two records set only `Replace` fields, merging the second into the
    /// first gives the second wherever it sets a field, and the first elsewhere.
    proof fn law_replace_only(existing: Self::V, incoming: Self::V)
        requires
            Self::replace_only(existing),
            Self::replace_only(incoming),
        ensures
            Self::merged(existing, incoming) == Self::overlaid(existing, incoming),
    ;
}

/// Applies `Replace` to one field.
pub fn replace<T>(existing: &mut Option<T>, incoming: Option<T>)
    ensures
        *final(existing) == replaced(*old(existing), incoming),
{
    if incoming.is_some() {
        *existing = incoming;
    }
}

/// Applies `PrependList` to one field.
pub fn prepend_list<T>(existing: &mut Option<Vec<T>>, incoming: Option<Vec<T>>)
    ensures
        items(*final(existing)) == prepended(items(*old(existing)), items(incoming)),
{
    match incoming {
        Some(mut front) => {
            match existing {
                Some(back) => {
                    front.append(back);
                }
                None => {}
            }
            *existing = Some(front);
        }
        None => {}
    }
}

/// Applies `PrependList` to a field that holds strings.
pub fn prepend_strings(existing: &mut Option<Vec<String>>, incoming: Option<Vec<String>>)
    ensures
        texts(*final(existing)) == prepended(texts(*old(existing)), texts(incoming)),
{
    proof {
        assert forall|front: Seq<String>, back: Seq<String>| #[trigger]
            lines(front + back) == lines(front) + lines(back) by {
            assert(lines(front + back) =~= lines(front) + lines(back));
        }
    }
    prepend_list(existing, incoming);
}

/// Applies `AppendString` to one field.
pub fn append_string(existing: &mut Option<String>, incoming: Option<String>)
    ensures
        text(*final(existing)) == appended(text(*old(existing)), text(incoming)),
{
    match incoming {
        Some(tail) => {
            match existing {
                Some(head) => {
                    let mut joined = head.clone();
                    joined.append(" ");
                    joined.append(tail.as_str());
                    proof {
                        reveal_strlit(" ");
                        assert(" "@ =~= seq![DELIMITER]);
                        assert(head@ + seq![DELIMITER] =~= head@.push(DELIMITER));
                    }
                    *existing = Some(joined);
                }
                None => {
                    *existing = Some(tail);
                }
            }
        }
        None => {}
    }
}

/// Applies `Recurse` to one field.
pub fn recurse<S: Merge>(existing: &mut Option<S>, incoming: Option<S>)
    ensures
        section(*final(existing)) == recursed::<S>(section(*old(existing)), section(incoming)),
{
    match incoming {
        Some(new) => {
            match existing {
                Some(current) => {
                    current.merge(new);
                },
                None => {
                    *existing = Some(new);
                },
            }
        },
        None => {},
    }
}

} // verus!
