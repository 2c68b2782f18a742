//! Tables of named commands.
//!
//! A table keeps its commands in the order in which they were written. It is
//! merged as a section whose fields are the names: the incoming command of a
//! name takes the place of the old one, and a new name goes to the end.

use indexmap::IndexMap;
use vstd::prelude::*;

verus! {

/// Named shell commands, in the order in which they were written.
pub type Commands = IndexMap<String, String>;

#[verifier::external_type_specification]
#[verifier::external_body]
#[verifier::reject_recursive_types(K)]
#[verifier::reject_recursive_types(V)]
#[verifier::reject_recursive_types(S)]
pub struct ExIndexMap<K, V, S>(IndexMap<K, V, S>);

/// The commands of a table in its order, each as its name and its command line.
pub uninterp spec fn entries(table: IndexMap<String, String>) -> Seq<(Seq<char>, Seq<char>)>;

/// The commands of an optional table.
pub open spec fn table(value: Option<Commands>) -> Option<Seq<(Seq<char>, Seq<char>)>> {
    match value {
        Some(t) => Some(entries(t)),
        None => None,
    }
}

/// The position of the first command called `name`, or the length of the
/// table if there is none.
pub open spec fn position(table: Seq<(Seq<char>, Seq<char>)>, name: Seq<char>) -> int
    decreases table.len(),
{
    if table.len() == 0 || table[0].0 == name {
        0
    } else {
        1 + position(table.drop_first(), name)
    }
}

/// The table after one command was put in: in the place of the command of
/// that name, or at the end if the name is new.
pub open spec fn inserted(table: Seq<(Seq<char>, Seq<char>)>, name: Seq<char>, command: Seq<char>) -> Seq<
    (Seq<char>, Seq<char>),
> {
    let at = position(table, name);
    if at < table.len() {
        table.update(at, (name, command))
    } else {
        table.push((name, command))
    }
}

/// The table after the commands of `incoming` were put in, one by one and in
/// their order.
pub open spec fn extended(table: Seq<(Seq<char>, Seq<char>)>, incoming: Seq<(Seq<char>, Seq<char>)>) -> Seq<
    (Seq<char>, Seq<char>),
>
    decreases incoming.len(),
{
    if incoming.len() == 0 {
        table
    } else {
        extended(inserted(table, incoming[0].0, incoming[0].1), incoming.drop_first())
    }
}

/// How two optional tables are merged: where both are there, the old one
/// extended by the incoming one, else the one that is there.
pub open spec fn merged_tables(
    existing: Option<Seq<(Seq<char>, Seq<char>)>>,
    incoming: Option<Seq<(Seq<char>, Seq<char>)>>,
) -> Option<Seq<(Seq<char>, Seq<char>)>> {
    match (existing, incoming) {
        (Some(old), Some(new)) => Some(extended(old, new)),
        (Some(_), None) => existing,
        (None, _) => incoming,
    }
}

/// `IndexMap::extend`, with another table as the source of the pairs.
///
/// Trusted: the pairs of `incoming` are inserted in their order; a pair whose
/// key the table holds gets the new value and keeps its place, and a new key
/// goes to the end.
#[verifier::external_body]
fn extend(existing: &mut Commands, incoming: Commands)
    ensures
        entries(*final(existing)) == extended(entries(*old(existing)), entries(incoming)),
{
    existing.extend(incoming);
}

/// Merges an incoming table into the accumulated one.
pub fn merge_commands(existing: &mut Option<Commands>, incoming: Option<Commands>)
    ensures
        table(*final(existing)) == merged_tables(table(*old(existing)), table(incoming)),
{
    match incoming {
        Some(new) => {
            match existing {
                Some(current) => {
                    extend(current, new);
                },
                None => {
                    *existing = Some(new);
                },
            }
        },
        None => {},
    }
}

} // verus!
