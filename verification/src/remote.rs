//! Whether a run goes on to a remote host.

use regex::Regex;
use vstd::prelude::*;

verus! {

/// Whether an expression matches somewhere in a text, or nothing where the
/// expression is not a valid one.
pub uninterp spec fn pattern_matches(expression: Seq<char>, text: Seq<char>) -> Option<bool>;

/// `Regex::new`, then `Regex::is_match` on the expression.
///
/// Trusted: the result is a function of the expression and the text alone.
#[verifier::external_body]
fn is_match(expression: &str, text: &str) -> (matched: Option<bool>)
    ensures
        matched == pattern_matches(expression@, text@),
{
    match Regex::new(expression) {
        Ok(compiled) => Some(compiled.is_match(text)),
        Err(_) => None,
    }
}

/// The position of the first `@` of a remote, or its length where it has
/// none.
pub open spec fn user_end(remote: Seq<char>) -> int
    decreases remote.len(),
{
    if remote.len() == 0 || remote[0] == '@' {
        0
    } else {
        1 + user_end(remote.drop_first())
    }
}

/// The host of a remote: what follows the first `@`, or all of it where it
/// names no user.
pub open spec fn host_of(remote: Seq<char>) -> Seq<char> {
    if user_end(remote) < remote.len() {
        remote.skip(user_end(remote) + 1)
    } else {
        remote
    }
}

/// Whether the run goes on to a host. It does not go to the host that it is
/// on. Of the others it goes to those that the limit admits, which is all where
/// there is no limit; a limit that is no valid expression admits none.
pub open spec fn admitted(same_host: bool, limit: Option<Option<bool>>) -> bool {
    if same_host {
        false
    } else {
        match limit {
            Some(Some(matched)) => matched,
            Some(None) => false,
            None => true,
        }
    }
}

/// The host of a remote.
pub fn remote_host(remote: &str) -> (host: &str)
    ensures
        host@ == host_of(remote@),
{
    let characters = crate::fragment::characters(remote);
    let mut at: usize = 0;
    proof {
        assert(remote@.skip(0) =~= remote@);
    }
    while at < characters.len() && characters[at] != '@'
        invariant
            at <= characters.len(),
            characters@ == remote@,
            user_end(remote@) == at + user_end(remote@.skip(at as int)),
        decreases characters.len() - at,
    {
        proof {
            assert(remote@.skip(at as int).drop_first() =~= remote@.skip(at + 1));
        }
        at += 1;
    }
    if at < characters.len() {
        proof {
            assert(remote@.skip(at + 1) =~= remote@.subrange(at + 1, remote@.len() as int));
        }
        remote.substring_char(at + 1, characters.len())
    } else {
        remote
    }
}

/// Whether the run goes on to a host, given whether it is the host that the
/// run is on and what the limit says of it.
pub fn decide(same_host: bool, limit: Option<Option<bool>>) -> (run: bool)
    ensures
        run == admitted(same_host, limit),
{
    if same_host {
        return false;
    }
    match limit {
        Some(Some(matched)) => matched,
        Some(None) => false,
        None => true,
    }
}

/// Whether the run goes on to `remote`, where `hostname` is the name of the
/// host that the run is on, if it is known, and `limit` the expression that
/// restricts the hosts, if there is one.
pub fn should_execute(hostname: Option<&str>, remote: &str, limit: Option<&str>) -> (run: bool)
    ensures
        run == admitted(
            hostname matches Some(name) && name@ == host_of(remote@),
            match limit {
                Some(expression) => Some(pattern_matches(expression@, host_of(remote@))),
                None => None,
            },
        ),
{
    let host = remote_host(remote);
    let same_host = match hostname {
        Some(name) => name.to_owned() == host.to_owned(),
        None => false,
    };
    if same_host {
        return false;
    }
    let limit = match limit {
        Some(expression) => Some(is_match(expression, host)),
        None => None,
    };
    decide(same_host, limit)
}

} // verus!
