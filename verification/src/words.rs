//! Extra arguments, written as one string and handed on as words.

use crate::strategy::lines;
use shell_words::ParseError;
use vstd::prelude::*;

verus! {

#[verifier::external_type_specification]
#[verifier::external_body]
pub struct ExParseError(ParseError);

/// The words of a line by the quoting rules of a shell, or nothing where a
/// quote is left open.
pub uninterp spec fn split_words(line: Seq<char>) -> Option<Seq<Seq<char>>>;

/// What splitting a line gives.
pub type Split = Result<Vec<String>, ParseError>;

/// The words that splitting gave, if it gave any.
pub open spec fn found(words: Split) -> Option<Seq<Seq<char>>> {
    match words {
        Ok(list) => Some(lines(list@)),
        Err(_) => None,
    }
}

/// `shell_words::split`.
///
/// Trusted: the result is a function of the line alone, and it is an error
/// exactly where there are no words. An empty line has no word.
#[verifier::external_body]
fn split(line: &str) -> (words: Split)
    ensures
        found(words) == split_words(line@),
        line@.len() == 0 ==> found(words) == Some(Seq::<Seq<char>>::empty()),
{
    shell_words::split(line)
}

/// A field of extra arguments whose value is no list of words.
#[derive(Debug)]
pub struct MalformedArguments {
    /// The name of the field.
    pub field: String,
    /// The value as it was written.
    pub value: String,
}

impl MalformedArguments {
    /// The error in words.
    pub open spec fn spec_message(self) -> Seq<char> {
        "Failed to parse `"@ + self.field@ + "`: `"@ + self.value@ + "`: missing closing quote"@
    }

    /// The error in words.
    pub fn message(&self) -> (message: String)
        ensures
            message@ == self.spec_message(),
    {
        let mut message = "Failed to parse `".to_owned();
        message.append(self.field.as_str());
        message.append("`: `");
        message.append(self.value.as_str());
        message.append("`: missing closing quote");
        message
    }
}

/// What the words of a field are, once the line was split: the words, or the
/// error that names the field and holds its value.
pub fn attributed(field: &str, value: &str, words: Split) -> (outcome: Result<Vec<String>, MalformedArguments>)
    ensures
        match words {
            Ok(list) => outcome == Ok::<Vec<String>, MalformedArguments>(list),
            Err(_) => outcome matches Err(error) && error.field@ == field@ && error.value@ == value@,
        },
{
    match words {
        Ok(list) => Ok(list),
        Err(_) => Err(MalformedArguments { field: field.to_owned(), value: value.to_owned() }),
    }
}

/// The words of the value of a field.
pub fn tokenize(field: &str, value: &str) -> (outcome: Result<Vec<String>, MalformedArguments>)
    ensures
        match outcome {
            Ok(list) => split_words(value@) == Some(lines(list@)),
            Err(error) => split_words(value@) is None && error.field@ == field@ && error.value@ == value@,
        },
        value@.len() == 0 ==> outcome is Ok,
{
    attributed(field, value, split(value))
}

} // verus!
