//! The failure type that every store and the migration engine report.

use vstd::prelude::*;
use vstd::std_specs::convert::FromSpecImpl;

verus! {

/// A storage failure, carrying the diagnostic text of whatever went wrong.
#[derive(Debug)]
pub struct CommandError {
    pub message: String,
}

impl CommandError {
    /// A failure with the given diagnostic text.
    pub fn new(message: &str) -> (e: CommandError)
        ensures
            e.message@ == message@,
    {
        CommandError { message: message.to_string() }
    }
}

impl From<String> for CommandError {
    fn from(message: String) -> (e: CommandError) {
        CommandError { message }
    }
}

impl FromSpecImpl<String> for CommandError {
    open spec fn obeys_from_spec() -> bool {
        true
    }

    open spec fn from_spec(message: String) -> CommandError {
        CommandError { message }
    }
}

impl<'a> From<&'a str> for CommandError {
    fn from(message: &'a str) -> (e: CommandError)
        ensures
            e.message@ == message@,
    {
        CommandError { message: message.to_string() }
    }
}

impl<'a> FromSpecImpl<&'a str> for CommandError {
    open spec fn obeys_from_spec() -> bool {
        false
    }

    open spec fn from_spec(message: &'a str) -> CommandError {
        arbitrary()
    }
}

} // verus!
