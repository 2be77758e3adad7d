//! A plain message-carrying API error.

use vstd::prelude::*;

verus! {

/// An error carrying only a human-readable message.
#[derive(Debug)]
pub struct ApiError {
    message: String,
}

impl ApiError {
    /// The message the error carries, as a character sequence.
    pub closed spec fn message_spec(&self) -> Seq<char> {
        self.message@
    }

    /// An error with the given message.
    pub fn new(message: &str) -> (r: ApiError)
        ensures
            r.message_spec() == message@,
    {
        ApiError { message: message.to_owned() }
    }

    /// The message the error carries.
    pub fn message(&self) -> (r: &str)
        ensures
            r@ == self.message_spec(),
    {
        self.message.as_str()
    }
}

impl From<String> for ApiError {
    fn from(s: String) -> (r: ApiError) {
        ApiError { message: s }
    }
}

impl vstd::std_specs::convert::FromSpecImpl<String> for ApiError {
    open spec fn obeys_from_spec() -> bool {
        true
    }

    closed spec fn from_spec(s: String) -> ApiError {
        ApiError { message: s }
    }
}

/// What conversion from a `String` yields: an error whose message is
/// that string.
pub proof fn lemma_from_string_message(s: String)
    ensures
        (<ApiError as vstd::std_specs::convert::FromSpec<String>>::from_spec(
            s,
        )).message_spec() == s@,
{
}

} // verus!
