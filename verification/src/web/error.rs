//! The failure that a browser reports.

use crate::generic::ErrorCode;
use vstd::prelude::*;

verus! {

/// A value that the browser threw, kept as the text that describes it.
#[derive(Clone, Debug, PartialEq, Eq)]
pub struct WebError {
    message: String,
}

impl WebError {
    /// The text that describes the failure.
    pub closed spec fn text(self) -> Seq<char> {
        self.message@
    }

    /// The error for a thrown value, given the value as a string where it is
    /// one, and its debug form. A string describes itself; any other value is
    /// described by its debug form.
    pub fn new(as_string: Option<String>, debug: String) -> (e: WebError)
        ensures
            e.text() == match as_string {
                Some(s) => s@,
                None => debug@,
            },
    {
        match as_string {
            Some(s) => WebError { message: s },
            None => WebError { message: debug },
        }
    }

    /// The text that describes the failure.
    pub fn message(&self) -> (text: &String)
        ensures
            text@ == self.text(),
    {
        &self.message
    }
}

impl ErrorCode for WebError {
    /// The browser hands no error code over with a failure.
    fn code(&self) -> (code: Option<u32>)
        ensures
            code is None,
    {
        None
    }
}

} // verus!
