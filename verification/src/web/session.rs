//! The session of a browser.

use crate::web::error::WebError;
use vstd::prelude::*;

verus! {

/// What an accept makes of the next item of the browser's incoming streams:
/// the stream itself, or, where the browser says that no more will come, the
/// error `session closed`.
pub fn accepted<T>(next: Option<T>) -> (outcome: Result<T, WebError>)
    ensures
        match next {
            Some(stream) => outcome == Ok::<T, WebError>(stream),
            None => outcome matches Err(e) && e.text() == "session closed"@,
        },
{
    match next {
        Some(stream) => Ok(stream),
        None => Err(WebError::new(Some("session closed".to_string()), String::new())),
    }
}

} // verus!
