//! The handful of HTTP status codes this library knows, and the partial map
//! from numeric codes to them.

use vstd::prelude::*;

verus! {

/// An HTTP status this library recognises.
#[derive(Debug, PartialEq, Eq, Structural)]
pub enum HttpStatus {
    Okay,
    NotModified,
    NotFound,
}

/// Maps a numeric code to the status it names: exactly 200, 304 and 404 are
/// recognised; every other code yields nothing.
pub fn http_status_from_u32(n: u32) -> (r: Option<HttpStatus>)
    ensures
        r == (if n == 200 {
            Some(HttpStatus::Okay)
        } else if n == 304 {
            Some(HttpStatus::NotModified)
        } else if n == 404 {
            Some(HttpStatus::NotFound)
        } else {
            None
        }),
{
    match n {
        200 => Some(HttpStatus::Okay),
        304 => Some(HttpStatus::NotModified),
        404 => Some(HttpStatus::NotFound),
        _ => None,
    }
}

} // verus!
