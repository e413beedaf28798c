//! The computing half of the HTTP layer: how an operation's outcome becomes
//! a status code and a response body.

use crate::store::MapError;
use vstd::prelude::*;

verus! {

/// The status and body with which a read answers: the value's bytes under
/// 200 when one was found, an empty body under 404 when none was.
pub fn get_response(result: Option<Vec<u8>>) -> (resp: (u16, Vec<u8>))
    ensures
        result matches Some(v) ==> resp.0 == 200 && resp.1@ == v@,
        result is None ==> resp.0 == 404 && resp.1@ == Seq::<u8>::empty(),
{
    match result {
        Some(value) => (200, value),
        None => (404, Vec::new()),
    }
}

/// The status and body with which a write or a delete answers: "OK" under
/// 202 on success, the failure's message under 500 otherwise.
pub fn write_response(result: Result<(), MapError>) -> (resp: (u16, String))
    ensures
        result is Ok ==> resp.0 == 202 && resp.1@ == "OK"@,
        result matches Err(e) ==> resp.0 == 500 && resp.1@ == e.message@,
{
    match result {
        Ok(()) => (202, "OK".to_owned()),
        Err(e) => (500, e.message),
    }
}

} // verus!
