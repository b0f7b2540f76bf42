//! Request ingress decisions: applying a parsed update to the shared state
//! and the structured error payloads of the synchronous channel.
//!
//! The embedding program owns the HTTP layer; it parses a request body into
//! a [`Color`] (or fails to) and hands the result here. The wire format
//! already matches the color model, so no normalization happens on this
//! path.

use vstd::prelude::*;

use crate::color::Color;
use crate::state::DeviceState;

verus! {

/// The structured payload returned with an error status: a status word and
/// a human-readable message.
pub struct ApiError {
    pub status: String,
    pub message: String,
}

/// The payload for a request whose body could not be read as a color.
pub fn malformed_request_error() -> (e: ApiError)
    ensures
        e.status@ == "error"@,
        e.message@ == "Malformed request"@,
{
    ApiError { status: "error".to_owned(), message: "Malformed request".to_owned() }
}

/// The payload for a request naming a route that does not exist.
pub fn resource_not_found_error() -> (e: ApiError)
    ensures
        e.status@ == "error"@,
        e.message@ == "Resource not found"@,
{
    ApiError { status: "error".to_owned(), message: "Resource not found".to_owned() }
}

/// What handling one synchronous update did.
#[derive(Clone, Copy, PartialEq, Eq, Structural, Debug)]
pub enum PutOutcome {
    /// The color was assigned and applied; answered with an empty success.
    Updated,
    /// The color was assigned but the driver failed; answered with a server
    /// error.
    DriverFailed,
    /// The body did not parse as a color; the state is untouched and the
    /// answer is a malformed-request error.
    MalformedBody,
}

/// Handles one synchronous update request: a body that parsed as a color is
/// assigned and applied as one serialized update; a body that did not parse
/// leaves the previous color assigned and applied.
pub fn handle_put_color(state: &mut DeviceState, body: Option<Color>) -> (r: PutOutcome)
    requires
        old(state).wf(),
    ensures
        final(state).wf(),
        final(state).is_attached() == old(state).is_attached(),
        final(state).initial_spec() == old(state).initial_spec(),
        match body {
            Some(c) => {
                &&& final(state).color_spec() == c
                &&& final(state).attempted_spec() == Some(c)
                &&& final(state).updates_spec() == old(state).updates_spec().push(c)
                &&& (r == PutOutcome::Updated || r == PutOutcome::DriverFailed)
                &&& (!old(state).is_attached() ==> r == PutOutcome::Updated)
            },
            None => *final(state) == *old(state) && r == PutOutcome::MalformedBody,
        },
{
    match body {
        Some(color) => match state.set(color) {
            Ok(_) => PutOutcome::Updated,
            Err(_) => PutOutcome::DriverFailed,
        },
        None => PutOutcome::MalformedBody,
    }
}

} // verus!
