//! The query and command surface: what a caller may ask of the state and
//! what it gets back. Transport and encoding are the caller's.

use vstd::prelude::*;
use crate::scheduler::{mode_named, plan, Allocation, PerformanceMode};
use crate::state::AppState;
use crate::telemetry::TelemetrySnapshot;

verus! {

/// A request to change the mode.
#[derive(Clone, Copy, Debug, PartialEq, Eq, Structural)]
pub struct ModeRequest {
    pub mode: PerformanceMode,
}

/// Why a request was turned down.
#[derive(Clone, Copy, Debug, PartialEq, Eq, Structural)]
pub enum RequestError {
    /// The request names no mode.
    UnknownMode,
}

/// The answer to a runtime query and to a mode change.
#[derive(Clone, Debug, PartialEq, Eq)]
pub struct RuntimeResponse {
    pub mode: PerformanceMode,
    pub allocation: Allocation,
    pub active_mission: Option<String>,
    pub session_xp: u64,
}

/// What a runtime query answers for `state`.
pub open spec fn response_of(state: AppState) -> RuntimeResponse {
    RuntimeResponse {
        mode: state.runtime.mode,
        allocation: state.runtime.allocation,
        active_mission: state.runtime.active_mission,
        session_xp: state.runtime.session_xp,
    }
}

impl ModeRequest {
    /// Reads a request from the name of the mode it asks for. A name that
    /// is none of the four is turned down here, before any state is touched.
    pub fn from_name(name: &str) -> (request: Result<ModeRequest, RequestError>)
        ensures
            request is Ok <==> mode_named(name@) is Some,
            request matches Ok(r) ==> mode_named(name@) == Some(r.mode),
            request matches Err(e) ==> e == RequestError::UnknownMode,
    {
        match PerformanceMode::from_name(name) {
            Some(mode) => Ok(ModeRequest { mode }),
            None => Err(RequestError::UnknownMode),
        }
    }
}

/// A copy of an optional text.
fn copy_of(text: &Option<String>) -> (copy: Option<String>)
    ensures
        copy == *text,
{
    match text {
        Some(t) => Some(t.clone()),
        None => None,
    }
}

/// The latest snapshot: a copy, never a view into the state.
pub fn get_telemetry(state: &AppState) -> (snapshot: TelemetrySnapshot)
    ensures
        snapshot == state.runtime.telemetry,
{
    state.telemetry()
}

/// Mode, allocation, mission and score as they stand: copies, never a
/// view into the state.
pub fn get_runtime(state: &AppState) -> (response: RuntimeResponse)
    ensures
        response == response_of(*state),
{
    RuntimeResponse {
        mode: state.runtime.mode,
        allocation: state.runtime.allocation,
        active_mission: copy_of(&state.runtime.active_mission),
        session_xp: state.runtime.session_xp,
    }
}

/// Carries out a mode change and answers with the state that it left.
/// The caller enforces `response.allocation`; a failure there does not
/// undo the change.
pub fn set_mode(state: &mut AppState, request: &ModeRequest) -> (response: RuntimeResponse)
    ensures
        *final(state) == old(state).after_set_mode(request.mode),
        response == response_of(*final(state)),
        response.mode == request.mode,
        response.allocation == plan(request.mode, old(state).config),
{
    state.set_mode(request.mode);
    get_runtime(state)
}

} // verus!
