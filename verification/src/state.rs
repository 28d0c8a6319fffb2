//! The runtime state store: the one aggregate that the control loop and
//! the mode-change handler write and that every query reads.
//!
//! The store is a plain value. Whoever shares it puts it behind a
//! reader/writer lock; each write below is one call on `&mut AppState`, so
//! a reader sees the state before the call or after it, never between.

use vstd::prelude::*;
use crate::config::Config;
use crate::scheduler::{allocation_for_mode, plan, Allocation, PerformanceMode};
use crate::telemetry::TelemetrySnapshot;

verus! {

/// The mode that the daemon starts in.
pub const INITIAL_MODE: PerformanceMode = PerformanceMode::Balanced;

/// What changes while the daemon runs.
#[derive(Clone, Debug, PartialEq, Eq)]
pub struct RuntimeState {
    pub mode: PerformanceMode,
    pub allocation: Allocation,
    /// The latest snapshot; each tick replaces it.
    pub telemetry: TelemetrySnapshot,
    pub active_mission: Option<String>,
    /// Grows with every tick and never falls; stays at its maximum once there.
    pub session_xp: u64,
}

/// The configuration together with the runtime state that it governs.
#[derive(Clone, Debug, PartialEq, Eq)]
pub struct AppState {
    pub config: Config,
    pub runtime: RuntimeState,
}

impl RuntimeState {
    /// The state at startup: the allocation that `mode` calls for, a first
    /// snapshot and no score yet.
    pub open spec fn initial_of(
        config: Config,
        mode: PerformanceMode,
        telemetry: TelemetrySnapshot,
        active_mission: Option<String>,
    ) -> RuntimeState {
        RuntimeState {
            mode,
            allocation: plan(mode, config),
            telemetry,
            active_mission,
            session_xp: 0,
        }
    }

    /// Builds the state at startup.
    pub fn initial(
        config: &Config,
        mode: PerformanceMode,
        telemetry: TelemetrySnapshot,
        active_mission: Option<String>,
    ) -> (runtime: RuntimeState)
        ensures
            runtime == RuntimeState::initial_of(*config, mode, telemetry, active_mission),
    {
        RuntimeState {
            mode,
            allocation: allocation_for_mode(mode, config),
            telemetry,
            active_mission,
            session_xp: 0,
        }
    }
}

impl AppState {
    /// The allocation in force is the one that the current mode calls for.
    pub open spec fn consistent(&self) -> bool {
        self.runtime.allocation == plan(self.runtime.mode, self.config)
    }

    /// The state after an explicit change to `mode`: mode and allocation
    /// are replaced together, everything else stays.
    pub open spec fn after_set_mode(self, mode: PerformanceMode) -> AppState {
        AppState {
            config: self.config,
            runtime: RuntimeState {
                mode,
                allocation: plan(mode, self.config),
                telemetry: self.runtime.telemetry,
                active_mission: self.runtime.active_mission,
                session_xp: self.runtime.session_xp,
            },
        }
    }

    /// Puts a configuration and a runtime state together.
    pub fn new(config: Config, runtime: RuntimeState) -> (state: AppState)
        ensures
            state.config == config,
            state.runtime == runtime,
            state.consistent() <==> runtime.allocation == plan(runtime.mode, config),
    {
        AppState { config, runtime }
    }

    /// The mode in force.
    pub fn mode(&self) -> (mode: PerformanceMode)
        ensures
            mode == self.runtime.mode,
    {
        self.runtime.mode
    }

    /// A copy of the latest snapshot.
    pub fn telemetry(&self) -> (snapshot: TelemetrySnapshot)
        ensures
            snapshot == self.runtime.telemetry,
    {
        self.runtime.telemetry
    }

    /// Changes the mode on request: plans the allocation for `mode` and
    /// puts both in force at once. Telemetry, mission and score stay as
    /// they are. Returns the new allocation, which the caller enforces.
    pub fn set_mode(&mut self, mode: PerformanceMode) -> (allocation: Allocation)
        ensures
            *final(self) == old(self).after_set_mode(mode),
            allocation == plan(mode, old(self).config),
            final(self).consistent(),
    {
        let allocation: Allocation = allocation_for_mode(mode, &self.config);
        self.runtime.mode = mode;
        self.runtime.allocation = allocation;
        allocation
    }
}

/// A state built at startup is consistent, and an explicit mode change
/// leaves a consistent state whatever it started from.
pub proof fn writes_establish_consistency(
    config: Config,
    mode: PerformanceMode,
    telemetry: TelemetrySnapshot,
    active_mission: Option<String>,
    before: AppState,
)
    ensures
        (AppState {
            config,
            runtime: RuntimeState::initial_of(config, mode, telemetry, active_mission),
        }).consistent(),
        before.after_set_mode(mode).consistent(),
{
}

} // verus!
