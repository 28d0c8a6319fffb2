//! The decisions of the control loop: what one tick does to the state once
//! the telemetry for it has been sampled.
//!
//! The loop itself belongs to the caller: it reads the mode, samples,
//! calls `AppState::tick` with the snapshot, enforces the allocation that
//! comes back, and sleeps until the next tick.

use vstd::prelude::*;
use crate::config::Config;
use crate::scheduler::{allocation_for_mode, plan, Allocation, PerformanceMode};
use crate::state::{AppState, RuntimeState};
use crate::telemetry::TelemetrySnapshot;
use crate::units::Centi;

verus! {

/// What the caller has to do after a tick.
#[derive(Clone, Copy, Debug, PartialEq, Eq)]
pub enum TickAction {
    /// Nothing but to wait for the next tick.
    Idle,
    /// The thermal override engaged: enforce `allocation`, and warn that
    /// the GPU was seen at `gpu_temp_c` against a limit of `thermal_limit_c`.
    Throttle { allocation: Allocation, gpu_temp_c: Centi, thermal_limit_c: Centi },
}

/// One committed write to the state: a tick of the control loop or an
/// explicit mode change.
pub enum StoreWrite {
    Tick(TelemetrySnapshot),
    SetMode(PerformanceMode),
}

/// The thermal-safety rule: the override engages when the GPU is at or
/// above the limit, unless the mode is `Gaming`, which is exempt.
pub open spec fn needs_throttle(mode: PerformanceMode, gpu_temp_c: Centi, cfg: Config) -> bool {
    gpu_temp_c >= cfg.thermal_limit_c && mode != PerformanceMode::Gaming
}

/// What one tick adds to the score: a tenth of the impact score, rounded
/// to the nearest whole, and never less than one.
pub open spec fn score_gain(impact_score: Centi) -> int {
    let tenth = (impact_score + 500) / 1_000;
    if tenth >= 1 {
        tenth
    } else {
        1
    }
}

/// The score after a tick: the gain is added, and the sum stops at the
/// largest value that the counter holds.
pub open spec fn accrued(score: u64, impact_score: Centi) -> u64 {
    if score + score_gain(impact_score) > u64::MAX {
        u64::MAX
    } else {
        (score + score_gain(impact_score)) as u64
    }
}

impl AppState {
    /// The state after a tick that sampled `snapshot`.
    pub open spec fn after_tick(self, snapshot: TelemetrySnapshot) -> AppState {
        let throttle = needs_throttle(self.runtime.mode, snapshot.gpu_temp_c, self.config);
        AppState {
            config: self.config,
            runtime: RuntimeState {
                mode: if throttle {
                    PerformanceMode::Balanced
                } else {
                    self.runtime.mode
                },
                allocation: if throttle {
                    plan(PerformanceMode::Balanced, self.config)
                } else {
                    self.runtime.allocation
                },
                telemetry: snapshot,
                active_mission: self.runtime.active_mission,
                session_xp: accrued(self.runtime.session_xp, snapshot.impact_score),
            },
        }
    }

    /// The state after one write.
    pub open spec fn after_write(self, write: StoreWrite) -> AppState {
        match write {
            StoreWrite::Tick(snapshot) => self.after_tick(snapshot),
            StoreWrite::SetMode(mode) => self.after_set_mode(mode),
        }
    }

    /// The state after a history of writes, in the order in which they
    /// were committed. Writers are serialized, so every state that a
    /// reader can see is the state after some prefix of the history.
    pub open spec fn after_all(self, writes: Seq<StoreWrite>) -> AppState
        decreases writes.len(),
    {
        if writes.len() == 0 {
            self
        } else {
            self.after_all(writes.drop_last()).after_write(writes.last())
        }
    }

    /// What a tick that sampled `snapshot` asks of the caller.
    pub open spec fn tick_action(self, snapshot: TelemetrySnapshot) -> TickAction {
        if needs_throttle(self.runtime.mode, snapshot.gpu_temp_c, self.config) {
            TickAction::Throttle {
                allocation: plan(PerformanceMode::Balanced, self.config),
                gpu_temp_c: snapshot.gpu_temp_c,
                thermal_limit_c: self.config.thermal_limit_c,
            }
        } else {
            TickAction::Idle
        }
    }

    /// Commits one tick. The snapshot becomes the latest telemetry. Where
    /// the thermal rule asks for it, the mode is forced to `Balanced` and
    /// its allocation is put in force with it. The score grows by the
    /// tick's gain. All of it is one update of the state.
    pub fn tick(&mut self, snapshot: TelemetrySnapshot) -> (action: TickAction)
        ensures
            *final(self) == old(self).after_tick(snapshot),
            action == old(self).tick_action(snapshot),
            final(self).runtime.session_xp >= old(self).runtime.session_xp,
            old(self).consistent() ==> final(self).consistent(),
    {
        self.runtime.telemetry = snapshot;
        let throttle: bool = snapshot.gpu_temp_c >= self.config.thermal_limit_c && self.runtime.mode
            != PerformanceMode::Gaming;
        let action: TickAction = if throttle {
            let allocation: Allocation = allocation_for_mode(
                PerformanceMode::Balanced,
                &self.config,
            );
            self.runtime.mode = PerformanceMode::Balanced;
            self.runtime.allocation = allocation;
            TickAction::Throttle {
                allocation,
                gpu_temp_c: snapshot.gpu_temp_c,
                thermal_limit_c: self.config.thermal_limit_c,
            }
        } else {
            TickAction::Idle
        };
        self.runtime.session_xp = self.runtime.session_xp.saturating_add(
            gain_of(snapshot.impact_score),
        );
        action
    }
}

/// What a tick with this impact score adds to the session score.
pub fn gain_of(impact_score: Centi) -> (gain: u64)
    ensures
        gain == score_gain(impact_score),
        gain >= 1,
{
    if impact_score < 1_500 {
        1
    } else {
        let whole: i64 = impact_score / 1_000;
        let rest: i64 = impact_score % 1_000;
        if rest >= 500 {
            (whole + 1) as u64
        } else {
            whole as u64
        }
    }
}

/// The thermal rule, case by case. At or above the limit every mode but
/// `Gaming` is forced to `Balanced` and gets the allocation planned for
/// it; `Gaming` keeps mode and allocation; below the limit nothing but
/// telemetry and score changes.
pub proof fn thermal_rule(state: AppState, snapshot: TelemetrySnapshot)
    ensures
        snapshot.gpu_temp_c >= state.config.thermal_limit_c && state.runtime.mode
            != PerformanceMode::Gaming ==> {
            &&& state.after_tick(snapshot).runtime.mode == PerformanceMode::Balanced
            &&& state.after_tick(snapshot).runtime.allocation == plan(
                PerformanceMode::Balanced,
                state.config,
            )
            &&& state.tick_action(snapshot) == (TickAction::Throttle {
                allocation: plan(PerformanceMode::Balanced, state.config),
                gpu_temp_c: snapshot.gpu_temp_c,
                thermal_limit_c: state.config.thermal_limit_c,
            })
        },
        snapshot.gpu_temp_c < state.config.thermal_limit_c || state.runtime.mode
            == PerformanceMode::Gaming ==> {
            &&& state.after_tick(snapshot).runtime.mode == state.runtime.mode
            &&& state.after_tick(snapshot).runtime.allocation == state.runtime.allocation
            &&& state.tick_action(snapshot) == TickAction::Idle
        },
        state.after_tick(snapshot).runtime.telemetry == snapshot,
        state.after_tick(snapshot).runtime.active_mission == state.runtime.active_mission,
        state.after_tick(snapshot).config == state.config,
{
}

/// The session score never falls: each tick adds at least one until the
/// counter is full, and a full counter stays full.
pub proof fn score_never_decreases(state: AppState, snapshot: TelemetrySnapshot)
    ensures
        state.after_tick(snapshot).runtime.session_xp >= state.runtime.session_xp,
        state.runtime.session_xp < u64::MAX ==> state.after_tick(snapshot).runtime.session_xp
            > state.runtime.session_xp,
        state.runtime.session_xp == u64::MAX ==> state.after_tick(snapshot).runtime.session_xp
            == u64::MAX,
{
}

/// Mode and allocation always go together: a tick leaves a consistent
/// state consistent, whether or not the thermal override engages.
pub proof fn tick_keeps_consistency(state: AppState, snapshot: TelemetrySnapshot)
    requires
        state.consistent(),
    ensures
        state.after_tick(snapshot).consistent(),
{
}

/// No reader ever sees a mode with another mode's allocation: starting
/// from a consistent state, the state after any history of ticks and mode
/// changes, in any order, is consistent.
pub proof fn every_committed_state_is_consistent(initial: AppState, writes: Seq<StoreWrite>)
    requires
        initial.consistent(),
    ensures
        initial.after_all(writes).consistent(),
    decreases writes.len(),
{
    if writes.len() > 0 {
        every_committed_state_is_consistent(initial, writes.drop_last());
    }
}

/// Over any history of ticks and mode changes the session score at a
/// later point is at least what it was at an earlier one.
pub proof fn score_never_falls_over_a_history(
    initial: AppState,
    writes: Seq<StoreWrite>,
    earlier: int,
)
    requires
        0 <= earlier <= writes.len(),
    ensures
        initial.after_all(writes.take(earlier)).runtime.session_xp <= initial.after_all(
            writes,
        ).runtime.session_xp,
    decreases writes.len(),
{
    if earlier == writes.len() {
        assert(writes.take(earlier) == writes);
    } else {
        assert(writes.drop_last().take(earlier) == writes.take(earlier));
        score_never_falls_over_a_history(initial, writes.drop_last(), earlier);
    }
}

/// The last committed write decides the mode: after an explicit change the
/// mode is the requested one, whatever was committed before.
pub proof fn last_write_wins(initial: AppState, writes: Seq<StoreWrite>, mode: PerformanceMode)
    ensures
        initial.after_all(writes.push(StoreWrite::SetMode(mode))).runtime.mode == mode,
        initial.after_all(writes.push(StoreWrite::SetMode(mode))).runtime.allocation == plan(
            mode,
            initial.config,
        ),
{
    let all = writes.push(StoreWrite::SetMode(mode));
    assert(all.drop_last() == writes);
    config_never_changes(initial, writes);
}

/// No write touches the configuration.
pub proof fn config_never_changes(initial: AppState, writes: Seq<StoreWrite>)
    ensures
        initial.after_all(writes).config == initial.config,
    decreases writes.len(),
{
    if writes.len() > 0 {
        config_never_changes(initial, writes.drop_last());
    }
}

} // verus!
