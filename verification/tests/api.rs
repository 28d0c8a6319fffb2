use dig_daemon::api::{get_runtime, get_telemetry, set_mode, ModeRequest, RequestError, RuntimeResponse};
use dig_daemon::config::Config;
use dig_daemon::scheduler::{Allocation, PerformanceMode};
use dig_daemon::state::{AppState, RuntimeState};
use dig_daemon::telemetry::TelemetrySnapshot;

fn snapshot() -> TelemetrySnapshot {
    TelemetrySnapshot {
        timestamp: 99,
        cpu_load_percent: 1_000,
        cpu_temp_c: 4_000,
        gpu_load_percent: 2_000,
        gpu_temp_c: 5_000,
        net_latency_ms: 1_820,
        earnings_per_sec: 160,
        impact_score: 5_440,
        mode: PerformanceMode::Balanced,
    }
}

fn running() -> AppState {
    let cfg = Config::default();
    let mut state = AppState::new(
        cfg,
        RuntimeState::initial(&cfg, PerformanceMode::Balanced, snapshot(), Some("m-1".to_string())),
    );
    state.runtime.session_xp = 17;
    state
}

#[test]
fn request_from_each_of_the_four_names() {
    assert_eq!(ModeRequest::from_name("gaming"), Ok(ModeRequest { mode: PerformanceMode::Gaming }));
    assert_eq!(ModeRequest::from_name("balanced"), Ok(ModeRequest { mode: PerformanceMode::Balanced }));
    assert_eq!(ModeRequest::from_name("sleep"), Ok(ModeRequest { mode: PerformanceMode::Sleep }));
    assert_eq!(
        ModeRequest::from_name("autopilot"),
        Ok(ModeRequest { mode: PerformanceMode::Autopilot })
    );
}

#[test]
fn request_with_any_other_name_is_turned_down() {
    for name in ["", "Sleep", "sleep\n", "performance", "gaming,balanced", "ｓleep"] {
        assert_eq!(ModeRequest::from_name(name), Err(RequestError::UnknownMode));
    }
}

#[test]
fn change_to_sleep_returns_the_sleep_allocation() {
    let mut state = running();
    let response = set_mode(&mut state, &ModeRequest { mode: PerformanceMode::Sleep });
    assert_eq!(
        response.allocation,
        Allocation {
            ui_cpu_percent: 5,
            worker_cpu_percent: 95,
            ui_gpu_percent: 5,
            worker_gpu_percent: 98,
            profile: "sleep",
        }
    );
    assert_eq!(response.mode, PerformanceMode::Sleep);
}

#[test]
fn state_method_returns_the_new_allocation() {
    let mut state = running();
    let allocation = state.set_mode(PerformanceMode::Sleep);
    assert_eq!(
        allocation,
        Allocation {
            ui_cpu_percent: 5,
            worker_cpu_percent: 95,
            ui_gpu_percent: 5,
            worker_gpu_percent: 98,
            profile: "sleep",
        }
    );
    assert_eq!(state.runtime.allocation, allocation);
    assert_eq!(state.runtime.mode, PerformanceMode::Sleep);
}

#[test]
fn mode_change_leaves_telemetry_mission_and_score_alone() {
    let mut state = running();
    let response = set_mode(&mut state, &ModeRequest { mode: PerformanceMode::Gaming });
    assert_eq!(state.runtime.telemetry, snapshot());
    assert_eq!(state.runtime.active_mission.as_deref(), Some("m-1"));
    assert_eq!(state.runtime.session_xp, 17);
    assert_eq!(state.config, Config::default());
    assert_eq!(response.active_mission.as_deref(), Some("m-1"));
    assert_eq!(response.session_xp, 17);
}

#[test]
fn last_mode_change_wins() {
    let mut state = running();
    set_mode(&mut state, &ModeRequest { mode: PerformanceMode::Gaming });
    state.tick(TelemetrySnapshot { gpu_temp_c: 9_000, ..snapshot() });
    assert_eq!(state.runtime.mode, PerformanceMode::Gaming);
    set_mode(&mut state, &ModeRequest { mode: PerformanceMode::Autopilot });
    state.tick(TelemetrySnapshot { gpu_temp_c: 9_000, ..snapshot() });
    assert_eq!(state.runtime.mode, PerformanceMode::Balanced);
    set_mode(&mut state, &ModeRequest { mode: PerformanceMode::Autopilot });
    assert_eq!(state.runtime.mode, PerformanceMode::Autopilot);
    assert_eq!(state.runtime.allocation.worker_gpu_percent, 90);
}

#[test]
fn runtime_query_copies_the_state() {
    let state = running();
    assert_eq!(
        get_runtime(&state),
        RuntimeResponse {
            mode: PerformanceMode::Balanced,
            allocation: Allocation {
                ui_cpu_percent: 5,
                worker_cpu_percent: 80,
                ui_gpu_percent: 5,
                worker_gpu_percent: 85,
                profile: "balanced",
            },
            active_mission: Some("m-1".to_string()),
            session_xp: 17,
        }
    );
    assert_eq!(get_runtime(&state), get_runtime(&state));
}

#[test]
fn runtime_query_without_a_mission() {
    let mut state = running();
    state.runtime.active_mission = None;
    assert_eq!(get_runtime(&state).active_mission, None);
}

#[test]
fn telemetry_query_copies_the_latest_snapshot() {
    let mut state = running();
    assert_eq!(get_telemetry(&state), snapshot());
    let next = TelemetrySnapshot { timestamp: 100, gpu_temp_c: 6_000, ..snapshot() };
    state.tick(next);
    assert_eq!(get_telemetry(&state), next);
}
