use dig_daemon::cgroups::{
    apply_allocation, write_cpu_limits, ControlValue, ControlWrite, ResourceGroup, CGROUP_PERIOD_US,
};
use dig_daemon::config::Config;
use dig_daemon::scheduler::{allocation_for_mode, Allocation, PerformanceMode};

fn limits(percent: u8) -> (u32, u32) {
    let mut batch = Vec::new();
    write_cpu_limits(ResourceGroup::Ui, percent, &mut batch);
    assert_eq!(batch.len(), 2);
    let quota = match batch[0].value {
        ControlValue::CpuMax { quota_us, period_us } => {
            assert_eq!(period_us, 100_000);
            quota_us
        }
        ControlValue::CpuWeight { .. } => panic!("the quota comes first"),
    };
    let weight = match batch[1].value {
        ControlValue::CpuWeight { weight } => weight,
        ControlValue::CpuMax { .. } => panic!("the weight comes second"),
    };
    (quota, weight)
}

#[test]
fn period_is_a_tenth_of_a_second() {
    assert_eq!(CGROUP_PERIOD_US, 100_000);
}

#[test]
fn quota_and_weight_by_percentage() {
    assert_eq!(limits(1), (1_000, 199));
    assert_eq!(limits(5), (5_000, 595));
    assert_eq!(limits(50), (50_000, 5_050));
    assert_eq!(limits(80), (80_000, 8_020));
    assert_eq!(limits(99), (99_000, 9_901));
    assert_eq!(limits(100), (100_000, 10_000));
}

#[test]
fn percentage_is_clamped_before_conversion() {
    assert_eq!(limits(0), limits(1));
    assert_eq!(limits(101), limits(100));
    assert_eq!(limits(255), (100_000, 10_000));
}

#[test]
fn limits_are_added_after_what_the_batch_holds() {
    let first = ControlWrite {
        group: ResourceGroup::Worker,
        value: ControlValue::CpuWeight { weight: 1 },
    };
    let mut batch = vec![first];
    write_cpu_limits(ResourceGroup::Ui, 20, &mut batch);
    assert_eq!(
        batch,
        vec![
            first,
            ControlWrite {
                group: ResourceGroup::Ui,
                value: ControlValue::CpuMax { quota_us: 20_000, period_us: 100_000 },
            },
            ControlWrite { group: ResourceGroup::Ui, value: ControlValue::CpuWeight { weight: 2_080 } },
        ]
    );
}

#[test]
fn allocation_programs_foreground_then_workers() {
    let allocation = allocation_for_mode(PerformanceMode::Balanced, &Config::default());
    assert_eq!(
        apply_allocation(&allocation),
        vec![
            ControlWrite {
                group: ResourceGroup::Ui,
                value: ControlValue::CpuMax { quota_us: 5_000, period_us: 100_000 },
            },
            ControlWrite { group: ResourceGroup::Ui, value: ControlValue::CpuWeight { weight: 595 } },
            ControlWrite {
                group: ResourceGroup::Worker,
                value: ControlValue::CpuMax { quota_us: 80_000, period_us: 100_000 },
            },
            ControlWrite {
                group: ResourceGroup::Worker,
                value: ControlValue::CpuWeight { weight: 8_020 },
            },
        ]
    );
}

#[test]
fn gpu_shares_do_not_reach_the_controller() {
    let base = Allocation {
        ui_cpu_percent: 10,
        worker_cpu_percent: 60,
        ui_gpu_percent: 1,
        worker_gpu_percent: 2,
        profile: "x",
    };
    let other = Allocation { ui_gpu_percent: 99, worker_gpu_percent: 98, profile: "y", ..base };
    assert_eq!(apply_allocation(&base), apply_allocation(&other));
}

#[test]
fn allocation_outside_its_bounds_is_clamped() {
    let allocation = Allocation {
        ui_cpu_percent: 0,
        worker_cpu_percent: 200,
        ui_gpu_percent: 0,
        worker_gpu_percent: 0,
        profile: "x",
    };
    let writes = apply_allocation(&allocation);
    assert_eq!(writes[0].value, ControlValue::CpuMax { quota_us: 1_000, period_us: 100_000 });
    assert_eq!(writes[1].value, ControlValue::CpuWeight { weight: 199 });
    assert_eq!(writes[2].value, ControlValue::CpuMax { quota_us: 100_000, period_us: 100_000 });
    assert_eq!(writes[3].value, ControlValue::CpuWeight { weight: 10_000 });
}

#[test]
fn values_as_the_control_files_take_them() {
    assert_eq!(ControlValue::CpuMax { quota_us: 50_000, period_us: 100_000 }.text(), "50000 100000");
    assert_eq!(ControlValue::CpuMax { quota_us: 0, period_us: 1 }.text(), "0 1");
    assert_eq!(ControlValue::CpuWeight { weight: 5_050 }.text(), "5050");
    assert_eq!(ControlValue::CpuWeight { weight: 199 }.text(), "199");
}

#[test]
fn names_of_groups_and_files() {
    assert_eq!(ResourceGroup::Ui.dir_name(), "dig-ui");
    assert_eq!(ResourceGroup::Worker.dir_name(), "dig-worker");
    assert_eq!(ControlValue::CpuMax { quota_us: 1, period_us: 1 }.file_name(), "cpu.max");
    assert_eq!(ControlValue::CpuWeight { weight: 1 }.file_name(), "cpu.weight");
}
