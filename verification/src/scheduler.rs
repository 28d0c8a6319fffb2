//! The allocation planner: which share of CPU and GPU each band gets in each mode.

use vstd::prelude::*;
use crate::config::Config;
use crate::text::same_text;

verus! {

/// The operating profile that decides how far background work is favoured.
#[derive(Clone, Copy, Debug, PartialEq, Eq, Structural)]
pub enum PerformanceMode {
    Gaming,
    Balanced,
    Sleep,
    Autopilot,
}

/// The shares reserved for the foreground (`ui_*`) and for the background
/// workers (`worker_*`), in percent. The four values are independent caps,
/// not a partition: they need not add up to 100.
#[derive(Clone, Copy, Debug, PartialEq, Eq)]
pub struct Allocation {
    pub ui_cpu_percent: u8,
    pub worker_cpu_percent: u8,
    pub ui_gpu_percent: u8,
    pub worker_gpu_percent: u8,
    /// The name of the mode that the allocation was planned for.
    pub profile: &'static str,
}

/// The larger of two percentages.
pub open spec fn at_least(configured: u8, floor: u8) -> u8 {
    if configured >= floor {
        configured
    } else {
        floor
    }
}

impl PerformanceMode {
    /// The lower-case name of the mode, as it is written in requests and labels.
    pub open spec fn profile(self) -> &'static str {
        match self {
            PerformanceMode::Gaming => "gaming",
            PerformanceMode::Balanced => "balanced",
            PerformanceMode::Sleep => "sleep",
            PerformanceMode::Autopilot => "autopilot",
        }
    }

    /// The least CPU share that the foreground keeps in this mode.
    pub open spec fn ui_cpu_floor(self) -> u8 {
        match self {
            PerformanceMode::Gaming => 15,
            PerformanceMode::Balanced => 5,
            PerformanceMode::Sleep => 3,
            PerformanceMode::Autopilot => 5,
        }
    }

    /// The CPU share of the background workers in this mode.
    pub open spec fn worker_cpu(self) -> u8 {
        match self {
            PerformanceMode::Gaming => 20,
            PerformanceMode::Balanced => 80,
            PerformanceMode::Sleep => 95,
            PerformanceMode::Autopilot => 85,
        }
    }

    /// The least GPU share that the foreground keeps in this mode.
    pub open spec fn ui_gpu_floor(self) -> u8 {
        match self {
            PerformanceMode::Gaming => 20,
            PerformanceMode::Balanced => 5,
            PerformanceMode::Sleep => 2,
            PerformanceMode::Autopilot => 5,
        }
    }

    /// The GPU share of the background workers in this mode.
    pub open spec fn worker_gpu(self) -> u8 {
        match self {
            PerformanceMode::Gaming => 10,
            PerformanceMode::Balanced => 85,
            PerformanceMode::Sleep => 98,
            PerformanceMode::Autopilot => 90,
        }
    }

    /// The lower-case name of the mode.
    pub fn name(self) -> (label: &'static str)
        ensures
            label == self.profile(),
    {
        match self {
            PerformanceMode::Gaming => "gaming",
            PerformanceMode::Balanced => "balanced",
            PerformanceMode::Sleep => "sleep",
            PerformanceMode::Autopilot => "autopilot",
        }
    }

    /// Reads a mode from its name; `None` for any other text.
    pub fn from_name(name: &str) -> (mode: Option<PerformanceMode>)
        ensures
            mode == mode_named(name@),
    {
        if same_text(name, "gaming") {
            Some(PerformanceMode::Gaming)
        } else if same_text(name, "balanced") {
            Some(PerformanceMode::Balanced)
        } else if same_text(name, "sleep") {
            Some(PerformanceMode::Sleep)
        } else if same_text(name, "autopilot") {
            Some(PerformanceMode::Autopilot)
        } else {
            None
        }
    }
}

/// The mode that goes by `name`, if there is one. Names are matched exactly:
/// lower case, nothing before or after.
pub open spec fn mode_named(name: Seq<char>) -> Option<PerformanceMode> {
    if name == PerformanceMode::Gaming.profile()@ {
        Some(PerformanceMode::Gaming)
    } else if name == PerformanceMode::Balanced.profile()@ {
        Some(PerformanceMode::Balanced)
    } else if name == PerformanceMode::Sleep.profile()@ {
        Some(PerformanceMode::Sleep)
    } else if name == PerformanceMode::Autopilot.profile()@ {
        Some(PerformanceMode::Autopilot)
    } else {
        None
    }
}

impl Allocation {
    /// Every share is a percentage of at least one.
    pub open spec fn within_bounds(&self) -> bool {
        &&& 1 <= self.ui_cpu_percent <= 100
        &&& 1 <= self.worker_cpu_percent <= 100
        &&& 1 <= self.ui_gpu_percent <= 100
        &&& 1 <= self.worker_gpu_percent <= 100
    }
}

/// The allocation that `mode` calls for under `cfg`: the workers get the
/// mode's fixed shares, the foreground gets the configured floor or the
/// mode's own, whichever is larger.
pub open spec fn plan(mode: PerformanceMode, cfg: Config) -> Allocation {
    Allocation {
        ui_cpu_percent: at_least(cfg.ui_reserved_cpu_percent, mode.ui_cpu_floor()),
        worker_cpu_percent: mode.worker_cpu(),
        ui_gpu_percent: at_least(cfg.ui_reserved_gpu_percent, mode.ui_gpu_floor()),
        worker_gpu_percent: mode.worker_gpu(),
        profile: mode.profile(),
    }
}

/// Plans the allocation for `mode`. Defined for every mode and every
/// configuration, and a function of its two arguments alone.
pub fn allocation_for_mode(mode: PerformanceMode, cfg: &Config) -> (allocation: Allocation)
    ensures
        allocation == plan(mode, *cfg),
        cfg.valid() ==> allocation.within_bounds(),
{
    let (ui_cpu_floor, worker_cpu, ui_gpu_floor, worker_gpu): (u8, u8, u8, u8) = match mode {
        PerformanceMode::Gaming => (15, 20, 20, 10),
        PerformanceMode::Balanced => (5, 80, 5, 85),
        PerformanceMode::Sleep => (3, 95, 2, 98),
        PerformanceMode::Autopilot => (5, 85, 5, 90),
    };
    let ui_cpu: u8 = if cfg.ui_reserved_cpu_percent >= ui_cpu_floor {
        cfg.ui_reserved_cpu_percent
    } else {
        ui_cpu_floor
    };
    let ui_gpu: u8 = if cfg.ui_reserved_gpu_percent >= ui_gpu_floor {
        cfg.ui_reserved_gpu_percent
    } else {
        ui_gpu_floor
    };
    Allocation {
        ui_cpu_percent: ui_cpu,
        worker_cpu_percent: worker_cpu,
        ui_gpu_percent: ui_gpu,
        worker_gpu_percent: worker_gpu,
        profile: mode.name(),
    }
}

/// Every mode is found again under its own name, so no two modes share one.
pub proof fn name_round_trip(mode: PerformanceMode)
    ensures
        mode_named(mode.profile()@) == Some(mode),
{
    reveal_strlit("gaming");
    reveal_strlit("balanced");
    reveal_strlit("sleep");
    reveal_strlit("autopilot");
    assert("gaming"@.len() == 6);
    assert("balanced"@.len() == 8);
    assert("sleep"@.len() == 5);
    assert("autopilot"@.len() == 9);
}

/// A planned allocation stays within [1, 100] on every share whenever the
/// configured floors are percentages.
pub proof fn plan_within_bounds(mode: PerformanceMode, cfg: Config)
    requires
        cfg.valid(),
    ensures
        plan(mode, cfg).within_bounds(),
{
}

/// Planning is idempotent: the allocation depends on the mode and on the two
/// configured floors and on nothing else, so equal inputs give equal allocations.
pub proof fn plan_is_idempotent(mode: PerformanceMode, first: Config, second: Config)
    requires
        first.ui_reserved_cpu_percent == second.ui_reserved_cpu_percent,
        first.ui_reserved_gpu_percent == second.ui_reserved_gpu_percent,
    ensures
        plan(mode, first) == plan(mode, second),
{
}

/// The foreground never gets less than the configuration asks for, nor less
/// than the mode's own floor, and gets exactly the larger of the two.
pub proof fn plan_respects_floors(mode: PerformanceMode, cfg: Config)
    ensures
        plan(mode, cfg).ui_cpu_percent >= cfg.ui_reserved_cpu_percent,
        plan(mode, cfg).ui_cpu_percent >= mode.ui_cpu_floor(),
        plan(mode, cfg).ui_cpu_percent == cfg.ui_reserved_cpu_percent
            || plan(mode, cfg).ui_cpu_percent == mode.ui_cpu_floor(),
        plan(mode, cfg).ui_gpu_percent >= cfg.ui_reserved_gpu_percent,
        plan(mode, cfg).ui_gpu_percent >= mode.ui_gpu_floor(),
        plan(mode, cfg).ui_gpu_percent == cfg.ui_reserved_gpu_percent
            || plan(mode, cfg).ui_gpu_percent == mode.ui_gpu_floor(),
{
}

} // verus!
