//! Static configuration, fixed at startup.

use vstd::prelude::*;
use crate::units::Centi;

verus! {

/// Process-wide settings that the planner and the control loop read and never change.
#[derive(Clone, Copy, Debug, PartialEq, Eq, Structural)]
pub struct Config {
    /// Time between two ticks of the control loop, in milliseconds.
    pub poll_interval_ms: u64,
    /// GPU temperature at which the thermal override engages, in hundredths of a degree.
    pub thermal_limit_c: Centi,
    /// Least CPU share kept for the foreground, in percent.
    pub ui_reserved_cpu_percent: u8,
    /// Least GPU share kept for the foreground, in percent.
    pub ui_reserved_gpu_percent: u8,
}

impl Config {
    /// Both foreground floors are percentages.
    pub open spec fn valid(&self) -> bool {
        self.ui_reserved_cpu_percent <= 100 && self.ui_reserved_gpu_percent <= 100
    }

    /// The settings used when nothing overrides them.
    pub open spec fn standard() -> Config {
        Config {
            poll_interval_ms: 1000,
            thermal_limit_c: 8500,
            ui_reserved_cpu_percent: 5,
            ui_reserved_gpu_percent: 5,
        }
    }

    /// Whether both foreground floors are percentages.
    pub fn is_valid(&self) -> (ok: bool)
        ensures
            ok == self.valid(),
    {
        self.ui_reserved_cpu_percent <= 100 && self.ui_reserved_gpu_percent <= 100
    }
}

impl Default for Config {
    /// One tick per second, a limit of 85 degrees and a floor of 5 percent on both resources.
    fn default() -> (cfg: Config)
        ensures
            cfg == Config::standard(),
            cfg.valid(),
    {
        Config {
            poll_interval_ms: 1000,
            thermal_limit_c: 8500,
            ui_reserved_cpu_percent: 5,
            ui_reserved_gpu_percent: 5,
        }
    }
}

} // verus!
