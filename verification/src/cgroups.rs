//! The resource enforcer's plan: what has to be written to the resource
//! controller so that an allocation takes effect.
//!
//! Two groups are programmed, one for the foreground and one for the
//! workers, each with a CPU quota over a fixed accounting period and with a
//! proportional weight. Writing is the caller's part.

use vstd::prelude::*;
use vstd::string::StringExecFns;
use crate::scheduler::Allocation;
use crate::decimal::{decimal, decimal_of};

verus! {

/// The accounting period of a CPU quota, in microseconds.
pub const CGROUP_PERIOD_US: u32 = 100_000;

/// One of the two bands that the controller keeps apart.
#[derive(Clone, Copy, Debug, PartialEq, Eq, Structural)]
pub enum ResourceGroup {
    Ui,
    Worker,
}

/// A value for one control file of a group.
#[derive(Clone, Copy, Debug, PartialEq, Eq, Structural)]
pub enum ControlValue {
    /// The CPU time, in microseconds, that the group may use in each period.
    CpuMax { quota_us: u32, period_us: u32 },
    /// The group's share when the CPU is contended, from 1 to 10 000.
    CpuWeight { weight: u32 },
}

/// One write to the resource controller.
#[derive(Clone, Copy, Debug, PartialEq, Eq, Structural)]
pub struct ControlWrite {
    pub group: ResourceGroup,
    pub value: ControlValue,
}

/// `percent`, moved into [1, 100].
pub open spec fn clamped_percent(percent: u8) -> int {
    if percent < 1 {
        1
    } else if percent > 100 {
        100
    } else {
        percent as int
    }
}

/// The quota that gives a group `percent` of one CPU.
pub open spec fn quota_of(percent: u8) -> int {
    CGROUP_PERIOD_US * clamped_percent(percent) / 100
}

/// The weight that goes with `percent`: 199 at one percent, 10 000 at a hundred.
pub open spec fn weight_of(percent: u8) -> int {
    100 + 99 * clamped_percent(percent)
}

/// The two writes that give `group` its CPU limits, the quota first.
pub open spec fn limit_writes(group: ResourceGroup, percent: u8) -> Seq<ControlWrite> {
    seq![
        ControlWrite {
            group,
            value: ControlValue::CpuMax {
                quota_us: quota_of(percent) as u32,
                period_us: CGROUP_PERIOD_US,
            },
        },
        ControlWrite { group, value: ControlValue::CpuWeight { weight: weight_of(percent) as u32 } },
    ]
}

/// Everything that an allocation asks of the controller: the limits of the
/// foreground, then those of the workers. Only the CPU shares are enforced.
pub open spec fn allocation_writes(allocation: Allocation) -> Seq<ControlWrite> {
    limit_writes(ResourceGroup::Ui, allocation.ui_cpu_percent) + limit_writes(
        ResourceGroup::Worker,
        allocation.worker_cpu_percent,
    )
}

impl ResourceGroup {
    /// The name of the group's directory under the controller's root.
    pub open spec fn dir(self) -> &'static str {
        match self {
            ResourceGroup::Ui => "dig-ui",
            ResourceGroup::Worker => "dig-worker",
        }
    }

    /// The name of the group's directory under the controller's root.
    pub fn dir_name(self) -> (name: &'static str)
        ensures
            name == self.dir(),
    {
        match self {
            ResourceGroup::Ui => "dig-ui",
            ResourceGroup::Worker => "dig-worker",
        }
    }
}

impl ControlValue {
    /// The control file that takes the value.
    pub open spec fn file(self) -> &'static str {
        match self {
            ControlValue::CpuMax { .. } => "cpu.max",
            ControlValue::CpuWeight { .. } => "cpu.weight",
        }
    }

    /// The value as the control file takes it: quota and period separated
    /// by a blank, or the weight alone.
    pub open spec fn text_of(self) -> Seq<char> {
        match self {
            ControlValue::CpuMax { quota_us, period_us } => decimal_of(quota_us as nat) + seq![' ']
                + decimal_of(period_us as nat),
            ControlValue::CpuWeight { weight } => decimal_of(weight as nat),
        }
    }

    /// The name of the control file that takes the value.
    pub fn file_name(self) -> (name: &'static str)
        ensures
            name == self.file(),
    {
        match self {
            ControlValue::CpuMax { .. } => "cpu.max",
            ControlValue::CpuWeight { .. } => "cpu.weight",
        }
    }

    /// The text to write to the control file.
    pub fn text(self) -> (text: String)
        ensures
            text@ == self.text_of(),
    {
        match self {
            ControlValue::CpuMax { quota_us, period_us } => {
                proof {
                    reveal_strlit(" ");
                }
                let mut text: String = decimal(quota_us);
                text.append(" ");
                let period: String = decimal(period_us);
                text.append(period.as_str());
                assert(text@ =~= self.text_of());
                text
            },
            ControlValue::CpuWeight { weight } => decimal(weight),
        }
    }
}

/// Adds to `batch` the two writes that give `group` its CPU limits.
/// A percentage outside [1, 100] is clamped first.
pub fn write_cpu_limits(group: ResourceGroup, percent: u8, batch: &mut Vec<ControlWrite>)
    ensures
        final(batch)@ == old(batch)@ + limit_writes(group, percent),
{
    let pct: u32 = if percent < 1 {
        1
    } else if percent > 100 {
        100
    } else {
        percent as u32
    };
    let quota_us: u32 = CGROUP_PERIOD_US * pct / 100;
    let weight: u32 = 100 + 99 * pct;
    batch.push(
        ControlWrite { group, value: ControlValue::CpuMax { quota_us, period_us: CGROUP_PERIOD_US } },
    );
    batch.push(ControlWrite { group, value: ControlValue::CpuWeight { weight } });
    assert(batch@ =~= old(batch)@ + limit_writes(group, percent));
}

/// Plans the writes that put `allocation` into effect, in the order in
/// which they are to be made.
pub fn apply_allocation(allocation: &Allocation) -> (writes: Vec<ControlWrite>)
    ensures
        writes@ == allocation_writes(*allocation),
        writes@.len() == 4,
{
    let mut writes: Vec<ControlWrite> = Vec::new();
    write_cpu_limits(ResourceGroup::Ui, allocation.ui_cpu_percent, &mut writes);
    write_cpu_limits(ResourceGroup::Worker, allocation.worker_cpu_percent, &mut writes);
    assert(writes@ =~= allocation_writes(*allocation));
    writes
}

/// The quota is the group's percentage of the period and never more than
/// the period; the weight stays within what the controller accepts.
pub proof fn limits_within_range(percent: u8)
    ensures
        quota_of(percent) == 1_000 * clamped_percent(percent),
        1_000 <= quota_of(percent) <= CGROUP_PERIOD_US,
        199 <= weight_of(percent) <= 10_000,
{
}

} // verus!
