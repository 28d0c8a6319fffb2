//! The telemetry sampler: from what the host reports to a snapshot whose
//! fields are always present and always within their ranges.
//!
//! Loads, temperatures and the latency are held in hundredths of a percent,
//! of a degree Celsius and of a millisecond; the earnings in ten-thousandths.
//! Each source may be missing, and each falls back on its own.

use vstd::prelude::*;
use crate::units::{
    clamp, clamp_to, hundredth, hundredth_of, larger, ten_thousandth, ten_thousandth_of, Centi,
};
use crate::scheduler::PerformanceMode;

verus! {

/// Length of one period of the wave that animates synthetic GPU values, in nanoseconds.
pub const WAVE_PERIOD_NANOS: i64 = 11_000_000_000;

/// The value that stands for a sine of one in `HostReadings::wave`.
pub const WAVE_SCALE: i64 = 10_000;

/// What the vendor tool reported for the GPU, as read: nothing is clamped yet.
#[derive(Clone, Copy, Debug, PartialEq, Eq, Structural)]
pub struct GpuReport {
    pub utilization: Centi,
    pub temperature: Centi,
}

/// One round of readings from the host.
#[derive(Clone, Debug, PartialEq, Eq)]
pub struct HostReadings {
    /// The instant of the sample, in nanoseconds since the Unix epoch.
    pub timestamp: i64,
    /// CPU usage as the host reports it.
    pub cpu_usage: Centi,
    /// One temperature for each thermal sensor that the host has; may be empty.
    pub sensor_temps: Vec<Centi>,
    /// The vendor tool's answer, or `None` where the tool is missing or failed.
    pub gpu_report: Option<GpuReport>,
    /// The sine of the wave at the instant of the sample, times `WAVE_SCALE`.
    pub wave: i64,
}

/// A point-in-time reading of load, heat and the metrics derived from them.
#[derive(Clone, Copy, Debug, PartialEq, Eq, Structural)]
pub struct TelemetrySnapshot {
    /// Nanoseconds since the Unix epoch.
    pub timestamp: i64,
    pub cpu_load_percent: Centi,
    pub cpu_temp_c: Centi,
    pub gpu_load_percent: Centi,
    pub gpu_temp_c: Centi,
    pub net_latency_ms: Centi,
    /// In ten-thousandths.
    pub earnings_per_sec: i64,
    pub impact_score: Centi,
    /// The mode that was active when the sample was taken.
    pub mode: PerformanceMode,
}

/// The temperature that stands in for a missing sensor: from `min` at no load
/// to `max` at full load, in a straight line.
pub open spec fn synthetic_temp_of(load: int, min: int, max: int) -> int {
    min + ten_thousandth_of((max - min) * load)
}

/// The hottest of the sensors, if there is any sensor.
pub open spec fn hottest(temps: Seq<Centi>) -> Option<Centi>
    decreases temps.len(),
{
    if temps.len() == 0 {
        None
    } else {
        match hottest(temps.drop_last()) {
            None => Some(temps.last()),
            Some(h) => Some(if h >= temps.last() { h } else { temps.last() }),
        }
    }
}

/// Where an instant falls within the current period of the wave.
pub open spec fn wave_phase_of(now_nanos: int) -> int {
    now_nanos % (WAVE_PERIOD_NANOS as int)
}

/// CPU load: the reported usage, clamped to [0, 100] percent.
pub open spec fn cpu_load_of(cpu_usage: int) -> int {
    clamp(cpu_usage, 0, 10_000)
}

/// CPU temperature: the hottest sensor, or 33 to 88 degrees by load where there is none.
pub open spec fn cpu_temp_of(sensor_temps: Seq<Centi>, cpu_load: int) -> int {
    match hottest(sensor_temps) {
        Some(h) => h as int,
        None => synthetic_temp_of(cpu_load, 3_300, 8_800),
    }
}

/// GPU load when no tool answers: three quarters of the CPU load, plus 40
/// percent, plus the wave with an amplitude of 15 percent; within [5, 99] percent.
pub open spec fn synthetic_gpu_load_of(cpu_load: int, wave: int) -> int {
    clamp(
        ten_thousandth_of(7_500 * cpu_load + 1_500 * clamp(wave, -10_000, 10_000) + 40_000_000),
        500,
        9_900,
    )
}

/// GPU load: the tool's figure clamped to [0, 100] percent, or the synthetic one.
pub open spec fn gpu_load_of(report: Option<GpuReport>, cpu_load: int, wave: int) -> int {
    match report {
        Some(r) => clamp(r.utilization as int, 0, 10_000),
        None => synthetic_gpu_load_of(cpu_load, wave),
    }
}

/// GPU temperature: the tool's figure clamped to [20, 100] degrees, or 38 to
/// 92 degrees by the synthetic load.
pub open spec fn gpu_temp_of(report: Option<GpuReport>, cpu_load: int, wave: int) -> int {
    match report {
        Some(r) => clamp(r.temperature as int, 2_000, 10_000),
        None => synthetic_temp_of(synthetic_gpu_load_of(cpu_load, wave), 3_800, 9_200),
    }
}

/// Earnings per second, in ten-thousandths: 0.08 at full GPU load, in
/// proportion below, and never under 0.002.
pub open spec fn earnings_of(gpu_load: int) -> int {
    larger(20, hundredth_of(8 * gpu_load))
}

/// Impact score: 900 times the earnings, plus 0.8 for each degree that the
/// GPU stays under 100; never negative.
pub open spec fn impact_of(gpu_load: int, gpu_temp: int) -> int {
    larger(0, hundredth_of(larger(18_000, 72 * gpu_load) + 80 * larger(0, 10_000 - gpu_temp)))
}

/// Network latency: 12 ms, plus 0.18 ms per percent of CPU load and 0.22 ms
/// per percent of GPU load; within [8, 190] ms.
pub open spec fn latency_of(cpu_load: int, gpu_load: int) -> int {
    clamp(hundredth_of(120_000 + 18 * cpu_load + 22 * gpu_load), 800, 19_000)
}

/// The snapshot that a round of readings gives.
pub open spec fn snapshot_of(mode: PerformanceMode, readings: HostReadings) -> TelemetrySnapshot {
    let cpu_load = cpu_load_of(readings.cpu_usage as int);
    let gpu_load = gpu_load_of(readings.gpu_report, cpu_load, readings.wave as int);
    let gpu_temp = gpu_temp_of(readings.gpu_report, cpu_load, readings.wave as int);
    TelemetrySnapshot {
        timestamp: readings.timestamp,
        cpu_load_percent: cpu_load as i64,
        cpu_temp_c: cpu_temp_of(readings.sensor_temps@, cpu_load) as i64,
        gpu_load_percent: gpu_load as i64,
        gpu_temp_c: gpu_temp as i64,
        net_latency_ms: latency_of(cpu_load, gpu_load) as i64,
        earnings_per_sec: earnings_of(gpu_load) as i64,
        impact_score: impact_of(gpu_load, gpu_temp) as i64,
        mode,
    }
}

impl TelemetrySnapshot {
    /// Every derived field lies in its range: loads in [0, 100] percent, the
    /// GPU temperature in [20, 100] degrees, the latency in [8, 190] ms, the
    /// earnings in [0.002, 0.08] and the impact score at or above zero.
    pub open spec fn within_clamps(&self) -> bool {
        &&& 0 <= self.cpu_load_percent <= 10_000
        &&& 0 <= self.gpu_load_percent <= 10_000
        &&& 2_000 <= self.gpu_temp_c <= 10_000
        &&& 800 <= self.net_latency_ms <= 19_000
        &&& 20 <= self.earnings_per_sec <= 800
        &&& 0 <= self.impact_score
    }
}

/// The hottest of the sensors; `None` where the host has no sensor.
pub fn read_cpu_temp(sensor_temps: &Vec<Centi>) -> (reading: Option<Centi>)
    ensures
        reading == hottest(sensor_temps@),
{
    let mut reading: Option<Centi> = None;
    let mut i: usize = 0;
    while i < sensor_temps.len()
        invariant
            i <= sensor_temps.len(),
            reading == hottest(sensor_temps@.take(i as int)),
        decreases sensor_temps.len() - i,
    {
        let value: Centi = sensor_temps[i];
        assert(sensor_temps@.take(i + 1).drop_last() == sensor_temps@.take(i as int));
        reading = match reading {
            None => Some(value),
            Some(h) => Some(if h >= value { h } else { value }),
        };
        i += 1;
    }
    assert(sensor_temps@.take(i as int) == sensor_temps@);
    reading
}

/// The temperature that stands in for a missing sensor at `load`.
fn synthetic_temp(load: Centi, min: Centi, max: Centi) -> (temp: Centi)
    requires
        0 <= load <= 10_000,
        0 <= min <= max <= 100_000,
    ensures
        temp == synthetic_temp_of(load as int, min as int, max as int),
        min <= temp <= max,
{
    let span: i64 = max - min;
    assert(0 <= span * load <= 1_000_000_000) by (nonlinear_arith)
        requires
            0 <= span <= 100_000,
            0 <= load <= 10_000,
    ;
    assert(span * load <= span * 10_000) by (nonlinear_arith)
        requires
            0 <= span,
            load <= 10_000,
    ;
    min + ten_thousandth(span * load)
}

/// What the GPU is taken to do when no tool answers: its load follows the
/// CPU load and the wave, its temperature follows its load.
fn synthetic_gpu(cpu_load: Centi, wave: i64) -> (gpu: (Centi, Centi))
    requires
        0 <= cpu_load <= 10_000,
    ensures
        gpu.0 == synthetic_gpu_load_of(cpu_load as int, wave as int),
        gpu.1 == synthetic_temp_of(gpu.0 as int, 3_800, 9_200),
        500 <= gpu.0 <= 9_900,
        3_800 <= gpu.1 <= 9_200,
{
    let swing: i64 = clamp_to(wave, -WAVE_SCALE, WAVE_SCALE);
    let raw: i64 = ten_thousandth(7_500 * cpu_load + 1_500 * swing + 40_000_000);
    let load: Centi = clamp_to(raw, 500, 9_900);
    let temp: Centi = synthetic_temp(load, 3_800, 9_200);
    (load, temp)
}

/// The tool's figures, each clamped to its range: the load to [0, 100]
/// percent, the temperature to [20, 100] degrees.
pub fn read_gpu_metrics(report: Option<GpuReport>) -> (gpu: Option<(Centi, Centi)>)
    ensures
        report is None <==> gpu is None,
        report matches Some(r) ==> gpu == Some(
            (
                clamp(r.utilization as int, 0, 10_000) as i64,
                clamp(r.temperature as int, 2_000, 10_000) as i64,
            ),
        ),
{
    match report {
        Some(r) => Some((clamp_to(r.utilization, 0, 10_000), clamp_to(r.temperature, 2_000, 10_000))),
        None => None,
    }
}

/// Earnings per second for a GPU load, in ten-thousandths.
fn earnings_per_sec(gpu_load: Centi) -> (earnings: i64)
    requires
        0 <= gpu_load <= 10_000,
    ensures
        earnings == earnings_of(gpu_load as int),
        20 <= earnings <= 800,
{
    let earned: i64 = hundredth(8 * gpu_load);
    if earned >= 20 {
        earned
    } else {
        20
    }
}

/// The impact score for a GPU load and temperature.
fn impact_score(gpu_load: Centi, gpu_temp: Centi) -> (impact: Centi)
    requires
        0 <= gpu_load <= 10_000,
        2_000 <= gpu_temp <= 10_000,
    ensures
        impact == impact_of(gpu_load as int, gpu_temp as int),
        180 <= impact <= 13_600,
{
    let earned: i64 = if 72 * gpu_load >= 18_000 {
        72 * gpu_load
    } else {
        18_000
    };
    let headroom: i64 = 10_000 - gpu_temp;
    hundredth(earned + 80 * headroom)
}

/// The latency that goes with a CPU and a GPU load.
fn synthetic_latency(cpu_load: Centi, gpu_load: Centi) -> (latency: Centi)
    requires
        0 <= cpu_load <= 10_000,
        0 <= gpu_load <= 10_000,
    ensures
        latency == latency_of(cpu_load as int, gpu_load as int),
        1_200 <= latency <= 5_200,
{
    clamp_to(hundredth(120_000 + 18 * cpu_load + 22 * gpu_load), 800, 19_000)
}

/// Turns one round of readings into a snapshot. Never fails: a missing
/// sensor or a missing tool is made up for, each by itself.
pub fn collect_snapshot(mode: PerformanceMode, readings: &HostReadings) -> (snapshot:
    TelemetrySnapshot)
    ensures
        snapshot == snapshot_of(mode, *readings),
        snapshot.within_clamps(),
        readings.gpu_report is None ==> 500 <= snapshot.gpu_load_percent <= 9_900 && 3_800
            <= snapshot.gpu_temp_c <= 9_200,
        readings.sensor_temps@.len() == 0 ==> 3_300 <= snapshot.cpu_temp_c <= 8_800,
{
    let cpu_load: Centi = clamp_to(readings.cpu_usage, 0, 10_000);
    let cpu_temp: Centi = match read_cpu_temp(&readings.sensor_temps) {
        Some(h) => h,
        None => synthetic_temp(cpu_load, 3_300, 8_800),
    };
    let (gpu_load, gpu_temp): (Centi, Centi) = match read_gpu_metrics(readings.gpu_report) {
        Some(gpu) => gpu,
        None => synthetic_gpu(cpu_load, readings.wave),
    };
    TelemetrySnapshot {
        timestamp: readings.timestamp,
        cpu_load_percent: cpu_load,
        cpu_temp_c: cpu_temp,
        gpu_load_percent: gpu_load,
        gpu_temp_c: gpu_temp,
        net_latency_ms: synthetic_latency(cpu_load, gpu_load),
        earnings_per_sec: earnings_per_sec(gpu_load),
        impact_score: impact_score(gpu_load, gpu_temp),
        mode,
    }
}

/// Where `now_nanos` falls within the current period of the wave. The sine
/// of the wave at that instant is the sine of `phase / WAVE_PERIOD_NANOS`
/// of a full turn.
pub fn wave_phase(now_nanos: i64) -> (phase: i64)
    ensures
        phase == wave_phase_of(now_nanos as int),
        0 <= phase < WAVE_PERIOD_NANOS,
{
    let r: i64 = now_nanos % WAVE_PERIOD_NANOS;
    if r < 0 {
        r + WAVE_PERIOD_NANOS
    } else {
        r
    }
}

/// The hottest sensor is one of the sensors and no sensor is hotter; there
/// is none exactly where the host has no sensor.
pub proof fn hottest_is_maximum(temps: Seq<Centi>)
    ensures
        hottest(temps) is None <==> temps.len() == 0,
        hottest(temps) matches Some(h) ==> temps.contains(h) && forall|i: int|
            0 <= i < temps.len() ==> temps[i] <= h,
    decreases temps.len(),
{
    if temps.len() > 0 {
        let rest = temps.drop_last();
        hottest_is_maximum(rest);
        let h = hottest(temps)->0;
        assert(temps.contains(h)) by {
            if h == temps.last() {
                assert(temps[temps.len() - 1] == h);
            } else {
                let i = choose|i: int| 0 <= i < rest.len() && rest[i] == h;
                assert(temps[i] == h);
            }
        }
        assert forall|i: int| 0 <= i < temps.len() implies temps[i] <= h by {
            if i < rest.len() {
                assert(rest[i] == temps[i]);
            }
        }
    }
}

/// Every snapshot lies within its clamps, whatever the host reports and
/// whichever source is missing. A synthetic GPU load lies within [5, 99]
/// percent and its temperature within [38, 92] degrees; a synthetic CPU
/// temperature lies within [33, 88] degrees. A reported GPU load lies
/// within [0, 100] percent and its temperature within [20, 100] degrees.
pub proof fn snapshot_within_clamps(mode: PerformanceMode, readings: HostReadings)
    ensures
        snapshot_of(mode, readings).within_clamps(),
        readings.gpu_report is None ==> {
            &&& 500 <= snapshot_of(mode, readings).gpu_load_percent <= 9_900
            &&& 3_800 <= snapshot_of(mode, readings).gpu_temp_c <= 9_200
        },
        readings.sensor_temps@.len() == 0 ==> 3_300 <= snapshot_of(mode, readings).cpu_temp_c
            <= 8_800,
        snapshot_of(mode, readings).mode == mode,
        snapshot_of(mode, readings).timestamp == readings.timestamp,
{
    hottest_is_maximum(readings.sensor_temps@);
    let cpu_load = cpu_load_of(readings.cpu_usage as int);
    let synthetic = synthetic_gpu_load_of(cpu_load, readings.wave as int);
    assert(0 <= 5_500 * cpu_load <= 55_000_000);
    assert(0 <= 5_400 * synthetic <= 53_460_000);
}

} // verus!
