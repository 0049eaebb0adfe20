//! A simulated sensor for development without a device attached: readings around a
//! base value, disturbed by bounded random noise.

use rand::Rng;
use vstd::prelude::*;

verus! {

/// Base value of the simulated sensor.
pub const MOCK_BASE: i32 = 50;

/// Largest deviation of a simulated reading from [`MOCK_BASE`].
pub const MOCK_MAGNITUDE: i32 = 50;

/// Pause between two simulated readings, in milliseconds (four readings a second).
pub const MOCK_PERIOD_MS: u64 = 250;

/// One reading of the simulated sensor.
#[derive(Debug, Clone, Copy)]
pub struct SensorReading {
    /// Unix time of the reading, in seconds.
    pub timestamp: u64,
    /// Sensor value.
    pub value: i32,
}

/// Draws an integer from `min..=max` with `rand::Rng::gen_range` on the generator
/// that `rand::thread_rng` hands out.
///
/// Trusted: the draw lies in the range. An empty range makes `gen_range` panic,
/// so it is excluded.
#[verifier::external_body]
fn random_int(min: i32, max: i32) -> (r: i32)
    requires
        min <= max,
    ensures
        min <= r <= max,
{
    rand::thread_rng().gen_range(min..=max)
}

/// `value` moved by `noise`.
pub fn offset_by(value: i32, noise: i32) -> (r: i32)
    requires
        i32::MIN <= value + noise <= i32::MAX,
    ensures
        r == value + noise,
{
    value + noise
}

/// `value` disturbed by a random amount of at most `magnitude` in either direction.
///
/// Which amount is drawn is not determined; the result stays within `magnitude` of
/// `value` whatever the draw.
pub fn add_noise(value: i32, magnitude: i32) -> (r: i32)
    requires
        0 <= magnitude,
        i32::MIN <= value - magnitude,
        value + magnitude <= i32::MAX,
    ensures
        value - magnitude <= r <= value + magnitude,
{
    let noise: i32 = random_int(-magnitude, magnitude);
    offset_by(value, noise)
}

/// The simulated reading taken at `timestamp`: a value within
/// [`MOCK_MAGNITUDE`] of [`MOCK_BASE`].
pub fn mock_reading(timestamp: u64) -> (r: SensorReading)
    ensures
        r.timestamp == timestamp,
        MOCK_BASE - MOCK_MAGNITUDE <= r.value <= MOCK_BASE + MOCK_MAGNITUDE,
{
    SensorReading { timestamp, value: add_noise(MOCK_BASE, MOCK_MAGNITUDE) }
}

/// What the caller reports to the simulated sensor.
#[derive(Debug, Clone, Copy, PartialEq, Eq)]
pub enum MockEvent {
    /// It is time for a reading; the Unix time is this, in seconds.
    Tick(u64),
    /// The sink took the reading it was given.
    Delivered,
    /// The sink refused the reading it was given.
    Rejected,
}

/// What the simulated sensor asks the caller to do next.
#[derive(Debug, Clone, Copy)]
pub enum MockAction {
    /// Hand this reading to the sink and report whether it took it.
    Emit(SensorReading),
    /// Sleep for [`MOCK_PERIOD_MS`], then report the time with [`MockEvent::Tick`].
    Pause,
    /// End the simulation: the sink is gone.
    Stop,
}

/// One turn of the simulated sensor, which starts with a [`MockEvent::Tick`]: a tick
/// is answered with a reading of that time, a delivery with a pause, a refusal with
/// the end of the simulation.
pub fn mock_step(event: MockEvent) -> (action: MockAction)
    ensures
        match event {
            MockEvent::Tick(now) => action matches MockAction::Emit(reading) && reading.timestamp
                == now && MOCK_BASE - MOCK_MAGNITUDE <= reading.value <= MOCK_BASE
                + MOCK_MAGNITUDE,
            MockEvent::Delivered => action is Pause,
            MockEvent::Rejected => action is Stop,
        },
{
    match event {
        MockEvent::Tick(now) => MockAction::Emit(mock_reading(now)),
        MockEvent::Delivered => MockAction::Pause,
        MockEvent::Rejected => MockAction::Stop,
    }
}

} // verus!
