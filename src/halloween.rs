//! The flicker effect: alternating dim and bright random brightness levels
//! separated by random pauses.

use rand::distributions::Distribution;
use vstd::prelude::*;

use crate::options::LightCommand;

verus! {

/// Lowest brightness of the dim phase.
pub const DIM_LOW: u8 = 1;

/// Bound (excluded) of the dim phase.
pub const DIM_HIGH: u8 = 50;

/// Lowest brightness of the bright phase.
pub const BRIGHT_LOW: u8 = 70;

/// Bound (excluded) of the bright phase.
pub const BRIGHT_HIGH: u8 = 120;

/// Shortest pause between two steps, in milliseconds.
pub const PAUSE_LOW: u64 = 200;

/// Bound (excluded) of the pause, in milliseconds.
pub const PAUSE_HIGH: u64 = 1000;

/// Relies on rand's `Uniform::from(low..high)` sampled with `thread_rng`:
/// the value lies in `[low, high)`. `Uniform::new` panics when `low >= high`.
#[verifier::external_body]
fn draw_between(low: u64, high: u64) -> (r: u64)
    requires
        low < high,
    ensures
        low <= r < high,
{
    rand::distributions::Uniform::from(low..high).sample(&mut rand::thread_rng())
}

/// A uniformly drawn brightness in `[low, high)`.
pub fn rand_bri(low: u8, high: u8) -> (r: u8)
    requires
        low < high,
    ensures
        low <= r < high,
{
    draw_between(low as u64, high as u64) as u8
}

/// A uniformly drawn pause length in milliseconds, in `[200, 1000)`.
pub fn pause_millis() -> (r: u64)
    ensures
        PAUSE_LOW <= r < PAUSE_HIGH,
{
    draw_between(PAUSE_LOW, PAUSE_HIGH)
}

/// The two alternating steps of the effect.
#[derive(Clone, Copy, Debug, PartialEq, Eq, Structural)]
pub enum Phase {
    Dim,
    Bright,
}

impl Phase {
    /// The step that follows this one.
    pub fn next(self) -> (r: Phase)
        ensures
            r == (match self {
                Phase::Dim => Phase::Bright,
                Phase::Bright => Phase::Dim,
            }),
    {
        match self {
            Phase::Dim => Phase::Bright,
            Phase::Bright => Phase::Dim,
        }
    }

    /// Lowest brightness drawn in this phase.
    pub open spec fn low(self) -> u8 {
        match self {
            Phase::Dim => DIM_LOW,
            Phase::Bright => BRIGHT_LOW,
        }
    }

    /// Bound (excluded) of the brightness drawn in this phase.
    pub open spec fn high(self) -> u8 {
        match self {
            Phase::Dim => DIM_HIGH,
            Phase::Bright => BRIGHT_HIGH,
        }
    }
}

/// The state change sent for one step of the effect: only the brightness is
/// set, to a value drawn in `[1, 50)` when dim and in `[70, 120)` when bright.
pub fn halloween_command(phase: Phase) -> (r: LightCommand)
    ensures
        r.on.is_none(),
        r.bri.is_some(),
        phase.low() <= r.bri.unwrap() < phase.high(),
        phase == Phase::Dim ==> 1 <= r.bri.unwrap() < 50,
        phase == Phase::Bright ==> 70 <= r.bri.unwrap() < 120,
{
    let bri = match phase {
        Phase::Dim => rand_bri(DIM_LOW, DIM_HIGH),
        Phase::Bright => rand_bri(BRIGHT_LOW, BRIGHT_HIGH),
    };
    LightCommand { on: None, bri: Some(bri) }
}

} // verus!
