//! Choosing a day's workout, computing the expensive intensity figure only
//! when the chosen plan needs it, and at most once.
use vstd::prelude::*;
use crate::cacher::{Cacher, value_step};

verus! {

/// Below this intensity the day is strength work; from it on, cardio.
pub const HIGH_INTENSITY: u32 = 25;

/// The random draw on which a high-intensity day becomes a rest day.
pub const REST_DRAW: u32 = 3;

/// What the day's workout is.
#[derive(PartialEq, Eq, Structural, Debug, Clone, Copy)]
pub enum Workout {
    /// Push-ups and sit-ups, each the given number of times.
    Strength { pushups: u32, situps: u32 },
    /// A rest day.
    Break,
    /// A run of the given number of minutes.
    Run { minutes: u32 },
}

/// Picks the workout for `intensity` and `random_number`, asking
/// `expensive_result` for the figure each time the plan names one.
pub fn workout_plan<T: Fn(u32) -> u32>(
    intensity: u32,
    random_number: u32,
    expensive_result: &mut Cacher<T>,
) -> (r: Workout)
    requires
        old(expensive_result).cached() is None ==> old(expensive_result).calculation().requires(
            (intensity,),
        ),
    ensures
        final(expensive_result).calculation() == old(expensive_result).calculation(),
        intensity < HIGH_INTENSITY ==> (r matches Workout::Strength { pushups, situps }
            && pushups == situps && value_step(
            old(expensive_result).calculation(),
            old(expensive_result).cached(),
            intensity,
            pushups,
            final(expensive_result).cached(),
        )),
        intensity >= HIGH_INTENSITY && random_number == REST_DRAW ==> (r is Break
            && final(expensive_result).cached() == old(expensive_result).cached()),
        intensity >= HIGH_INTENSITY && random_number != REST_DRAW ==> (r matches Workout::Run {
            minutes,
        } && value_step(
            old(expensive_result).calculation(),
            old(expensive_result).cached(),
            intensity,
            minutes,
            final(expensive_result).cached(),
        )),
{
    if intensity < HIGH_INTENSITY {
        let pushups = expensive_result.value(intensity);
        let situps = expensive_result.value(intensity);
        Workout::Strength { pushups, situps }
    } else if random_number == REST_DRAW {
        Workout::Break
    } else {
        let minutes = expensive_result.value(intensity);
        Workout::Run { minutes }
    }
}

} // verus!
