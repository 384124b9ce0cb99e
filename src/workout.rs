use crate::cache::Cacher;
use vstd::prelude::*;

verus! {

/// Today's exercise.
#[derive(PartialEq, Eq, Structural, Clone, Copy, Debug)]
pub enum Workout {
    /// Push-ups, then sit-ups.
    Strength { pushups: u32, situps: u32 },
    /// A day off.
    Rest,
    /// A run of so many minutes.
    Run { minutes: u32 },
}

/// Plans the day's workout for `intensity`. A low intensity (under 25) asks
/// for strength work; otherwise a draw of 3 gives a rest day and any other
/// draw a run. Every number comes from `expensive`, which runs its
/// calculation at most once; a rest day does not run it at all.
pub fn plan_workout<T: Fn(u32) -> u32>(intensity: u32, random_number: u32, expensive: &mut Cacher<T>) -> (w: Workout)
    requires
        old(expensive).cached() is None ==> old(expensive).calculation().requires((intensity,)),
    ensures
        final(expensive).calculation() == old(expensive).calculation(),
        intensity >= 25 && random_number == 3 ==> w == Workout::Rest && final(expensive).cached()
            == old(expensive).cached(),
        !(intensity >= 25 && random_number == 3) ==> final(expensive).cached() is Some,
        intensity < 25 ==> w == (Workout::Strength {
            pushups: final(expensive).cached()->0,
            situps: final(expensive).cached()->0,
        }),
        intensity >= 25 && random_number != 3 ==> w == (Workout::Run {
            minutes: final(expensive).cached()->0,
        }),
        old(expensive).cached() matches Some(v) ==> final(expensive).cached() == Some(v),
        old(expensive).cached() is None ==> (final(expensive).cached() matches Some(v)
            ==> old(expensive).calculation().ensures((intensity,), v)),
{
    if intensity < 25 {
        let pushups = expensive.value(intensity);
        let situps = expensive.value(intensity);
        Workout::Strength { pushups, situps }
    } else if random_number == 3 {
        Workout::Rest
    } else {
        Workout::Run { minutes: expensive.value(intensity) }
    }
}

} // verus!
