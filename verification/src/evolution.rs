//! Level growth from accumulated technical karma.
use vstd::prelude::*;

verus! {

/// Levels stop rising at this value.
pub const LEVEL_CAP: i32 = 100;

/// The weight a level `l` must reach to rise: `l² × 1000`.
pub open spec fn level_threshold(l: int) -> int {
    l * l * 1000
}

/// The level reached from `l` with total weight `w`: it rises while the
/// weight reaches the current level's threshold, stopping once the cap is hit.
pub open spec fn level_after(w: int, l: int) -> int
    decreases 100 - l,
{
    if w >= level_threshold(l) {
        if l + 1 >= 100 {
            l + 1
        } else {
            level_after(w, l + 1)
        }
    } else {
        l
    }
}

/// A level change.
#[derive(Debug, Clone, Copy, PartialEq, Eq, Structural)]
pub enum SamsaraEvent {
    LevelUp { old_level: i32, new_level: i32 },
}

/// The level reached from `current_level` with total technical weight
/// `total_weight`, and the level-up event when it rose. The threshold of
/// `current_level` must fit in an `i64`.
pub fn sync_samsara_level(total_weight: i64, current_level: i32) -> (r: (i32, Option<SamsaraEvent>))
    requires
        level_threshold(current_level as int) <= i64::MAX,
    ensures
        r.0 == level_after(total_weight as int, current_level as int),
        r.0 > current_level ==> r.1 == Some(SamsaraEvent::LevelUp { old_level: current_level, new_level: r.0 }),
        r.0 <= current_level ==> r.1 is None,
        r.0 >= current_level,
{
    let mut level = current_level;
    loop
        invariant_except_break
            level_threshold(current_level as int) <= i64::MAX,
            current_level <= level,
            level == current_level || level < 100,
            level_after(total_weight as int, current_level as int) == level_after(total_weight as int, level as int),
        ensures
            level_after(total_weight as int, current_level as int) == level,
            current_level <= level,
        decreases 100 - level,
    {
        let lv = level as i64;
        proof {
            let c = current_level as int;
            let l = level as int;
            assert(0 <= l * l && l * l * 1000 <= i64::MAX) by (nonlinear_arith)
                requires
                    c * c * 1000 <= i64::MAX,
                    c <= l,
                    l == c || l < 100,
            ;
            assert(l < 100_000_000) by (nonlinear_arith)
                requires
                    c * c * 1000 <= i64::MAX,
                    l == c || l < 100,
            ;
        }
        if total_weight >= lv * lv * 1000 {
            level = level + 1;
            if level >= LEVEL_CAP {
                break;
            }
        } else {
            break;
        }
    }
    if level > current_level {
        (level, Some(SamsaraEvent::LevelUp { old_level: current_level, new_level: level }))
    } else {
        (level, None)
    }
}

} // verus!
