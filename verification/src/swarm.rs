//! Lamport clock of a swarm node.
use vstd::prelude::*;

verus! {

/// How far ahead of the local clock a remote clock may be before it is
/// rejected as poisoned or skewed.
pub const MAX_CLOCK_SKEW: u64 = 100_000;

/// The clock after a local event.
pub open spec fn ticked(current: nat) -> nat {
    current + 1
}

/// A remote clock is accepted unless it runs more than `MAX_CLOCK_SKEW` ahead.
pub open spec fn accepts_remote(current: nat, remote: nat) -> bool {
    remote <= current + MAX_CLOCK_SKEW
}

/// The clock after receiving `remote`: one past the larger of the two when
/// accepted; unchanged when rejected.
pub open spec fn synced(current: nat, remote: nat) -> nat {
    if accepts_remote(current, remote) {
        (if current >= remote {
            current
        } else {
            remote
        }) + 1
    } else {
        current
    }
}

/// Advances the clock for a local event.
pub fn tick_local_clock(current: u64) -> (r: u64)
    requires
        current < i64::MAX,
    ensures
        r == ticked(current as nat),
{
    current + 1
}

/// Whether a received clock value is accepted.
pub fn accepts_remote_clock(current: u64, remote: u64) -> (r: bool)
    requires
        current + MAX_CLOCK_SKEW <= u64::MAX,
    ensures
        r == accepts_remote(current as nat, remote as nat),
{
    remote <= current + MAX_CLOCK_SKEW
}

/// Merges a received clock value into the local clock.
pub fn sync_local_clock(current: u64, remote: u64) -> (r: u64)
    requires
        current + MAX_CLOCK_SKEW < u64::MAX,
    ensures
        r == synced(current as nat, remote as nat),
{
    if remote > current + MAX_CLOCK_SKEW {
        return current;
    }
    let m = if current >= remote {
        current
    } else {
        remote
    };
    m + 1
}

/// The clock never goes back; an accepted remote value is overtaken (so the
/// next local event is ordered after the received one), and a local event
/// moves the clock forward.
pub proof fn law_clock_monotone(current: nat, remote: nat)
    ensures
        synced(current, remote) >= current,
        accepts_remote(current, remote) ==> synced(current, remote) > remote && synced(current, remote) > current,
        !accepts_remote(current, remote) ==> synced(current, remote) == current,
        ticked(current) > current,
{
}

} // verus!
