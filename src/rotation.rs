//! The rotation of the displayed model: a fixed angular rate, applied only
//! while playback runs. Times are in nanoseconds and angles in nanoradians.
use vstd::prelude::*;

verus! {

/// Angular rate of the rotating target: one radian per second, which is one
/// nanoradian per nanosecond.
pub const NANORADIANS_PER_NANOSECOND: u64 = 1;

/// The angle turned in one frame of `delta_nanos` nanoseconds.
pub open spec fn rotation_step(running: bool, delta_nanos: nat) -> nat {
    if running {
        delta_nanos * (NANORADIANS_PER_NANOSECOND as nat)
    } else {
        0
    }
}

/// The angle turned over frames given as (running, delta in nanoseconds).
pub open spec fn net_rotation(frames: Seq<(bool, u64)>) -> nat
    decreases frames.len(),
{
    if frames.len() == 0 {
        0
    } else {
        net_rotation(frames.drop_last()) + rotation_step(
            frames.last().0,
            frames.last().1 as nat,
        )
    }
}

/// The angle, in nanoradians, by which the target turns about its vertical
/// axis in a frame of `delta_nanos` nanoseconds: the fixed rate times the
/// frame time while running, nothing while paused.
pub fn rotation_angle(running: bool, delta_nanos: u64) -> (r: u64)
    ensures
        r == rotation_step(running, delta_nanos as nat),
{
    if running {
        delta_nanos * NANORADIANS_PER_NANOSECOND
    } else {
        0
    }
}

/// Pausing gates the rotation exactly: over any frames that are all paused
/// the net rotation is zero, and one running frame of `dt` turns the target
/// by exactly the rate times `dt`.
pub proof fn lemma_pause_gates_rotation(frames: Seq<(bool, u64)>, dt: u64)
    ensures
        (forall|k: int| 0 <= k < frames.len() ==> !(#[trigger] frames[k]).0) ==> net_rotation(
            frames,
        ) == 0,
        net_rotation(seq![(true, dt)]) == dt * NANORADIANS_PER_NANOSECOND,
    decreases frames.len(),
{
    if frames.len() > 0 {
        lemma_pause_gates_rotation(frames.drop_last(), dt);
        if forall|k: int| 0 <= k < frames.len() ==> !(#[trigger] frames[k]).0 {
            assert(!frames[frames.len() - 1].0);
            assert forall|k: int| 0 <= k < frames.drop_last().len() implies !(
            #[trigger] frames.drop_last()[k]).0 by {
                assert(frames.drop_last()[k] == frames[k]);
            }
        }
    }
    let one = seq![(true, dt)];
    assert(one.drop_last() =~= Seq::<(bool, u64)>::empty());
    assert(net_rotation(one.drop_last()) == 0);
    assert(one.last() == (true, dt));
    assert(net_rotation(one) == rotation_step(true, dt as nat));
}

} // verus!
