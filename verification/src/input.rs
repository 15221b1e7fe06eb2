//! Per-frame input decisions for the fly camera.
//!
//! Each frame the engine samples which pan keys are held and queues the
//! pointer-motion and scroll-wheel events that arrived. The functions here
//! turn those samples into the values the camera update needs: a signed unit
//! step per local axis for panning, the total pointer motion while the orbit
//! button is held, and the total scroll amount. The caller then scales these
//! by elapsed time, sensitivity and zoom level, and applies them to the
//! camera transform.

use vstd::prelude::*;

verus! {

/// Pan-key states sampled for one frame. Each field says whether the key
/// that moves the camera in the named direction of its own local frame is
/// currently held.
#[derive(Clone, Copy, Debug, PartialEq, Eq)]
pub struct PanKeys {
    /// Moves along local -Z, toward what the camera faces.
    pub forward: bool,
    /// Moves along local +Z, away from what the camera faces.
    pub back: bool,
    /// Moves along local -X.
    pub left: bool,
    /// Moves along local +X.
    pub right: bool,
    /// Moves along local -Y.
    pub descend: bool,
    /// Moves along local +Y.
    pub ascend: bool,
}

/// A pan direction in the camera's local frame: one signed unit step per
/// axis, each in {-1, 0, 1}. The caller multiplies it by the frame's pan
/// distance to obtain the local-space displacement.
#[derive(Clone, Copy, Debug, PartialEq, Eq)]
pub struct PanDirection {
    pub x: i32,
    pub y: i32,
    pub z: i32,
}

/// The step that an opposed pair of keys selects on one axis: the key for
/// the negative direction wins when both are held, and no key means no step.
pub open spec fn axis_step(neg: bool, pos: bool) -> int {
    if neg {
        -1
    } else if pos {
        1
    } else {
        0
    }
}

/// Maps the held pan keys to a direction in the camera's local frame.
///
/// On each axis the key for the negative direction takes priority over its
/// opposite, so holding both never cancels into drift toward the positive
/// side: forward wins over back, left over right, descend over ascend.
pub fn pan_direction(keys: &PanKeys) -> (d: PanDirection)
    ensures
        d.x == axis_step(keys.left, keys.right),
        d.y == axis_step(keys.descend, keys.ascend),
        d.z == axis_step(keys.forward, keys.back),
{
    let x: i32 = if keys.left {
        -1
    } else if keys.right {
        1
    } else {
        0
    };
    let y: i32 = if keys.descend {
        -1
    } else if keys.ascend {
        1
    } else {
        0
    };
    let z: i32 = if keys.forward {
        -1
    } else if keys.back {
        1
    } else {
        0
    };
    PanDirection { x, y, z }
}

/// One pointer-motion event: the pointer's pixel displacement since the
/// previous event, rightward and downward positive.
#[derive(Clone, Copy, Debug, PartialEq, Eq)]
pub struct MotionDelta {
    pub dx: i64,
    pub dy: i64,
}

/// Largest pixel displacement a single input event may carry. Far beyond
/// any real pointer or wheel motion; it only keeps a frame's total inside
/// the machine's integer range.
pub const MAX_EVENT_DELTA: i64 = 0x1_0000_0000;

/// Largest number of input events accumulated in one frame, for the same
/// reason.
pub const MAX_FRAME_EVENTS: usize = 4096;

/// The total rightward displacement of a run of pointer-motion events.
pub open spec fn sum_dx(s: Seq<MotionDelta>) -> int
    decreases s.len(),
{
    if s.len() == 0 {
        0
    } else {
        sum_dx(s.drop_last()) + s.last().dx
    }
}

/// The total downward displacement of a run of pointer-motion events.
pub open spec fn sum_dy(s: Seq<MotionDelta>) -> int
    decreases s.len(),
{
    if s.len() == 0 {
        0
    } else {
        sum_dy(s.drop_last()) + s.last().dy
    }
}

/// Accumulates the frame's pointer motion for orbiting.
///
/// The pointer steers the camera only while the orbit button is held: then
/// the result totals every queued event, and otherwise the motion is
/// discarded and the result is zero on both axes. The caller converts the
/// total to yaw and pitch increments.
pub fn orbit_motion(orbit_held: bool, events: &Vec<MotionDelta>) -> (total: MotionDelta)
    requires
        events@.len() <= MAX_FRAME_EVENTS,
        forall|j: int|
            0 <= j < events@.len() ==> -MAX_EVENT_DELTA <= #[trigger] events@[j].dx
                <= MAX_EVENT_DELTA && -MAX_EVENT_DELTA <= events@[j].dy <= MAX_EVENT_DELTA,
    ensures
        orbit_held ==> total.dx == sum_dx(events@) && total.dy == sum_dy(events@),
        !orbit_held ==> total.dx == 0 && total.dy == 0,
{
    if !orbit_held {
        return MotionDelta { dx: 0, dy: 0 };
    }
    let mut dx: i64 = 0;
    let mut dy: i64 = 0;
    let mut i: usize = 0;
    while i < events.len()
        invariant
            i <= events@.len(),
            events@.len() <= MAX_FRAME_EVENTS,
            forall|j: int|
                0 <= j < events@.len() ==> -MAX_EVENT_DELTA <= #[trigger] events@[j].dx
                    <= MAX_EVENT_DELTA && -MAX_EVENT_DELTA <= events@[j].dy <= MAX_EVENT_DELTA,
            dx == sum_dx(events@.subrange(0, i as int)),
            dy == sum_dy(events@.subrange(0, i as int)),
            -(i * MAX_EVENT_DELTA) <= dx <= i * MAX_EVENT_DELTA,
            -(i * MAX_EVENT_DELTA) <= dy <= i * MAX_EVENT_DELTA,
        decreases events@.len() - i,
    {
        let e = events[i];
        proof {
            assert(events@.subrange(0, i + 1).drop_last() =~= events@.subrange(0, i as int));
            assert(events@.subrange(0, i + 1).last() == events@[i as int]);
        }
        dx = dx + e.dx;
        dy = dy + e.dy;
        i = i + 1;
    }
    proof {
        assert(events@.subrange(0, events@.len() as int) =~= events@);
    }
    MotionDelta { dx, dy }
}

/// The total of a run of scroll-wheel events.
pub open spec fn sum_scroll(s: Seq<i64>) -> int
    decreases s.len(),
{
    if s.len() == 0 {
        0
    } else {
        sum_scroll(s.drop_last()) + s.last()
    }
}

/// Accumulates the frame's scroll-wheel events into one zoom amount: the
/// total of every queued step. A positive total moves the camera along its
/// local -Z axis, toward what it faces; a negative total moves it away. The
/// caller scales the amount by the zoom sensitivity.
pub fn zoom_amount(scroll: &Vec<i64>) -> (total: i64)
    requires
        scroll@.len() <= MAX_FRAME_EVENTS,
        forall|j: int|
            0 <= j < scroll@.len() ==> -MAX_EVENT_DELTA <= #[trigger] scroll@[j]
                <= MAX_EVENT_DELTA,
    ensures
        total == sum_scroll(scroll@),
{
    let mut total: i64 = 0;
    let mut i: usize = 0;
    while i < scroll.len()
        invariant
            i <= scroll@.len(),
            scroll@.len() <= MAX_FRAME_EVENTS,
            forall|j: int|
                0 <= j < scroll@.len() ==> -MAX_EVENT_DELTA <= #[trigger] scroll@[j]
                    <= MAX_EVENT_DELTA,
            total == sum_scroll(scroll@.subrange(0, i as int)),
            -(i * MAX_EVENT_DELTA) <= total <= i * MAX_EVENT_DELTA,
        decreases scroll@.len() - i,
    {
        let e = scroll[i];
        proof {
            assert(scroll@.subrange(0, i + 1).drop_last() =~= scroll@.subrange(0, i as int));
            assert(scroll@.subrange(0, i + 1).last() == scroll@[i as int]);
        }
        total = total + e;
        i = i + 1;
    }
    proof {
        assert(scroll@.subrange(0, scroll@.len() as int) =~= scroll@);
    }
    total
}

} // verus!
