use vstd::prelude::*;

use crate::complex::Complex;

verus! {

// The escape-time loop, as a state machine.
//
// Per pixel sample the renderer starts from z = init(c) and repeats
//     while |z|^2 < bail and count < limit:
//         z = f(z, c); count += 1.0; smooth += exp(-|z|^2)
// The two comparisons and the three updated values are floating point,
// so the surrounding program computes them and hands them in as plain
// events; the decisions of the loop — whether to go on, and how a point
// is classified when it stops — are made here, with exact contracts.
// The counter and the accumulator are carried as IEEE 754
// single-precision bit patterns; the counter starts at the pattern of
// 0.0, which is 0.

/// The state of one escape-time evaluation.
#[derive(Clone, Copy, PartialEq, Eq, Structural, Debug)]
pub struct EscapeState {
    /// Current iterate, as bit patterns.
    pub z: Complex,
    /// Bit pattern of the iteration counter (a single-precision count,
    /// since the limit is float-typed).
    pub count: u32,
    /// Bit pattern of the smoothing accumulator.
    pub smooth: u32,
    /// The loop has stopped.
    pub done: bool,
    /// At the stop, the count was still below the limit: the point
    /// escaped. Points that reach the limit are presumed in the set.
    pub escaped: bool,
}

/// The state an evaluation starts from: z is the initializer's value,
/// both accumulators hold the bit pattern of 0.0 (which is 0), and the
/// loop is running.
pub open spec fn spec_escape_start(z0: Complex) -> EscapeState {
    EscapeState { z: z0, count: 0u32, smooth: 0u32, done: false, escaped: false }
}

/// One decision of the loop. `z_lt_bail` is the comparison
/// |z|^2 < bail and `count_lt_limit` the comparison count < limit, both
/// computed outside on the current state; `z_next`, `count_next` and
/// `smooth_next` are the updated values for one more iteration. While
/// both comparisons hold the loop advances to those values; the moment
/// either fails it stops, keeps its state, and classifies the point as
/// escaped exactly when the count is still below the limit.
pub open spec fn spec_escape_step(
    st: EscapeState,
    z_lt_bail: bool,
    count_lt_limit: bool,
    z_next: Complex,
    count_next: u32,
    smooth_next: u32,
) -> EscapeState {
    if z_lt_bail && count_lt_limit {
        EscapeState { z: z_next, count: count_next, smooth: smooth_next, done: false, escaped: false }
    } else {
        EscapeState {
            z: st.z,
            count: st.count,
            smooth: st.smooth,
            done: true,
            escaped: count_lt_limit,
        }
    }
}

pub fn escape_start(z0: Complex) -> (st: EscapeState)
    ensures
        st == spec_escape_start(z0),
{
    EscapeState { z: z0, count: 0u32, smooth: 0u32, done: false, escaped: false }
}

pub fn escape_step(
    st: EscapeState,
    z_lt_bail: bool,
    count_lt_limit: bool,
    z_next: Complex,
    count_next: u32,
    smooth_next: u32,
) -> (r: EscapeState)
    requires
        !st.done,
    ensures
        r == spec_escape_step(st, z_lt_bail, count_lt_limit, z_next, count_next, smooth_next),
{
    if z_lt_bail && count_lt_limit {
        EscapeState { z: z_next, count: count_next, smooth: smooth_next, done: false, escaped: false }
    } else {
        EscapeState {
            z: st.z,
            count: st.count,
            smooth: st.smooth,
            done: true,
            escaped: count_lt_limit,
        }
    }
}

/// A point whose very first bail-out check fails stops at once, with
/// the iteration counter still holding the bit pattern of 0.0 and the
/// starting z unchanged: no iteration is ever run for it.
pub proof fn lemma_immediate_bailout(
    z0: Complex,
    count_lt_limit: bool,
    z_next: Complex,
    count_next: u32,
    smooth_next: u32,
)
    ensures
        ({
            let r = spec_escape_step(
                spec_escape_start(z0),
                false,
                count_lt_limit,
                z_next,
                count_next,
                smooth_next,
            );
            r.done && r.count == 0u32 && r.smooth == 0u32 && r.z == z0 && r.escaped
                == count_lt_limit
        }),
{
}

/// While both comparisons hold the loop never stops: a stopped state
/// can only come from a failed comparison.
pub proof fn lemma_stop_needs_failed_check(
    st: EscapeState,
    z_lt_bail: bool,
    count_lt_limit: bool,
    z_next: Complex,
    count_next: u32,
    smooth_next: u32,
)
    ensures
        spec_escape_step(st, z_lt_bail, count_lt_limit, z_next, count_next, smooth_next).done
            <==> !(z_lt_bail && count_lt_limit),
{
}

} // verus!
