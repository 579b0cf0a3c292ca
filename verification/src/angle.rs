//! Fixed-point angles.
//!
//! An angle is a number of microradians held in an `i64`. A full turn is
//! `FULL_TURN` microradians; an angle is *normalized* when it lies in
//! `[-HALF_TURN, HALF_TURN)`, the integer counterpart of `[-pi, pi)`.

use vstd::prelude::*;

verus! {

/// One eighth of a full turn (45 degrees), in microradians.
pub const EIGHTH_TURN: i64 = 785_398;

/// A quarter turn (90 degrees), in microradians.
pub const QUARTER_TURN: i64 = 2 * EIGHTH_TURN;

/// A half turn (180 degrees), in microradians.
pub const HALF_TURN: i64 = 4 * EIGHTH_TURN;

/// A full turn (360 degrees), in microradians.
pub const FULL_TURN: i64 = 8 * EIGHTH_TURN;

/// An angle is normalized when it lies in `[-HALF_TURN, HALF_TURN)`.
pub open spec fn is_normalized(a: int) -> bool {
    -HALF_TURN <= a < HALF_TURN
}

/// The normalized angle equal to `a` modulo a full turn.
pub open spec fn wrapped(a: int) -> int {
    (a + HALF_TURN) % (FULL_TURN as int) - HALF_TURN
}

/// A normalized angle is its own normalized form.
pub proof fn lemma_wrapped_identity(a: int)
    requires
        is_normalized(a),
    ensures
        wrapped(a) == a,
{
    vstd::arithmetic::div_mod::lemma_small_mod((a + HALF_TURN) as nat, FULL_TURN as nat);
}

proof fn lemma_wrapped_unique(a: int, r: int, k: int)
    requires
        is_normalized(r),
        r == a + k * FULL_TURN,
    ensures
        r == wrapped(a),
{
    vstd::arithmetic::div_mod::lemma_mod_multiples_vanish(-k, r + HALF_TURN, FULL_TURN as int);
    assert(a + HALF_TURN == (FULL_TURN as int) * (-k) + (r + HALF_TURN)) by (nonlinear_arith)
        requires
            r == a + k * FULL_TURN,
    ;
    vstd::arithmetic::div_mod::lemma_small_mod((r + HALF_TURN) as nat, FULL_TURN as nat);
}

/// Bring an angle to its normalized form, keeping it the same modulo a full
/// turn.
pub fn wrap_angle(a: i64) -> (r: i64)
    ensures
        r == wrapped(a as int),
        is_normalized(r as int),
{
    let mut r: i64 = a;
    let ghost mut k: int = 0;
    while r >= HALF_TURN
        invariant
            r == a + k * FULL_TURN,
        decreases r + HALF_TURN,
    {
        r = r - FULL_TURN;
        proof {
            assert((k - 1) * FULL_TURN == k * FULL_TURN - FULL_TURN) by (nonlinear_arith);
            k = k - 1;
        }
    }
    while r < -HALF_TURN
        invariant
            r == a + k * FULL_TURN,
            r < HALF_TURN,
        decreases HALF_TURN - r,
    {
        r = r + FULL_TURN;
        proof {
            assert((k + 1) * FULL_TURN == k * FULL_TURN + FULL_TURN) by (nonlinear_arith);
            k = k + 1;
        }
    }
    proof {
        lemma_wrapped_unique(a as int, r as int, k);
    }
    r
}

} // verus!
