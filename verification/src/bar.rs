//! Premade progress bar styles, and the bar geometry that they share.
//!
//! Both styles render `before + "[" + bar + "]" + after` once there is room,
//! and a line of spaces when the totals are unknown or the labels leave no
//! room for the two brackets.

use vstd::prelude::*;

use crate::TaskView;
use crate::bar::block::block_line;
use crate::bar::classic::classic_line;
use crate::text::opt_len;
use crate::text::opt_seq;
use crate::text::rep;
use vstd::arithmetic::div_mod::lemma_basic_div;
use vstd::arithmetic::div_mod::lemma_div_is_ordered;
use vstd::arithmetic::div_mod::lemma_div_multiples_vanish;
use vstd::arithmetic::div_mod::lemma_div_pos_is_pos;
use vstd::arithmetic::div_mod::lemma_mod_multiples_basic;
use vstd::arithmetic::mul::lemma_mul_inequality;
use vstd::arithmetic::mul::lemma_mul_is_commutative;
use vstd::arithmetic::mul::lemma_mul_nonnegative;

pub mod block;
pub mod classic;

verus! {

/// True when no bar can be shown at width `w`: the total is unknown, or the
/// labels plus the two brackets do not fit.
pub open spec fn no_room(t: TaskView, w: int) -> bool {
    t.total == 0 || opt_len(t.before) + opt_len(t.after) + 2 > w
}

/// Columns available to the bar body once labels and brackets are placed.
pub open spec fn bar_width(t: TaskView, w: int) -> int {
    w - opt_len(t.before) - opt_len(t.after) - 2
}

/// The current counter clamped to the total: progress past the end renders
/// as a full bar.
pub open spec fn clamped_current(t: TaskView) -> int {
    if t.current > t.total {
        t.total as int
    } else {
        t.current as int
    }
}

/// Whole filled columns: the floor of `current / total * bw`, with `current`
/// clamped to `total`.
pub open spec fn filled_cols(t: TaskView, bw: int) -> int {
    (clamped_current(t) * bw) / (t.total as int)
}

/// What remains of `current / total * bw` below the next whole column, as a
/// numerator over `total`.
pub open spec fn filled_rem(t: TaskView, bw: int) -> int {
    (clamped_current(t) * bw) % (t.total as int)
}

/// A whole rendered line: the optional labels around the bracketed bar body.
pub open spec fn wrap_line(t: TaskView, bar: Seq<char>) -> Seq<char> {
    opt_seq(t.before) + seq!['['] + bar + seq![']'] + opt_seq(t.after)
}

/// The filled-column count always lies between 0 and the bar width, the
/// remainder numerator below the total; at the two ends of the range the
/// bar is exactly empty or exactly full.
pub proof fn lemma_filled_cols_bounds(t: TaskView, bw: int)
    requires
        t.total > 0,
        bw >= 0,
    ensures
        0 <= filled_cols(t, bw) <= bw,
        0 <= filled_rem(t, bw) < t.total,
        t.current == 0 ==> filled_cols(t, bw) == 0 && filled_rem(t, bw) == 0,
        t.current >= t.total ==> filled_cols(t, bw) == bw && filled_rem(t, bw) == 0,
{
    let c = clamped_current(t);
    let tt = t.total as int;
    lemma_mul_nonnegative(c, bw);
    lemma_div_pos_is_pos(c * bw, tt);
    lemma_mul_inequality(c, tt, bw);
    lemma_div_is_ordered(c * bw, tt * bw, tt);
    lemma_div_multiples_vanish(bw, tt);
    lemma_mod_bound_helper(c * bw, tt);
    if t.current == 0 {
        lemma_basic_div(0, tt);
        assert(0int % tt == 0) by (nonlinear_arith)
            requires
                tt > 0,
        ;
    }
    if t.current >= t.total {
        lemma_mod_multiples_basic(bw, tt);
        lemma_mul_is_commutative(bw, tt);
    }
}

/// The product of a counter and a column count, both below 2^64, fits in
/// 128 bits.
pub proof fn lemma_scale_fits(c: int, bw: int)
    requires
        0 <= c < 0x1_0000_0000_0000_0000,
        0 <= bw < 0x1_0000_0000_0000_0000,
    ensures
        0 <= c * bw < 0x1_0000_0000_0000_0000_0000_0000_0000_0000,
{
    assert(0 <= c * bw < 0x1_0000_0000_0000_0000_0000_0000_0000_0000) by (nonlinear_arith)
        requires
            0 <= c < 0x1_0000_0000_0000_0000,
            0 <= bw < 0x1_0000_0000_0000_0000,
    ;
}

/// The remainder of a division by a positive number lies below it.
proof fn lemma_mod_bound_helper(x: int, d: int)
    requires
        x >= 0,
        d > 0,
    ensures
        0 <= x % d < d,
{
    assert(0 <= x % d < d) by (nonlinear_arith)
        requires
            x >= 0,
            d > 0,
    ;
}

/// A task whose total is zero renders as all spaces, in both styles,
/// whatever its counter and labels.
pub proof fn lemma_blank_when_total_zero(t: TaskView, w: int)
    requires
        t.total == 0,
    ensures
        classic_line(t, w) == rep(' ', w),
        block_line(t, w) == rep(' ', w),
{
}

/// When the labels plus the two brackets exceed the width, both styles
/// render all spaces.
pub proof fn lemma_blank_when_labels_overflow(t: TaskView, w: int)
    requires
        opt_len(t.before) + opt_len(t.after) + 2 > w,
    ensures
        classic_line(t, w) == rep(' ', w),
        block_line(t, w) == rep(' ', w),
{
}

} // verus!
