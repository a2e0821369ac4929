//! The block style: whole filled columns drawn as full blocks, and the next
//! column drawn as one of eight partial-block glyphs, for sub-character
//! resolution.

use vstd::prelude::*;
use vstd::string::StringExecFns;

use crate::ProgressBar;
use crate::TaskProgress;
use crate::TaskView;
use crate::bar::bar_width;
use crate::bar::clamped_current;
use crate::bar::filled_cols;
use crate::bar::filled_rem;
use crate::bar::lemma_filled_cols_bounds;
use crate::bar::lemma_scale_fits;
use crate::bar::no_room;
use crate::bar::wrap_line;
use crate::text::append_opt;
use crate::text::append_repeat;
use crate::text::opt_label_len;
use crate::text::rep;
use crate::text::spaces_string;
use core::marker::PhantomData;
use vstd::arithmetic::div_mod::lemma_div_pos_is_pos;
use vstd::arithmetic::div_mod::lemma_fundamental_div_mod;
use vstd::arithmetic::div_mod::lemma_multiply_divide_lt;
use vstd::arithmetic::mul::lemma_mul_inequality;
use vstd::arithmetic::mul::lemma_mul_is_commutative;
use vstd::arithmetic::mul::lemma_mul_strict_inequality_converse;

verus! {

/// The 9-glyph ramp: one blank glyph, then the eight increasingly filled
/// eighth-block glyphs.
pub open spec fn ramp(i: int) -> char {
    if i <= 0 {
        ' '
    } else if i == 1 {
        '\u{258f}'
    } else if i == 2 {
        '\u{258e}'
    } else if i == 3 {
        '\u{258d}'
    } else if i == 4 {
        '\u{258c}'
    } else if i == 5 {
        '\u{258b}'
    } else if i == 6 {
        '\u{258a}'
    } else if i == 7 {
        '\u{2589}'
    } else {
        '\u{2588}'
    }
}

/// Index into the ramp for the partial column: the floor of eight times the
/// fractional occupancy of the next column.
pub open spec fn partial_index(t: TaskView, bw: int) -> int {
    filled_rem(t, bw) * 8 / (t.total as int)
}

/// 1 when a partial glyph is drawn, 0 when the progress falls on a whole
/// column.
pub open spec fn partial_count(t: TaskView, bw: int) -> int {
    if filled_rem(t, bw) > 0 {
        1
    } else {
        0
    }
}

/// The bar body of the block style: whole filled columns, at most one
/// partial glyph, then spaces.
pub open spec fn block_bar(t: TaskView, bw: int) -> Seq<char> {
    rep('\u{2588}', filled_cols(t, bw)) + (if filled_rem(t, bw) > 0 {
        seq![ramp(partial_index(t, bw))]
    } else {
        Seq::<char>::empty()
    }) + rep(' ', bw - filled_cols(t, bw) - partial_count(t, bw))
}

/// The full line the block style renders for snapshot `t` at width `w`.
pub open spec fn block_line(t: TaskView, w: int) -> Seq<char> {
    if no_room(t, w) {
        rep(' ', w)
    } else {
        wrap_line(t, block_bar(t, bar_width(t, w)))
    }
}

/// Filled columns plus the partial glyph, if any, never exceed the bar
/// width, so the space padding makes the three counts sum to exactly the
/// bar width; the partial glyph, when present, stands right after the
/// filled columns and comes from the ramp at the index of eight times the
/// remainder, which lies between 0 and 7.
pub proof fn lemma_block_counts(t: TaskView, bw: int)
    requires
        t.total > 0,
        bw >= 0,
    ensures
        0 <= filled_cols(t, bw),
        filled_cols(t, bw) + partial_count(t, bw) <= bw,
        filled_cols(t, bw) + partial_count(t, bw) + (bw - filled_cols(t, bw) - partial_count(
            t,
            bw,
        )) == bw,
        block_bar(t, bw).len() == bw,
        filled_rem(t, bw) > 0 ==> 0 <= partial_index(t, bw) <= 7,
        filled_rem(t, bw) > 0 ==> block_bar(t, bw)[filled_cols(t, bw)] == ramp(
            partial_index(t, bw),
        ),
{
    let c = clamped_current(t);
    let tt = t.total as int;
    let scaled = c * bw;
    let complete = filled_cols(t, bw);
    let r = filled_rem(t, bw);
    lemma_filled_cols_bounds(t, bw);
    if r > 0 {
        lemma_fundamental_div_mod(scaled, tt);
        lemma_mul_inequality(c, tt, bw);
        lemma_mul_is_commutative(tt, complete);
        lemma_mul_is_commutative(tt, bw);
        assert(tt * complete < tt * bw);
        assert(complete * tt < bw * tt);
        lemma_mul_strict_inequality_converse(complete, bw, tt);
        lemma_div_pos_is_pos(r * 8, tt);
        assert(r * 8 < tt * 8);
        lemma_multiply_divide_lt(r * 8, tt, 8);
    }
}

/// A block line is always exactly `w` characters, for every snapshot.
pub proof fn lemma_block_line_len(t: TaskView, w: int)
    requires
        w >= 0,
    ensures
        block_line(t, w).len() == w,
{
    if !no_room(t, w) {
        lemma_block_counts(t, bar_width(t, w));
    }
}

/// The one-character string holding ramp glyph `i` (the full block for any
/// index past the end of the ramp).
fn ramp_glyph(i: usize) -> (r: &'static str)
    ensures
        r@ =~= seq![ramp(i as int)],
{
    proof {
        reveal_strlit(" ");
        reveal_strlit("\u{258f}");
        reveal_strlit("\u{258e}");
        reveal_strlit("\u{258d}");
        reveal_strlit("\u{258c}");
        reveal_strlit("\u{258b}");
        reveal_strlit("\u{258a}");
        reveal_strlit("\u{2589}");
        reveal_strlit("\u{2588}");
    }
    if i == 0 {
        " "
    } else if i == 1 {
        "\u{258f}"
    } else if i == 2 {
        "\u{258e}"
    } else if i == 3 {
        "\u{258d}"
    } else if i == 4 {
        "\u{258c}"
    } else if i == 5 {
        "\u{258b}"
    } else if i == 6 {
        "\u{258a}"
    } else if i == 7 {
        "\u{2589}"
    } else {
        "\u{2588}"
    }
}

/// A progress bar using block characters to show progress.
pub struct BlockProgressBar<T: TaskProgress> {
    _phantom: PhantomData<T>,
}

impl<T: TaskProgress> BlockProgressBar<T> {
    /// Creates a new BlockProgressBar.
    pub fn new() -> Self {
        BlockProgressBar { _phantom: PhantomData }
    }
}

impl<T: TaskProgress> ProgressBar for BlockProgressBar<T> {
    type Task = T;

    open spec fn line_spec(&self, t: TaskView, w: int) -> Seq<char> {
        block_line(t, w)
    }

    proof fn lemma_line_len(&self, t: TaskView, w: int) {
        lemma_block_line_len(t, w);
    }

    #[verifier::rlimit(50)]
    fn format_line(&self, progress: &T, width: usize) -> (r: String) {
        let ghost t = progress.task_view();
        let (current, total) = progress.progress();
        let before = progress.before();
        let after = progress.after();

        if total == 0 {
            return spaces_string(width);
        }
        let before_len: usize = opt_label_len(&before);
        let after_len: usize = opt_label_len(&after);
        if width < 2 || before_len > width - 2 || after_len > width - 2 - before_len {
            return spaces_string(width);
        }
        let bar_w: usize = width - 2 - before_len - after_len;
        let clamped: u64 = if current > total {
            total
        } else {
            current
        };
        proof {
            lemma_filled_cols_bounds(t, bar_w as int);
            lemma_block_counts(t, bar_w as int);
            lemma_scale_fits(clamped as int, bar_w as int);
            assert(clamped as int == clamped_current(t));
        }
        let scaled: u128 = (clamped as u128) * (bar_w as u128);
        let complete: usize = (scaled / (total as u128)) as usize;
        let remainder: u128 = scaled % (total as u128);
        proof {
            assert(scaled as int == clamped_current(t) * (bar_w as int));
            assert(complete as int == filled_cols(t, bar_w as int));
            assert(remainder as int == filled_rem(t, bar_w as int));
            reveal_strlit("[");
            reveal_strlit("]");
            reveal_strlit(" ");
            reveal_strlit("\u{2588}");
        }

        let mut line = String::new();
        append_opt(&mut line, &before);
        line.append("[");
        append_repeat(&mut line, "\u{2588}", complete);
        let mut partial: usize = 0;
        if remainder > 0 {
            let index: usize = ((remainder * 8) / (total as u128)) as usize;
            proof {
                assert(index as int == partial_index(t, bar_w as int));
            }
            line.append(ramp_glyph(index));
            partial = 1;
        }
        append_repeat(&mut line, " ", bar_w - complete - partial);
        line.append("]");
        append_opt(&mut line, &after);
        proof {
            assert("["@ =~= seq!['[']);
            assert("]"@ =~= seq![']']);
            assert(line@ =~= block_line(t, width as int));
            lemma_block_line_len(t, width as int);
        }
        line
    }
}

} // verus!
