//! The classic style: filled columns shown as `=` inside `[` and `]`.

use vstd::prelude::*;
use vstd::string::StringExecFns;

use crate::ProgressBar;
use crate::TaskProgress;
use crate::TaskView;
use crate::bar::bar_width;
use crate::bar::clamped_current;
use crate::bar::filled_cols;
use crate::bar::lemma_filled_cols_bounds;
use crate::bar::lemma_scale_fits;
use crate::bar::no_room;
use crate::bar::wrap_line;
use crate::text::append_opt;
use crate::text::append_repeat;
use crate::text::opt_label_len;
use crate::text::rep;
use crate::text::spaces_string;
use core::marker::PhantomData;

verus! {

/// The bar body of the classic style: filled columns of `=`, then spaces.
pub open spec fn classic_bar(t: TaskView, bw: int) -> Seq<char> {
    rep('=', filled_cols(t, bw)) + rep(' ', bw - filled_cols(t, bw))
}

/// The full line the classic style renders for snapshot `t` at width `w`.
pub open spec fn classic_line(t: TaskView, w: int) -> Seq<char> {
    if no_room(t, w) {
        rep(' ', w)
    } else {
        wrap_line(t, classic_bar(t, bar_width(t, w)))
    }
}

/// A classic line is always exactly `w` characters, for every snapshot.
pub proof fn lemma_classic_line_len(t: TaskView, w: int)
    requires
        w >= 0,
    ensures
        classic_line(t, w).len() == w,
{
    if !no_room(t, w) {
        lemma_filled_cols_bounds(t, bar_width(t, w));
    }
}

/// At zero progress the classic bar body holds no filled glyph; at (or past)
/// full progress it is filled glyphs throughout.
pub proof fn lemma_classic_extremes(t: TaskView, w: int)
    requires
        !no_room(t, w),
    ensures
        t.current == 0 ==> classic_line(t, w) == wrap_line(t, rep(' ', bar_width(t, w))),
        t.current >= t.total ==> classic_line(t, w) == wrap_line(t, rep('=', bar_width(t, w))),
{
    let bw = bar_width(t, w);
    lemma_filled_cols_bounds(t, bw);
    if t.current == 0 {
        assert(classic_bar(t, bw) =~= rep(' ', bw));
    }
    if t.current >= t.total {
        assert(classic_bar(t, bw) =~= rep('=', bw));
    }
}

/// A classic progress bar, using `[=   ]` to show progress.
pub struct ClassicProgressBar<T: TaskProgress> {
    _phantom: PhantomData<T>,
}

impl<T: TaskProgress> ClassicProgressBar<T> {
    /// Creates a new ClassicProgressBar.
    pub fn new() -> Self {
        ClassicProgressBar { _phantom: PhantomData }
    }
}

impl<T: TaskProgress> ProgressBar for ClassicProgressBar<T> {
    type Task = T;

    open spec fn line_spec(&self, t: TaskView, w: int) -> Seq<char> {
        classic_line(t, w)
    }

    proof fn lemma_line_len(&self, t: TaskView, w: int) {
        lemma_classic_line_len(t, w);
    }

    #[verifier::rlimit(50)]
    fn format_line(&self, progress: &T, width: usize) -> (r: String) {
        let ghost t = progress.task_view();
        let (current, total) = progress.progress();
        let before = progress.before();
        let after = progress.after();

        if total == 0 {
            return spaces_string(width);
        }
        let before_len: usize = opt_label_len(&before);
        let after_len: usize = opt_label_len(&after);
        if width < 2 || before_len > width - 2 || after_len > width - 2 - before_len {
            return spaces_string(width);
        }
        let bar_w: usize = width - 2 - before_len - after_len;
        let clamped: u64 = if current > total {
            total
        } else {
            current
        };
        proof {
            lemma_filled_cols_bounds(t, bar_w as int);
            lemma_scale_fits(clamped as int, bar_w as int);
            assert(clamped as int == clamped_current(t));
        }
        let scaled: u128 = (clamped as u128) * (bar_w as u128);
        let filled: usize = (scaled / (total as u128)) as usize;
        proof {
            assert(scaled as int == clamped_current(t) * (bar_w as int));
            assert(filled as int == filled_cols(t, bar_w as int));
            reveal_strlit("[");
            reveal_strlit("]");
            reveal_strlit("=");
            reveal_strlit(" ");
        }

        let mut line = String::new();
        append_opt(&mut line, &before);
        line.append("[");
        append_repeat(&mut line, "=", filled);
        append_repeat(&mut line, " ", bar_w - filled);
        line.append("]");
        append_opt(&mut line, &after);
        proof {
            assert("["@ =~= seq!['[']);
            assert("]"@ =~= seq![']']);
            assert(line@ =~= classic_line(t, width as int));
            lemma_classic_line_len(t, width as int);
        }
        line
    }
}

} // verus!
