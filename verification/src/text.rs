//! Character-sequence helpers shared by the line formatters and the renderer:
//! repeated glyphs, optional labels, and right-padding to a fixed width.

use vstd::prelude::*;
use vstd::string::StrSliceExecFns;
use vstd::string::StringExecFns;

verus! {

/// `n` copies of the character `c` (empty when `n <= 0`).
pub open spec fn rep(c: char, n: int) -> Seq<char> {
    if n <= 0 {
        Seq::empty()
    } else {
        Seq::new(n as nat, |i| c)
    }
}

/// The view of an optional string: its characters, or `None`.
pub open spec fn opt_view(o: Option<String>) -> Option<Seq<char>> {
    match o {
        Some(s) => Some(s@),
        None => None,
    }
}

/// Length of an optional label; an absent label counts as zero.
pub open spec fn opt_len(o: Option<Seq<char>>) -> int {
    match o {
        Some(s) => s.len() as int,
        None => 0,
    }
}

/// The characters of an optional label; empty when absent.
pub open spec fn opt_seq(o: Option<Seq<char>>) -> Seq<char> {
    match o {
        Some(s) => s,
        None => Seq::empty(),
    }
}

/// `s` padded on the right with spaces to width `w`; unchanged when it is
/// already at least `w` characters long.
pub open spec fn pad_right(s: Seq<char>, w: int) -> Seq<char> {
    if s.len() >= w {
        s
    } else {
        s + rep(' ', w - s.len())
    }
}

/// Character length of an optional label.
pub fn opt_label_len(o: &Option<String>) -> (l: usize)
    ensures
        l as int == opt_len(opt_view(*o)),
{
    match o {
        Some(s) => s.as_str().unicode_len(),
        None => 0,
    }
}

/// Appends an optional label to `s`; an absent label appends nothing.
pub fn append_opt(s: &mut String, o: &Option<String>)
    ensures
        final(s)@ == old(s)@ + opt_seq(opt_view(*o)),
{
    match o {
        Some(p) => s.append(p.as_str()),
        None => {
            proof {
                assert(s@ =~= old(s)@ + opt_seq(opt_view(*o)));
            }
        },
    }
}

/// Appends `n` copies of the single character of `piece` to `s`.
pub fn append_repeat(s: &mut String, piece: &str, n: usize)
    requires
        piece@.len() == 1,
    ensures
        final(s)@ == old(s)@ + rep(piece@[0], n as int),
{
    proof {
        assert(s@ =~= old(s)@ + rep(piece@[0], 0));
    }
    let mut i: usize = 0;
    while i < n
        invariant
            i <= n,
            piece@.len() == 1,
            s@ == old(s)@ + rep(piece@[0], i as int),
        decreases n - i,
    {
        s.append(piece);
        proof {
            assert(old(s)@ + rep(piece@[0], (i + 1) as int) =~= (old(s)@ + rep(
                piece@[0],
                i as int,
            )) + piece@);
        }
        i = i + 1;
    }
}

/// A string of exactly `n` spaces.
pub fn spaces_string(n: usize) -> (r: String)
    ensures
        r@ == rep(' ', n as int),
{
    proof {
        reveal_strlit(" ");
    }
    let mut s = String::new();
    append_repeat(&mut s, " ", n);
    proof {
        assert(s@ =~= rep(' ', n as int));
    }
    s
}

/// `msg` padded on the right with spaces to `width` characters; a longer
/// message is returned unchanged.
pub fn pad_line(msg: &str, width: usize) -> (r: String)
    ensures
        r@ == pad_right(msg@, width as int),
{
    let mut s = String::from_str(msg);
    let n: usize = msg.unicode_len();
    if n < width {
        proof {
            reveal_strlit(" ");
        }
        append_repeat(&mut s, " ", width - n);
    }
    s
}

} // verus!
