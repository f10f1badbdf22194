use vstd::prelude::*;
use vstd::string::StrSliceExecFns;

use crate::text::{blank_line, line_views, lemma_max_width_bound, max_line_width, max_width,
    push_char, spaces};

verus! {

/// The larger of two sizes.
pub open spec fn nat_max(a: nat, b: nat) -> nat {
    if a > b {
        a
    } else {
        b
    }
}

/// One line centered in a row of `total` cells: `left` blanks, the line, blanks to fill.
pub open spec fn pad_line(line: Seq<char>, left: nat, total: nat) -> Seq<char>
    recommends
        left + line.len() <= total,
{
    spaces(left) + line + spaces(
        if left + line.len() <= total {
            (total - left - line.len()) as nat
        } else {
            0
        },
    )
}

/// A text block centered in a `tw` by `th` panel. The block keeps its natural size
/// where the panel is smaller: padding saturates at zero and never truncates.
pub open spec fn fit_spec(lines: Seq<Seq<char>>, tw: nat, th: nat) -> Seq<Seq<char>> {
    let fw = max_width(lines);
    let fh = lines.len();
    let w = nat_max(tw, fw);
    let h = nat_max(th, fh);
    let left = (if tw >= fw {
        (tw - fw) as nat
    } else {
        0
    }) / 2;
    let top = (if th >= fh {
        (th - fh) as nat
    } else {
        0
    }) / 2;
    Seq::new(
        h,
        |i: int|
            if i < top {
                spaces(w)
            } else if i < top + fh {
                pad_line(lines[i - top], left, w)
            } else {
                spaces(w)
            },
    )
}

/// Law: fitting never truncates. The result has `max(th, block height)` lines and
/// every line has exactly `max(tw, block width)` cells, whatever the block holds.
pub proof fn lemma_fit_dimensions(lines: Seq<Seq<char>>, tw: nat, th: nat)
    ensures
        fit_spec(lines, tw, th).len() == nat_max(th, lines.len()),
        forall|i: int|
            0 <= i < fit_spec(lines, tw, th).len() ==> #[trigger] fit_spec(lines, tw, th)[i].len()
                == nat_max(tw, max_width(lines)),
{
    let fw = max_width(lines);
    let fh = lines.len();
    let w = nat_max(tw, fw);
    let left = (if tw >= fw {
        (tw - fw) as nat
    } else {
        0
    }) / 2;
    let top = (if th >= fh {
        (th - fh) as nat
    } else {
        0
    }) / 2;
    assert forall|i: int| 0 <= i < fit_spec(lines, tw, th).len() implies #[trigger] fit_spec(
        lines,
        tw,
        th,
    )[i].len() == w by {
        if top <= i < top + fh {
            lemma_max_width_bound(lines, i - top);
            assert(left + lines[i - top].len() <= w);
        }
    }
}

/// Centers a text block inside a `target_width` by `target_height` panel, padding
/// with blank cells and never truncating. Pure: depends on its arguments alone.
pub fn fit(frame: &Vec<String>, target_width: usize, target_height: usize) -> (out: Vec<String>)
    ensures
        line_views(out@) == fit_spec(line_views(frame@), target_width as nat, target_height as nat),
{
    let ghost src = line_views(frame@);
    let ghost goal = fit_spec(src, target_width as nat, target_height as nat);
    let fw = max_line_width(frame);
    let fh = frame.len();
    let w = if target_width > fw {
        target_width
    } else {
        fw
    };
    let h = if target_height > fh {
        target_height
    } else {
        fh
    };
    let hpad = if target_width >= fw {
        target_width - fw
    } else {
        0
    };
    let left = hpad / 2;
    let vpad = if target_height >= fh {
        target_height - fh
    } else {
        0
    };
    let top = vpad / 2;
    proof {
        assert(src.len() == frame@.len());
        assert(goal.len() == h as nat);
        assert(top + fh <= h);
    }
    let mut out: Vec<String> = Vec::new();
    let mut i: usize = 0;
    while i < top
        invariant
            i <= top,
            fh == frame@.len(),
            src == line_views(frame@),
            goal == fit_spec(src, target_width as nat, target_height as nat),
            goal.len() == h as nat,
            top + fh <= h,
            top as nat == (if target_height >= frame@.len() {
                (target_height - frame@.len()) as nat
            } else {
                0
            }) / 2,
            w as nat == nat_max(target_width as nat, max_width(src)),
            out@.len() == i,
            line_views(out@) =~= goal.take(i as int),
        decreases top - i,
    {
        let b = blank_line(w);
        out.push(b);
        proof {
            assert(goal[i as int] == spaces(w as nat));
            assert(line_views(out@) =~= goal.take((i + 1) as int));
        }
        i = i + 1;
    }
    let mut j: usize = 0;
    while j < fh
        invariant
            j <= fh,
            fh == frame@.len(),
            src == line_views(frame@),
            goal == fit_spec(src, target_width as nat, target_height as nat),
            top as nat == (if target_height >= frame@.len() {
                (target_height - frame@.len()) as nat
            } else {
                0
            }) / 2,
            left as nat == (if target_width >= max_width(src) {
                (target_width - max_width(src)) as nat
            } else {
                0
            }) / 2,
            w as nat == nat_max(target_width as nat, max_width(src)),
            goal.len() == h as nat,
            top + fh <= h,
            out@.len() == top + j,
            line_views(out@) =~= goal.take((top + j) as int),
        decreases fh - j,
    {
        proof {
            lemma_max_width_bound(src, j as int);
        }
        let len = frame[j].as_str().unicode_len();
        let mut line = blank_line(left);
        let mut k: usize = 0;
        while k < len
            invariant
                k <= len,
                j < frame@.len(),
                src == line_views(frame@),
                len as nat == src[j as int].len(),
                left + len <= w,
                line@ =~= spaces(left as nat) + src[j as int].take(k as int),
            decreases len - k,
        {
            let c = frame[j].as_str().get_char(k);
            push_char(&mut line, c);
            proof {
                assert(line@ =~= spaces(left as nat) + src[j as int].take((k + 1) as int));
            }
            k = k + 1;
        }
        let mut m: usize = 0;
        let fill = w - left - len;
        while m < fill
            invariant
                m <= fill,
                j < frame@.len(),
                src == line_views(frame@),
                len as nat == src[j as int].len(),
                line@ =~= spaces(left as nat) + src[j as int] + spaces(m as nat),
            decreases fill - m,
        {
            push_char(&mut line, ' ');
            proof {
                assert(line@ =~= spaces(left as nat) + src[j as int] + spaces((m + 1) as nat));
            }
            m = m + 1;
        }
        proof {
            assert(src[j as int].take(len as int) =~= src[j as int]);
            assert(goal[(top + j) as int] == pad_line(src[j as int], left as nat, w as nat));
            assert(line@ =~= pad_line(src[j as int], left as nat, w as nat));
        }
        out.push(line);
        proof {
            assert(line_views(out@) =~= goal.take((top + j + 1) as int));
        }
        j = j + 1;
    }
    let mut q: usize = out.len();
    while q < h
        invariant
            out@.len() == q,
            top + fh <= q <= h,
            h as nat == goal.len(),
            goal == fit_spec(src, target_width as nat, target_height as nat),
            top as nat == (if target_height >= frame@.len() {
                (target_height - frame@.len()) as nat
            } else {
                0
            }) / 2,
            fh == frame@.len(),
            src == line_views(frame@),
            w as nat == nat_max(target_width as nat, max_width(src)),
            line_views(out@) =~= goal.take(q as int),
        decreases h - q,
    {
        let b = blank_line(w);
        out.push(b);
        proof {
            assert(goal[q as int] == spaces(w as nat));
            assert(line_views(out@) =~= goal.take((q + 1) as int));
        }
        q = q + 1;
    }
    proof {
        assert(goal.take(goal.len() as int) =~= goal);
        assert(line_views(out@) == goal);
    }
    out
}

} // verus!
