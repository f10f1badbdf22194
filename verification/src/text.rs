use vstd::prelude::*;
use vstd::string::StrSliceExecFns;

verus! {

/// A run of `n` blank cells.
pub open spec fn spaces(n: nat) -> Seq<char> {
    Seq::new(n, |i: int| ' ')
}

/// The characters of each line of a text block.
pub open spec fn line_views(lines: Seq<String>) -> Seq<Seq<char>> {
    lines.map_values(|s: String| s@)
}

/// The width of the widest line of a block, in character cells.
pub open spec fn max_width(lines: Seq<Seq<char>>) -> nat
    decreases lines.len(),
{
    if lines.len() == 0 {
        0
    } else {
        let rest = max_width(lines.drop_last());
        if lines.last().len() > rest {
            lines.last().len()
        } else {
            rest
        }
    }
}

/// No line of a block is wider than the block's width.
pub proof fn lemma_max_width_bound(lines: Seq<Seq<char>>, i: int)
    requires
        0 <= i < lines.len(),
    ensures
        lines[i].len() <= max_width(lines),
    decreases lines.len(),
{
    if i < lines.len() - 1 {
        lemma_max_width_bound(lines.drop_last(), i);
        assert(lines.drop_last()[i] == lines[i]);
    }
}

/// Relies on String::push: appends the given character to the end of the string.
#[verifier::external_body]
pub(crate) fn push_char(s: &mut String, c: char)
    ensures
        final(s)@ == old(s)@.push(c),
{
    s.push(c);
}

/// A line of `n` blank cells.
pub fn blank_line(n: usize) -> (r: String)
    ensures
        r@ == spaces(n as nat),
{
    let mut r = String::new();
    let mut i: usize = 0;
    while i < n
        invariant
            i <= n,
            r@ == spaces(i as nat),
        decreases n - i,
    {
        push_char(&mut r, ' ');
        proof {
            assert(spaces(i as nat).push(' ') =~= spaces((i + 1) as nat));
        }
        i = i + 1;
    }
    r
}

/// A copy of a text block, line for line.
pub fn clone_lines(v: &Vec<String>) -> (r: Vec<String>)
    ensures
        r@ == v@,
{
    let mut r: Vec<String> = Vec::new();
    let mut i: usize = 0;
    while i < v.len()
        invariant
            i <= v@.len(),
            r@ =~= v@.take(i as int),
        decreases v@.len() - i,
    {
        let s = v[i].clone();
        r.push(s);
        proof {
            assert(r@ =~= v@.take((i + 1) as int));
        }
        i = i + 1;
    }
    proof {
        assert(v@.take(v@.len() as int) =~= v@);
        assert(r@ =~= v@);
    }
    r
}

/// The width of the widest line of a text block, in character cells.
pub fn max_line_width(lines: &Vec<String>) -> (w: usize)
    ensures
        w as nat == max_width(line_views(lines@)),
{
    let ghost s = line_views(lines@);
    let mut w: usize = 0;
    let mut i: usize = 0;
    while i < lines.len()
        invariant
            i <= lines@.len(),
            s == line_views(lines@),
            s.len() == lines@.len(),
            w as nat == max_width(s.take(i as int)),
        decreases lines@.len() - i,
    {
        let li = lines[i].as_str().unicode_len();
        proof {
            assert(s.take((i + 1) as int).drop_last() =~= s.take(i as int));
            assert(s.take((i + 1) as int).last() == s[i as int]);
            assert(s[i as int] == lines@[i as int]@);
        }
        if li > w {
            w = li;
        }
        i = i + 1;
    }
    proof {
        assert(s.take(lines@.len() as int) =~= s);
    }
    w
}

} // verus!
