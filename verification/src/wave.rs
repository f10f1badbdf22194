use vstd::prelude::*;

use crate::text::{blank_line, line_views, push_char};

verus! {

/// Integer division by 1000 that truncates toward zero, as a float-to-integer
/// conversion would after scaling a value expressed in thousandths.
pub open spec fn tdiv1000(a: int) -> int {
    if a >= 0 {
        a / 1000
    } else {
        -((-a) / 1000)
    }
}

/// A value clamped to the band `[-limit, limit]`.
pub open spec fn clamp_spec(a: int, limit: int) -> int {
    if a < -limit {
        -limit
    } else if a > limit {
        limit
    } else {
        a
    }
}

/// One column's amplitude: the wave sample (in thousandths of a full swing) scaled
/// by the burst strength (in thousandths), shifted by the jitter (in thousandths),
/// scaled to `center` rows, and clamped to `[-center, center]`.
pub open spec fn amp_value(wave_m: int, burst_m: int, jitter_m: int, center: int) -> int {
    clamp_spec(tdiv1000((tdiv1000(wave_m * burst_m) + jitter_m) * center), center)
}

/// The integer values of a vector of samples.
pub open spec fn int_view(s: Seq<i32>) -> Seq<int> {
    s.map_values(|v: i32| v as int)
}

/// The amplitude of every column, from the per-column wave samples and jitters and
/// the shared burst strength.
pub open spec fn amps_of(wave: Seq<int>, burst_m: int, jitters: Seq<int>, center: int) -> Seq<int> {
    Seq::new(wave.len(), |x: int| amp_value(wave[x], burst_m, jitters[x], center))
}

/// The sum of all amplitudes of a frame.
pub open spec fn amp_sum(amps: Seq<int>) -> int
    decreases amps.len(),
{
    if amps.len() == 0 {
        0
    } else {
        amp_sum(amps.drop_last()) + amps.last()
    }
}

/// The glyph drawn in a cell: filled on the wave line, half-shaded one row away,
/// blank elsewhere.
pub open spec fn glyph_at(y: int, target: int) -> char {
    if y == target {
        '█'
    } else if y == target - 1 || y == target + 1 {
        '▒'
    } else {
        ' '
    }
}

/// The waveform frame: in every column `x` the wave line sits `amps[x]` rows below
/// the vertical center.
pub open spec fn wave_grid(w: nat, h: nat, amps: Seq<int>) -> Seq<Seq<char>> {
    Seq::new(h, |y: int| Seq::new(w, |x: int| glyph_at(y, (h as int) / 2 + amps[x])))
}

/// The silence frame: a single filled line across the vertical center.
pub open spec fn flat_grid(w: nat, h: nat) -> Seq<Seq<char>> {
    Seq::new(
        h,
        |y: int|
            Seq::new(
                w,
                |x: int|
                    if y == (h as int) / 2 {
                        '█'
                    } else {
                        ' '
                    },
            ),
    )
}

/// Whether a frame's mean amplitude exceeds the audio threshold of a tenth of a row:
/// `|sum / columns| > 1/10`, written without the division.
pub open spec fn cue_triggered(sum: int, columns: nat) -> bool {
    columns > 0 && 10 * (if sum >= 0 {
        sum
    } else {
        -sum
    }) > columns
}

/// Law: every emitted amplitude lies within `[-center, center]` — with `center`
/// being half the panel height — whatever the wave samples, burst strength and
/// jitters are.
pub proof fn lemma_amplitudes_clamped(wave: Seq<int>, burst_m: int, jitters: Seq<int>, center: int)
    requires
        center >= 0,
    ensures
        forall|x: int|
            0 <= x < wave.len() ==> -center <= #[trigger] amps_of(wave, burst_m, jitters, center)[x]
                <= center,
{
}

/// Law: the sum of a frame's amplitudes is at most `center` per column in magnitude,
/// so the mean amplitude also lies within `[-center, center]`.
pub proof fn lemma_amp_sum_bound(amps: Seq<int>, c: int)
    requires
        c >= 0,
        forall|x: int| 0 <= x < amps.len() ==> -c <= #[trigger] amps[x] <= c,
    ensures
        -c * amps.len() <= amp_sum(amps) <= c * amps.len(),
    decreases amps.len(),
{
    if amps.len() > 0 {
        lemma_amp_sum_bound(amps.drop_last(), c);
        assert(-c * (amps.len() - 1) + -c == -c * amps.len() && c * (amps.len() - 1) + c == c
            * amps.len()) by (nonlinear_arith);
    }
}

/// Truncating division of a scaled value by 1000, toward zero.
fn tdiv1000_exec(a: i64) -> (q: i64)
    requires
        -0x4000_0000_0000_0000 <= a <= 0x4000_0000_0000_0000,
    ensures
        q == tdiv1000(a as int),
        a >= 0 ==> 0 <= q <= a,
        a < 0 ==> a <= q <= 0,
{
    if a >= 0 {
        let m = a as u64;
        let q = m / 1000;
        q as i64
    } else {
        let m = (-a) as u64;
        let q = m / 1000;
        -(q as i64)
    }
}

/// One column's amplitude in rows, truncated and clamped to `[-center, center]`.
fn amp_of(wave_m: i32, burst_m: u32, jitter_m: i32, center: u16) -> (a: i64)
    requires
        burst_m <= 1500,
        -200 <= jitter_m <= 200,
    ensures
        a == amp_value(wave_m as int, burst_m as int, jitter_m as int, center as int),
        -(center as int) <= a <= center as int,
{
    let wb = wave_m as i64;
    let bb = burst_m as i64;
    assert(-3221225472000 <= wb * bb <= 3221225472000) by (nonlinear_arith)
        requires
            -2147483648 <= wb <= 2147483647 && 0 <= bb <= 1500,
    ;
    let t1 = wb * bb;
    let d1 = tdiv1000_exec(t1);
    let s1 = d1 + jitter_m as i64;
    let cb = center as i64;
    assert(-300000000000000000 <= s1 * cb <= 300000000000000000) by (nonlinear_arith)
        requires
            -3221225472200 <= s1 <= 3221225472200 && 0 <= cb <= 65535,
    ;
    let t2 = s1 * cb;
    let d2 = tdiv1000_exec(t2);
    if d2 < -cb {
        -cb
    } else if d2 > cb {
        cb
    } else {
        d2
    }
}

/// A row of `n` filled cells.
fn filled_line(n: usize) -> (r: String)
    ensures
        r@ == Seq::new(n as nat, |i: int| '█'),
{
    let mut r = String::new();
    let mut i: usize = 0;
    while i < n
        invariant
            i <= n,
            r@ =~= Seq::new(i as nat, |k: int| '█'),
        decreases n - i,
    {
        push_char(&mut r, '█');
        proof {
            assert(r@ =~= Seq::new((i + 1) as nat, |k: int| '█'));
        }
        i = i + 1;
    }
    proof {
        assert(r@ =~= Seq::new(n as nat, |i: int| '█'));
    }
    r
}

/// The silence frame at panel size: one filled line across the vertical center,
/// blank rows elsewhere.
pub fn flat_frame(width: u16, height: u16) -> (out: Vec<String>)
    ensures
        line_views(out@) == flat_grid(width as nat, height as nat),
{
    let ghost goal = flat_grid(width as nat, height as nat);
    let w = width as usize;
    let h = height as usize;
    let center = h / 2;
    let mut out: Vec<String> = Vec::new();
    let mut y: usize = 0;
    while y < h
        invariant
            y <= h,
            center == h / 2,
            w == width as usize,
            h == height as usize,
            goal == flat_grid(width as nat, height as nat),
            out@.len() == y,
            line_views(out@) =~= goal.take(y as int),
        decreases h - y,
    {
        let line = if y == center {
            filled_line(w)
        } else {
            blank_line(w)
        };
        proof {
            assert(goal[y as int] =~= line@);
        }
        out.push(line);
        proof {
            assert(line_views(out@) =~= goal.take((y + 1) as int));
        }
        y = y + 1;
    }
    proof {
        assert(goal.take(h as int) =~= goal);
    }
    out
}

/// One waveform frame and the sum of its amplitudes, computed from the per-column
/// wave samples, the burst strength and the per-column jitters. Deterministic:
/// the frame and the sum are functions of the arguments alone.
pub fn burst_frame(width: u16, height: u16, wave: &Vec<i32>, burst_m: u32, jitters: &Vec<i32>) -> (out: (
    Vec<String>,
    i64,
))
    requires
        wave@.len() == width as nat,
        jitters@.len() == width as nat,
        burst_m <= 1500,
        forall|i: int| 0 <= i < jitters@.len() ==> -200 <= #[trigger] jitters@[i] <= 200,
    ensures
        line_views(out.0@) == wave_grid(
            width as nat,
            height as nat,
            amps_of(int_view(wave@), burst_m as int, int_view(jitters@), (height as int) / 2),
        ),
        out.1 == amp_sum(
            amps_of(int_view(wave@), burst_m as int, int_view(jitters@), (height as int) / 2),
        ),
        -2147549180 <= out.1 <= 2147549180,
{
    let ghost spec_amps = amps_of(
        int_view(wave@),
        burst_m as int,
        int_view(jitters@),
        (height as int) / 2,
    );
    let ghost goal = wave_grid(width as nat, height as nat, spec_amps);
    let w = width as usize;
    let h = height as usize;
    let center = height / 2;
    let mut amps: Vec<i64> = Vec::new();
    let mut sum: i64 = 0;
    let mut x: usize = 0;
    while x < w
        invariant
            x <= w,
            w == width as usize,
            center == height / 2,
            wave@.len() == width as nat,
            jitters@.len() == width as nat,
            burst_m <= 1500,
            forall|i: int| 0 <= i < jitters@.len() ==> -200 <= #[trigger] jitters@[i] <= 200,
            spec_amps == amps_of(
                int_view(wave@),
                burst_m as int,
                int_view(jitters@),
                (height as int) / 2,
            ),
            amps@.len() == x,
            forall|k: int| 0 <= k < x ==> amps@[k] == #[trigger] spec_amps[k],
            forall|k: int|
                0 <= k < x ==> -(center as int) <= #[trigger] amps@[k] <= center as int,
            sum == amp_sum(spec_amps.take(x as int)),
            -32768 * (x as int) <= sum <= 32768 * (x as int),
        decreases w - x,
    {
        let a = amp_of(wave[x], burst_m, jitters[x], center);
        proof {
            assert(spec_amps[x as int] == amp_value(
                wave@[x as int] as int,
                burst_m as int,
                jitters@[x as int] as int,
                center as int,
            ));
            assert(spec_amps.take((x + 1) as int).drop_last() =~= spec_amps.take(x as int));
        }
        amps.push(a);
        sum = sum + a;
        x = x + 1;
    }
    proof {
        assert(spec_amps.take(w as int) =~= spec_amps);
    }
    let mut out: Vec<String> = Vec::new();
    let mut y: usize = 0;
    while y < h
        invariant
            y <= h,
            w == width as usize,
            h == height as usize,
            center == height / 2,
            amps@.len() == w,
            forall|k: int| 0 <= k < w ==> amps@[k] == #[trigger] spec_amps[k],
            forall|k: int|
                0 <= k < w ==> -(center as int) <= #[trigger] amps@[k] <= center as int,
            goal == wave_grid(width as nat, height as nat, spec_amps),
            out@.len() == y,
            line_views(out@) =~= goal.take(y as int),
        decreases h - y,
    {
        let mut line = String::new();
        let mut x2: usize = 0;
        while x2 < w
            invariant
                x2 <= w,
                y < h,
                w == width as usize,
                h == height as usize,
                center == height / 2,
                amps@.len() == w,
                forall|k: int| 0 <= k < w ==> amps@[k] == #[trigger] spec_amps[k],
                forall|k: int|
                    0 <= k < w ==> -(center as int) <= #[trigger] amps@[k] <= center as int,
                line@ =~= Seq::new(
                    x2 as nat,
                    |x: int| glyph_at(y as int, (height as int) / 2 + spec_amps[x]),
                ),
            decreases w - x2,
        {
            let target = center as i64 + amps[x2];
            let yy = y as i64;
            let c = if yy == target {
                '█'
            } else if yy == target - 1 || yy == target + 1 {
                '▒'
            } else {
                ' '
            };
            push_char(&mut line, c);
            proof {
                assert(c == glyph_at(y as int, (height as int) / 2 + spec_amps[x2 as int]));
                assert(line@ =~= Seq::new(
                    (x2 + 1) as nat,
                    |x: int| glyph_at(y as int, (height as int) / 2 + spec_amps[x]),
                ));
            }
            x2 = x2 + 1;
        }
        proof {
            assert(goal[y as int] =~= line@);
        }
        out.push(line);
        proof {
            assert(line_views(out@) =~= goal.take((y + 1) as int));
        }
        y = y + 1;
    }
    proof {
        assert(goal.take(h as int) =~= goal);
    }
    (out, sum)
}

} // verus!
