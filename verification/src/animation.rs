use vstd::prelude::*;

use crate::compositor::{fit, fit_spec};
use crate::rng::{rand_below, rand_below_usize, rand_ratio, rng_from_seed};
use crate::text::{clone_lines, line_views};
use crate::wave::{amp_sum, amps_of, burst_frame, cue_triggered, flat_frame, flat_grid, int_view,
    wave_grid};

verus! {

/// The avatar's animation states. Exactly one is active at a time.
#[allow(non_camel_case_types)]
#[derive(Debug, Clone, Copy, PartialEq, Eq, Structural)]
pub enum State {
    TALKING,
    IDLE,
    DYING,
    BLINKING,
}

/// What one render call produces: either a finished text frame, or a request for
/// the per-column wave samples of frame `frame_number`, to be answered with
/// `render_wave` before the next frame is available.
#[derive(Debug, PartialEq, Eq)]
pub enum RenderResult {
    Frame(Vec<String>),
    NeedsWave { frame_number: usize },
}

/// A request to play a tone: the sum of the frame's amplitudes over `columns`
/// columns. The mean amplitude `amp_sum / columns` drives pitch and gain.
#[derive(Debug, Clone, Copy, PartialEq, Eq, Structural)]
pub struct AudioCue {
    pub amp_sum: i64,
    pub columns: u16,
}

/// The transition table for external state requests: Dying and Blinking absorb
/// every request; any other state yields to it.
pub open spec fn set_state_spec(cur: State, req: State) -> State {
    match cur {
        State::DYING => State::DYING,
        State::BLINKING => State::BLINKING,
        _ => req,
    }
}

/// The talking frame counter after one cadence step: it advances by one and
/// saturates at the top of its range.
pub open spec fn next_fnum(n: nat) -> nat {
    if n == usize::MAX as nat {
        n
    } else {
        n + 1
    }
}

/// The animation state machine: owns the current state, the per-state timers, the
/// cached waveform frame and the pseudo-random generator.
pub struct Animation {
    pub last_talking_frame: Vec<String>,
    pub dying_frames: Vec<Vec<String>>,
    pub blinking_frames: Vec<Vec<String>>,
    pub idle_frames: Vec<Vec<String>>,
    pub last_time: i64,
    pub state: State,
    pub talking_frame_num: usize,
    pub change_talking_frame: bool,
    pub until_talking: u32,
    pub blink_frame_num: usize,
    pub rng: rand::rngs::StdRng,
    pub timer: u32,
    pub wave_pending: bool,
}

/// The frame sets never change after construction.
pub open spec fn frames_unchanged(pre: Animation, post: Animation) -> bool {
    &&& post.idle_frames == pre.idle_frames
    &&& post.blinking_frames == pre.blinking_frames
    &&& post.dying_frames == pre.dying_frames
}

/// One waveform step of a Talking or Dying render call. `now` first advances the
/// ~100ms cadence; a regeneration is due when the cadence fired or one was already
/// pending. A positive silence countdown yields the flat silence frame, counts
/// down, and reseeds the frame counter exactly when it reaches zero; a zero
/// countdown asks the caller for wave samples. Without a due regeneration the
/// cached frame is returned unchanged.
pub open spec fn wave_phase_post(
    pre: Animation,
    post: Animation,
    w: nat,
    h: nat,
    now: int,
    out: RenderResult,
) -> bool {
    let fired = now - pre.last_time > 100;
    let lt1: int = if fired {
        now
    } else {
        pre.last_time as int
    };
    let fn1: nat = if fired {
        next_fnum(pre.talking_frame_num as nat)
    } else {
        pre.talking_frame_num as nat
    };
    let dirty = pre.change_talking_frame || fired;
    &&& frames_unchanged(pre, post)
    &&& post.state == pre.state
    &&& post.timer == pre.timer
    &&& post.blink_frame_num == pre.blink_frame_num
    &&& post.last_time == lt1
    &&& if dirty {
        if pre.until_talking > 0 {
            &&& (out matches RenderResult::Frame(g) && line_views(g@) == flat_grid(w, h))
            &&& post.until_talking == pre.until_talking - 1
            &&& line_views(post.last_talking_frame@) == flat_grid(w, h)
            &&& post.change_talking_frame == false
            &&& post.wave_pending == pre.wave_pending
            &&& (pre.until_talking > 1 ==> post.talking_frame_num as nat == fn1)
            &&& (pre.until_talking == 1 ==> post.talking_frame_num < usize::MAX as int / 10000)
        } else {
            &&& out == (RenderResult::NeedsWave { frame_number: post.talking_frame_num })
            &&& post.talking_frame_num as nat == fn1
            &&& post.until_talking == 0
            &&& post.change_talking_frame == true
            &&& post.wave_pending == true
            &&& post.last_talking_frame == pre.last_talking_frame
        }
    } else {
        &&& (out matches RenderResult::Frame(g) && g@ == pre.last_talking_frame@)
        &&& post.talking_frame_num as nat == fn1
        &&& post.until_talking == pre.until_talking
        &&& post.change_talking_frame == pre.change_talking_frame
        &&& post.wave_pending == pre.wave_pending
        &&& post.last_talking_frame == pre.last_talking_frame
    }
}

/// A machine equal to `a` but for the Dying countdown.
pub open spec fn with_timer(a: Animation, t: u32) -> Animation {
    Animation { timer: t, ..a }
}

/// The full transition relation of one render call, by the state at entry.
pub open spec fn render_post(
    pre: Animation,
    post: Animation,
    width: u16,
    height: u16,
    now: int,
    out: RenderResult,
) -> bool {
    match pre.state {
        State::TALKING => wave_phase_post(pre, post, width as nat, height as nat, now, out),
        State::DYING => {
            if pre.timer > 0 {
                wave_phase_post(
                    with_timer(pre, (pre.timer - 1) as u32),
                    post,
                    width as nat,
                    height as nat,
                    now,
                    out,
                )
            } else {
                &&& (out matches RenderResult::Frame(g) && line_views(g@) == fit_spec(
                    line_views(pre.dying_frames@[0]@),
                    width as nat,
                    height as nat,
                ))
                &&& post == pre
            }
        },
        State::IDLE => {
            &&& (out matches RenderResult::Frame(g) && line_views(g@) == fit_spec(
                line_views(pre.idle_frames@[0]@),
                width as nat,
                height as nat,
            ))
            &&& frames_unchanged(pre, post)
            &&& post.last_talking_frame == pre.last_talking_frame
            &&& post.until_talking == pre.until_talking
            &&& post.change_talking_frame == pre.change_talking_frame
            &&& post.wave_pending == pre.wave_pending
            &&& post.timer == pre.timer
            &&& post.blink_frame_num == pre.blink_frame_num
            &&& {
                ||| (post.state == State::IDLE && post.last_time == pre.last_time
                    && post.talking_frame_num == pre.talking_frame_num)
                ||| (post.state == State::BLINKING && post.last_time == now
                    && post.talking_frame_num as nat == next_fnum(pre.talking_frame_num as nat))
            }
        },
        State::BLINKING => {
            let adv = now - pre.last_time > 50;
            let idx1: int = if adv {
                pre.blink_frame_num + 1
            } else {
                pre.blink_frame_num as int
            };
            let reset = idx1 >= pre.blinking_frames@.len();
            let idxf: int = if reset {
                0
            } else {
                idx1
            };
            &&& frames_unchanged(pre, post)
            &&& post.last_time == (if adv {
                now
            } else {
                pre.last_time as int
            })
            &&& post.blink_frame_num == idxf
            &&& post.state == (if reset {
                State::IDLE
            } else {
                State::BLINKING
            })
            &&& post.talking_frame_num == pre.talking_frame_num
            &&& post.until_talking == pre.until_talking
            &&& post.change_talking_frame == pre.change_talking_frame
            &&& post.wave_pending == pre.wave_pending
            &&& post.timer == pre.timer
            &&& post.last_talking_frame == pre.last_talking_frame
            &&& (out matches RenderResult::Frame(g) && line_views(g@) == fit_spec(
                line_views(pre.blinking_frames@[idxf]@),
                width as nat,
                height as nat,
            ))
        },
    }
}

/// One waveform regeneration: the burst strength is 200 thousandths on a silent
/// draw (which also arms the three-call silence countdown) and uniform in
/// `[500, 1500)` thousandths otherwise; each column gets a jitter in `[-200, 200]`
/// thousandths; the frame is the wave grid of the resulting clamped amplitudes,
/// and a tone is requested exactly when the mean amplitude exceeds a tenth of a row.
pub open spec fn wave_outcome(
    pre: Animation,
    post: Animation,
    width: u16,
    height: u16,
    wave: Seq<i32>,
    out: (Vec<String>, Option<AudioCue>),
    burst_m: int,
    jitters: Seq<int>,
) -> bool {
    let amps = amps_of(int_view(wave), burst_m, jitters, height as int / 2);
    let sum = amp_sum(amps);
    &&& (burst_m == 200 || 500 <= burst_m < 1500)
    &&& (post.until_talking == 3 <==> burst_m == 200)
    &&& jitters.len() == width as nat
    &&& (forall|i: int| 0 <= i < jitters.len() ==> -200 <= #[trigger] jitters[i] <= 200)
    &&& line_views(out.0@) == wave_grid(width as nat, height as nat, amps)
    &&& line_views(post.last_talking_frame@) == wave_grid(width as nat, height as nat, amps)
    &&& (cue_triggered(sum, width as nat) <==> out.1 is Some)
    &&& (out.1 matches Some(cue) ==> cue.amp_sum == sum && cue.columns == width)
}

/// The transition relation of answering a wave request: the machine caches the new
/// frame, clears the request, and either stays out of silence or arms the
/// three-call silence countdown; all timers and the state are untouched.
pub open spec fn render_wave_post(
    pre: Animation,
    post: Animation,
    width: u16,
    height: u16,
    wave: Seq<i32>,
    out: (Vec<String>, Option<AudioCue>),
) -> bool {
    &&& frames_unchanged(pre, post)
    &&& post.state == pre.state
    &&& post.timer == pre.timer
    &&& post.blink_frame_num == pre.blink_frame_num
    &&& post.last_time == pre.last_time
    &&& post.talking_frame_num == pre.talking_frame_num
    &&& post.wave_pending == false
    &&& post.change_talking_frame == false
    &&& (post.until_talking == 3 || post.until_talking == 0)
    &&& exists|burst_m: int, jitters: Seq<int>|
        wave_outcome(pre, post, width, height, wave, out, burst_m, jitters)
}

impl Animation {
    /// The machine is well formed: each state has at least one frame, the blink
    /// index stays inside its frame set, the clock never runs backwards past
    /// zero, and a pending wave request implies the silence countdown is idle.
    pub open spec fn wf(self) -> bool {
        &&& self.idle_frames@.len() > 0
        &&& self.blinking_frames@.len() > 0
        &&& self.dying_frames@.len() > 0
        &&& self.blink_frame_num < self.blinking_frames@.len()
        &&& self.last_time >= 0
        &&& (self.wave_pending ==> self.until_talking == 0)
    }

    /// The current animation state.
    pub fn current_state(&self) -> (s: State)
        ensures
            s == self.state,
    {
        self.state
    }

    /// Builds the machine: Idle, with the given frame sets, a seeded generator,
    /// an empty cached frame, and a Dying budget of 1000 render calls.
    pub fn new(
        idle_frames: Vec<Vec<String>>,
        blinking_frames: Vec<Vec<String>>,
        dying_frames: Vec<Vec<String>>,
        seed: u64,
        now_ms: i64,
    ) -> (a: Animation)
        requires
            idle_frames@.len() > 0,
            blinking_frames@.len() > 0,
            dying_frames@.len() > 0,
            now_ms >= 0,
        ensures
            a.wf(),
            a.state == State::IDLE,
            a.idle_frames == idle_frames,
            a.blinking_frames == blinking_frames,
            a.dying_frames == dying_frames,
            a.last_time == now_ms,
            a.talking_frame_num == 0,
            a.change_talking_frame == false,
            a.until_talking == 0,
            a.blink_frame_num == 0,
            a.timer == 1000,
            a.wave_pending == false,
            a.last_talking_frame@.len() == 1 && a.last_talking_frame@[0]@ == Seq::<char>::empty(),
    {
        let mut first: Vec<String> = Vec::new();
        first.push(String::new());
        Animation {
            last_talking_frame: first,
            dying_frames,
            blinking_frames,
            idle_frames,
            last_time: now_ms,
            state: State::IDLE,
            talking_frame_num: 0,
            change_talking_frame: false,
            until_talking: 0,
            blink_frame_num: 0,
            rng: rng_from_seed(seed),
            timer: 1000,
            wave_pending: false,
        }
    }

    /// Requests a state change. Dying and Blinking absorb the request silently —
    /// a guard, not an error; any other state yields to it.
    pub fn set_state(&mut self, state: State)
        ensures
            final(self).state == set_state_spec(old(self).state, state),
            *final(self) == (Animation { state: final(self).state, ..*old(self) }),
            old(self).wf() ==> final(self).wf(),
    {
        match self.state {
            State::DYING => {},
            State::BLINKING => {},
            _ => {
                self.state = state;
            },
        }
    }

    /// The frame counter after one cadence step, saturating at the top.
    fn next_fnum_exec(n: usize) -> (r: usize)
        ensures
            r as nat == next_fnum(n as nat),
    {
        if n == usize::MAX {
            n
        } else {
            n + 1
        }
    }

    /// The shared waveform step of Talking and Dying render calls.
    fn wave_phase(&mut self, width: u16, height: u16, now_ms: i64) -> (out: RenderResult)
        requires
            old(self).wf(),
            now_ms >= 0,
        ensures
            final(self).wf(),
            wave_phase_post(
                *old(self),
                *final(self),
                width as nat,
                height as nat,
                now_ms as int,
                out,
            ),
    {
        if now_ms - self.last_time > 100 {
            self.last_time = now_ms;
            self.talking_frame_num = Self::next_fnum_exec(self.talking_frame_num);
            self.change_talking_frame = true;
        }
        if self.change_talking_frame {
            if self.until_talking > 0 {
                let g = flat_frame(width, height);
                self.until_talking = self.until_talking - 1;
                if self.until_talking == 0 {
                    self.talking_frame_num = rand_below_usize(&mut self.rng, usize::MAX / 10000);
                }
                self.last_talking_frame = clone_lines(&g);
                self.change_talking_frame = false;
                RenderResult::Frame(g)
            } else {
                self.wave_pending = true;
                RenderResult::NeedsWave { frame_number: self.talking_frame_num }
            }
        } else {
            RenderResult::Frame(clone_lines(&self.last_talking_frame))
        }
    }

    /// One render call for a panel of `width` by `height` cells at wall-clock time
    /// `now_ms`. Idle shows the first idle frame and may spontaneously start a
    /// blink (one chance in one hundred per call); Blinking steps through its
    /// frame set on a ~50ms cadence and returns to Idle after a full pass; Talking
    /// steps the waveform on a ~100ms cadence; Dying replays the waveform for its
    /// remaining call budget, then shows the first dying frame forever.
    pub fn render(&mut self, width: u16, height: u16, now_ms: i64) -> (out: RenderResult)
        requires
            old(self).wf(),
            now_ms >= 0,
        ensures
            final(self).wf(),
            render_post(*old(self), *final(self), width, height, now_ms as int, out),
    {
        match self.state {
            State::TALKING => self.wave_phase(width, height, now_ms),
            State::DYING => {
                if self.timer > 0 {
                    self.timer = self.timer - 1;
                    self.wave_phase(width, height, now_ms)
                } else {
                    RenderResult::Frame(
                        fit(&self.dying_frames[0], width as usize, height as usize),
                    )
                }
            },
            State::IDLE => {
                let roll = rand_below(&mut self.rng, 100);
                if roll == 0 {
                    self.last_time = now_ms;
                    self.talking_frame_num = Self::next_fnum_exec(self.talking_frame_num);
                    self.state = State::BLINKING;
                }
                RenderResult::Frame(fit(&self.idle_frames[0], width as usize, height as usize))
            },
            State::BLINKING => {
                let len = self.blinking_frames.len();
                if now_ms - self.last_time > 50 {
                    self.last_time = now_ms;
                    self.blink_frame_num = self.blink_frame_num + 1;
                }
                if self.blink_frame_num >= len {
                    self.blink_frame_num = 0;
                    self.state = State::IDLE;
                }
                RenderResult::Frame(
                    fit(&self.blinking_frames[self.blink_frame_num], width as usize,
                        height as usize),
                )
            },
        }
    }

    /// Answers a wave request: draws the silence flag, the burst strength and the
    /// per-column jitters, renders the waveform frame for the given per-column
    /// wave samples, caches it, and reports whether a tone is owed.
    pub fn render_wave(&mut self, width: u16, height: u16, wave: &Vec<i32>) -> (out: (
        Vec<String>,
        Option<AudioCue>,
    ))
        requires
            old(self).wf(),
            old(self).wave_pending,
            wave@.len() == width as nat,
        ensures
            final(self).wf(),
            render_wave_post(*old(self), *final(self), width, height, wave@, out),
    {
        let silent = rand_ratio(&mut self.rng, 1, 5);
        let burst_m: u32 = if silent {
            self.until_talking = 3;
            200
        } else {
            500 + rand_below(&mut self.rng, 1000)
        };
        let ghost snap = *self;
        let mut jitters: Vec<i32> = Vec::new();
        let mut x: usize = 0;
        let w = width as usize;
        while x < w
            invariant
                x <= w,
                w == width as usize,
                jitters@.len() == x,
                forall|i: int| 0 <= i < x ==> -200 <= #[trigger] jitters@[i] <= 200,
                self.last_talking_frame == snap.last_talking_frame,
                self.idle_frames == snap.idle_frames,
                self.blinking_frames == snap.blinking_frames,
                self.dying_frames == snap.dying_frames,
                self.last_time == snap.last_time,
                self.state == snap.state,
                self.talking_frame_num == snap.talking_frame_num,
                self.change_talking_frame == snap.change_talking_frame,
                self.until_talking == snap.until_talking,
                self.blink_frame_num == snap.blink_frame_num,
                self.timer == snap.timer,
                self.wave_pending == snap.wave_pending,
            decreases w - x,
        {
            let j = rand_below(&mut self.rng, 400) as i32 - 200;
            jitters.push(j);
            x = x + 1;
        }
        let (grid, sum) = burst_frame(width, height, wave, burst_m, &jitters);
        let mag = if sum >= 0 {
            sum
        } else {
            -sum
        };
        let cue = if width > 0 && 10 * mag > width as i64 {
            Some(AudioCue { amp_sum: sum, columns: width })
        } else {
            None
        };
        self.last_talking_frame = clone_lines(&grid);
        self.change_talking_frame = false;
        self.wave_pending = false;
        proof {
            let jit = int_view(jitters@);
            assert(jit.len() == jitters@.len());
            assert forall|i: int| 0 <= i < jit.len() implies -200 <= #[trigger] jit[i] <= 200 by {
                assert(jit[i] == jitters@[i] as int);
            }
            assert(wave_outcome(
                *old(self),
                *self,
                width,
                height,
                wave@,
                (grid, cue),
                burst_m as int,
                int_view(jitters@),
            ));
        }
        (grid, cue)
    }
}

/// A sequence of external requests applied through the transition table.
pub open spec fn apply_requests(s: State, reqs: Seq<State>) -> State
    decreases reqs.len(),
{
    if reqs.len() == 0 {
        s
    } else {
        apply_requests(set_state_spec(s, reqs[0]), reqs.subrange(1, reqs.len() as int))
    }
}

/// Law: Dying is terminal. Whatever sequence of external requests arrives, the
/// state stays Dying.
pub proof fn lemma_dying_absorbs(reqs: Seq<State>)
    ensures
        apply_requests(State::DYING, reqs) == State::DYING,
    decreases reqs.len(),
{
    if reqs.len() > 0 {
        lemma_dying_absorbs(reqs.subrange(1, reqs.len() as int));
    }
}

/// Law: Blinking absorbs every external request. Only the machine itself leaves
/// Blinking, by finishing a pass over its frame set during a render call.
pub proof fn lemma_blinking_absorbs(reqs: Seq<State>)
    ensures
        apply_requests(State::BLINKING, reqs) == State::BLINKING,
    decreases reqs.len(),
{
    if reqs.len() > 0 {
        lemma_blinking_absorbs(reqs.subrange(1, reqs.len() as int));
    }
}

/// Law: a Blinking machine whose advanced blink index reaches the end of its frame
/// set deterministically becomes Idle with the index reset; otherwise it stays
/// Blinking.
pub proof fn lemma_blinking_completes(
    pre: Animation,
    post: Animation,
    width: u16,
    height: u16,
    now: int,
    out: RenderResult,
)
    requires
        pre.state == State::BLINKING,
        pre.blink_frame_num < pre.blinking_frames@.len(),
        render_post(pre, post, width, height, now, out),
    ensures
        (now - pre.last_time > 50 && pre.blink_frame_num + 1 >= pre.blinking_frames@.len())
            ==> (post.state == State::IDLE && post.blink_frame_num == 0),
        !(now - pre.last_time > 50 && pre.blink_frame_num + 1 >= pre.blinking_frames@.len())
            ==> post.state == State::BLINKING,
{
}

/// Law: once a silence is drawn (the countdown is armed at three), the next three
/// waveform regenerations all return the flat silence frame, the frame counter
/// advances only by its deterministic cadence step while the countdown is still
/// positive, and it is reseeded exactly when the countdown reaches zero.
pub proof fn lemma_silence_burst(
    a0: Animation,
    a1: Animation,
    a2: Animation,
    a3: Animation,
    w: nat,
    h: nat,
    n1: int,
    n2: int,
    n3: int,
    o1: RenderResult,
    o2: RenderResult,
    o3: RenderResult,
)
    requires
        a0.until_talking == 3,
        wave_phase_post(a0, a1, w, h, n1, o1),
        a0.change_talking_frame || n1 - a0.last_time > 100,
        wave_phase_post(a1, a2, w, h, n2, o2),
        a1.change_talking_frame || n2 - a1.last_time > 100,
        wave_phase_post(a2, a3, w, h, n3, o3),
        a2.change_talking_frame || n3 - a2.last_time > 100,
    ensures
        o1 matches RenderResult::Frame(g) && line_views(g@) == flat_grid(w, h),
        o2 matches RenderResult::Frame(g) && line_views(g@) == flat_grid(w, h),
        o3 matches RenderResult::Frame(g) && line_views(g@) == flat_grid(w, h),
        a1.until_talking == 2 && a2.until_talking == 1 && a3.until_talking == 0,
        a1.talking_frame_num as nat == (if n1 - a0.last_time > 100 {
            next_fnum(a0.talking_frame_num as nat)
        } else {
            a0.talking_frame_num as nat
        }),
        a2.talking_frame_num as nat == (if n2 - a1.last_time > 100 {
            next_fnum(a1.talking_frame_num as nat)
        } else {
            a1.talking_frame_num as nat
        }),
        a3.talking_frame_num < usize::MAX as int / 10000,
{
}

} // verus!
