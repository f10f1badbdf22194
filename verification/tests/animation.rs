use ascii_avatar::animation::{Animation, AudioCue, RenderResult, State};
use ascii_avatar::compositor::fit;

fn lines(v: &[&str]) -> Vec<String> {
    v.iter().map(|s| s.to_string()).collect()
}

fn make(seed: u64) -> Animation {
    Animation::new(
        vec![lines(&["(o_o)", " | | "])],
        vec![lines(&["(-_-)"]), lines(&["(._.)"])],
        vec![lines(&["(x_x)"])],
        seed,
        0,
    )
}

fn is_flat(grid: &[String], w: usize, h: usize) -> bool {
    grid.len() == h
        && grid.iter().enumerate().all(|(y, line)| {
            let want = if y == h / 2 { '█' } else { ' ' };
            line.chars().count() == w && line.chars().all(|c| c == want)
        })
}

fn frame_of(out: RenderResult) -> Vec<String> {
    match out {
        RenderResult::Frame(g) => g,
        RenderResult::NeedsWave { .. } => panic!("expected a finished frame"),
    }
}

#[test]
fn dying_absorbs_every_request() {
    let mut a = make(1);
    a.set_state(State::DYING);
    assert_eq!(a.current_state(), State::DYING);
    for req in [State::IDLE, State::TALKING, State::BLINKING, State::DYING] {
        a.set_state(req);
        assert_eq!(a.current_state(), State::DYING);
    }
}

#[test]
fn blinking_absorbs_requests_until_the_pass_completes() {
    let mut a = make(2);
    a.set_state(State::BLINKING);
    for req in [State::IDLE, State::TALKING, State::DYING] {
        a.set_state(req);
        assert_eq!(a.current_state(), State::BLINKING);
    }
    // ~50ms cadence: each render past the cadence advances one blink frame
    let g = frame_of(a.render(7, 1, 60));
    assert_eq!(a.current_state(), State::BLINKING);
    assert_eq!(g, fit(&lines(&["(._.)"]), 7, 1));
    let g = frame_of(a.render(7, 1, 120));
    // the pass is complete: the index resets and the state returns to Idle
    assert_eq!(a.current_state(), State::IDLE);
    assert_eq!(g, fit(&lines(&["(-_-)"]), 7, 1));
}

#[test]
fn blinking_does_not_advance_before_the_cadence() {
    let mut a = make(3);
    a.set_state(State::BLINKING);
    let g = frame_of(a.render(7, 1, 10));
    assert_eq!(a.current_state(), State::BLINKING);
    assert_eq!(g, fit(&lines(&["(-_-)"]), 7, 1));
}

#[test]
fn same_seed_same_run() {
    let mut a = make(42);
    let mut b = make(42);
    let wave: Vec<i32> = (0..20).map(|x| ((x * 37) % 1600) - 800).collect();
    a.set_state(State::TALKING);
    b.set_state(State::TALKING);
    let mut now = 0i64;
    for _ in 0..40 {
        now += 101;
        let oa = a.render(20, 6, now);
        let ob = b.render(20, 6, now);
        assert_eq!(oa, ob);
        if let RenderResult::NeedsWave { .. } = oa {
            let (ga, ca) = a.render_wave(20, 6, &wave);
            let (gb, cb) = b.render_wave(20, 6, &wave);
            assert_eq!(ga, gb);
            assert_eq!(ca, cb);
        }
    }
}

#[test]
fn silence_burst_gives_three_flat_frames_then_reseeds() {
    let mut a = make(7);
    a.set_state(State::TALKING);
    let wave: Vec<i32> = vec![800; 20];
    let mut now = 0i64;
    let mut found = false;
    for _ in 0..500 {
        now += 101;
        if let RenderResult::NeedsWave { .. } = a.render(20, 6, now) {
            a.render_wave(20, 6, &wave);
            if a.until_talking == 3 {
                found = true;
                break;
            }
        }
    }
    assert!(found, "no silence drawn in 500 regenerations");
    let fnum = a.talking_frame_num;
    // two flat frames with the counter advancing only by its cadence step
    now += 101;
    assert!(is_flat(&frame_of(a.render(20, 6, now)), 20, 6));
    assert_eq!(a.until_talking, 2);
    assert_eq!(a.talking_frame_num, fnum + 1);
    now += 101;
    assert!(is_flat(&frame_of(a.render(20, 6, now)), 20, 6));
    assert_eq!(a.until_talking, 1);
    assert_eq!(a.talking_frame_num, fnum + 2);
    // the third flat frame ends the countdown and reseeds the counter
    now += 101;
    assert!(is_flat(&frame_of(a.render(20, 6, now)), 20, 6));
    assert_eq!(a.until_talking, 0);
    assert!(a.talking_frame_num < usize::MAX / 10000);
}

#[test]
fn amplitudes_stay_inside_the_panel_band() {
    // extreme wave samples must neither panic nor break the grid shape,
    // and the amplitude sum must stay within half the height per column
    for samples in [i32::MAX, i32::MIN, 0] {
        let mut a = make(11);
        a.set_state(State::TALKING);
        let wave: Vec<i32> = vec![samples; 20];
        let mut now = 0i64;
        let mut checked = false;
        for _ in 0..50 {
            now += 101;
            if let RenderResult::NeedsWave { .. } = a.render(20, 6, now) {
                let (grid, cue) = a.render_wave(20, 6, &wave);
                assert_eq!(grid.len(), 6);
                for line in &grid {
                    assert_eq!(line.chars().count(), 20);
                }
                if let Some(AudioCue { amp_sum, columns }) = cue {
                    assert_eq!(columns, 20);
                    assert!(amp_sum.unsigned_abs() <= 60u64);
                    assert!(10 * amp_sum.abs() > 20i64);
                }
                checked = true;
            }
        }
        assert!(checked);
    }
}

#[test]
fn talking_waveform_redraw_between_cadences_reuses_the_cache() {
    let mut a = make(13);
    a.set_state(State::TALKING);
    let wave: Vec<i32> = vec![500; 12];
    let out = a.render(12, 4, 101);
    let cached = match out {
        RenderResult::NeedsWave { .. } => a.render_wave(12, 4, &wave).0,
        RenderResult::Frame(g) => g,
    };
    // 50ms later the cadence has not fired again: the same frame comes back
    let again = frame_of(a.render(12, 4, 151));
    assert_eq!(again, cached);
}

#[test]
fn end_to_end_idle_talking_dying() {
    let mut a = make(5);
    // Idle, panel 40x10: the single idle frame, centered by the floor/ceil rule
    let g = frame_of(a.render(40, 10, 0));
    let expected = fit(&lines(&["(o_o)", " | | "]), 40, 10);
    assert_eq!(g, expected);

    // a spontaneous blink may have begun on the idle render: drain it first
    let mut now = 0i64;
    while a.current_state() != State::IDLE {
        now += 101;
        a.render(40, 10, now);
    }

    // Talking: five calls ~100ms apart advance the frame counter five times
    a.set_state(State::TALKING);
    assert_eq!(a.current_state(), State::TALKING);
    let wave: Vec<i32> = (0..40).map(|x| ((x * 53) % 1600) - 800).collect();
    let mut regens: usize = 0;
    let mut fnum = a.talking_frame_num;
    for _ in 0..5 {
        now += 101;
        match a.render(40, 10, now) {
            RenderResult::NeedsWave { frame_number } => {
                assert_eq!(frame_number, fnum + 1);
                a.render_wave(40, 10, &wave);
            }
            RenderResult::Frame(g) => {
                // a silence countdown frame: still a fresh regeneration
                assert_eq!(g.len(), 10);
            }
        }
        fnum = a.talking_frame_num;
        regens += 1;
    }
    assert_eq!(regens, 5);

    // Dying: waveform behavior for the fixed call budget, then the canned frame
    a.set_state(State::DYING);
    for _ in 0..1000 {
        now += 101;
        if let RenderResult::NeedsWave { .. } = a.render(40, 10, now) {
            a.render_wave(40, 10, &wave);
        }
    }
    now += 101;
    let g = frame_of(a.render(40, 10, now));
    assert_eq!(g, fit(&lines(&["(x_x)"]), 40, 10));
    // and a further request has no effect: Dying is terminal
    a.set_state(State::IDLE);
    assert_eq!(a.current_state(), State::DYING);
    now += 101;
    let g = frame_of(a.render(40, 10, now));
    assert_eq!(g, fit(&lines(&["(x_x)"]), 40, 10));
}

#[test]
fn idle_render_leaves_idle_or_starts_a_blink() {
    let mut a = make(17);
    for i in 0..300i64 {
        let g = frame_of(a.render(10, 4, i));
        match a.current_state() {
            State::IDLE => assert_eq!(g, fit(&lines(&["(o_o)", " | | "]), 10, 4)),
            State::BLINKING => {
                // the spontaneous one-in-a-hundred blink began; idle frame still shown
                assert_eq!(g, fit(&lines(&["(o_o)", " | | "]), 10, 4));
                return;
            }
            s => panic!("unexpected state {:?}", s),
        }
    }
}
