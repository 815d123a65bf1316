use rustybird::game::{Frame, Game, Outcome, State};

fn quiet() -> Frame {
    Frame {
        press: false,
        start_clicked: false,
        intro_done: false,
        transition_done: false,
        lock_open: false,
        newly_passed: 0,
        hit_pipe: false,
        on_ground: false,
    }
}

/// A game brought to the playing screen.
fn playing(best: &mut u32) -> Game {
    let mut g = Game::new();
    g.new_round();
    assert_eq!(g.step(best, Frame { intro_done: true, ..quiet() }), Outcome::ShowMenu);
    assert_eq!(g.step(best, Frame { start_clicked: true, ..quiet() }), Outcome::Start);
    assert_eq!(g.step(best, Frame { transition_done: true, ..quiet() }), Outcome::GetReady);
    assert_eq!(g.step(best, Frame { press: true, lock_open: true, ..quiet() }), Outcome::TakeOff);
    assert_eq!(g.state(), State::Playing);
    g
}

#[test]
fn new_game_starts_on_intro() {
    let g = Game::new();
    assert_eq!(g.state(), State::Intro);
    assert_eq!(g.score(), 0);
    assert_eq!((g.bg_index(), g.pipe_index(), g.bird_index()), (0, 0, 0));
}

#[test]
fn screens_wait_for_their_signal() {
    let mut best = 0;
    let mut g = Game::new();
    assert_eq!(g.step(&mut best, Frame { press: true, lock_open: true, ..quiet() }), Outcome::Stay);
    assert_eq!(g.state(), State::Intro);
    g.step(&mut best, Frame { intro_done: true, ..quiet() });
    assert_eq!(g.state(), State::Menu);
    // a press is not a click on the start button
    assert_eq!(g.step(&mut best, Frame { press: true, ..quiet() }), Outcome::Stay);
    assert_eq!(g.state(), State::Menu);
    g.step(&mut best, Frame { start_clicked: true, ..quiet() });
    assert_eq!(g.state(), State::Transition);
    g.step(&mut best, Frame { transition_done: true, ..quiet() });
    assert_eq!(g.state(), State::Ready);
    // locked: the press is ignored
    assert_eq!(g.step(&mut best, Frame { press: true, ..quiet() }), Outcome::Stay);
    assert_eq!(g.state(), State::Ready);
}

#[test]
fn first_flap_starts_play() {
    let mut best = 0;
    let mut g = Game::new();
    g.step(&mut best, Frame { intro_done: true, ..quiet() });
    g.step(&mut best, Frame { start_clicked: true, ..quiet() });
    g.step(&mut best, Frame { transition_done: true, ..quiet() });
    assert!(!g.flaps(true, false));
    assert!(!g.flaps(false, true));
    assert!(g.flaps(true, true));
    g.step(&mut best, Frame { press: true, lock_open: true, ..quiet() });
    assert!(g.flaps(true, false));
    assert!(!g.flaps(false, true));
}

#[test]
fn no_flap_outside_play() {
    let g = Game::new();
    assert!(!g.flaps(true, true));
}

#[test]
fn pipes_add_to_score() {
    let mut best = 0;
    let mut g = playing(&mut best);
    g.step(&mut best, Frame { newly_passed: 1, ..quiet() });
    g.step(&mut best, Frame { newly_passed: 2, ..quiet() });
    assert_eq!(g.score(), 3);
    assert_eq!(g.state(), State::Playing);
}

#[test]
fn hitting_the_ground_ends_the_round_with_new_best() {
    let mut best = 2;
    let mut g = playing(&mut best);
    g.step(&mut best, Frame { newly_passed: 4, ..quiet() });
    let out = g.step(&mut best, Frame { newly_passed: 1, on_ground: true, ..quiet() });
    assert_eq!(out, Outcome::Landed { from_flight: true, new_best: true });
    assert_eq!(g.state(), State::Over);
    assert_eq!(g.score(), 5);
    assert_eq!(best, 5);
}

#[test]
fn lower_score_keeps_best() {
    let mut best = 9;
    let mut g = playing(&mut best);
    g.step(&mut best, Frame { newly_passed: 3, ..quiet() });
    let out = g.step(&mut best, Frame { on_ground: true, ..quiet() });
    assert_eq!(out, Outcome::Landed { from_flight: true, new_best: false });
    assert_eq!(best, 9);
}

#[test]
fn equal_score_is_no_new_best() {
    let mut best = 3;
    let mut g = playing(&mut best);
    g.step(&mut best, Frame { newly_passed: 3, ..quiet() });
    let out = g.step(&mut best, Frame { on_ground: true, ..quiet() });
    assert_eq!(out, Outcome::Landed { from_flight: true, new_best: false });
    assert_eq!(best, 3);
}

#[test]
fn crash_then_fall() {
    let mut best = 0;
    let mut g = playing(&mut best);
    let out = g.step(&mut best, Frame { newly_passed: 2, hit_pipe: true, on_ground: true, ..quiet() });
    assert_eq!(out, Outcome::Crash);
    assert_eq!(g.state(), State::Dying);
    assert_eq!(g.score(), 2);
    assert_eq!(best, 0);
    // pipes no longer count while falling
    assert_eq!(g.step(&mut best, Frame { newly_passed: 1, ..quiet() }), Outcome::Stay);
    assert_eq!(g.score(), 2);
    let out = g.step(&mut best, Frame { on_ground: true, ..quiet() });
    assert_eq!(out, Outcome::Landed { from_flight: false, new_best: true });
    assert_eq!(best, 2);
    assert_eq!(g.state(), State::Over);
}

#[test]
fn restart_from_game_over() {
    let mut best = 0;
    let mut g = playing(&mut best);
    g.step(&mut best, Frame { newly_passed: 6, on_ground: true, ..quiet() });
    assert_eq!(g.step(&mut best, Frame { press: true, ..quiet() }), Outcome::Stay);
    assert_eq!(g.state(), State::Over);
    assert_eq!(g.step(&mut best, Frame { press: true, lock_open: true, ..quiet() }), Outcome::Restart);
    assert_eq!(g.state(), State::Ready);
    assert_eq!(g.score(), 0);
    assert_eq!(best, 6);
    assert!(g.bg_index() < 2 && g.pipe_index() < 2 && g.bird_index() < 3);
}

#[test]
fn enter_over_raises_best() {
    let mut best = 0;
    let mut g = playing(&mut best);
    g.step(&mut best, Frame { newly_passed: 3, ..quiet() });
    let mut b = 1;
    assert!(g.enter_over(&mut b));
    assert_eq!(b, 3);
    assert_eq!(g.state(), State::Over);
    let mut b = 7;
    assert!(!g.enter_over(&mut b));
    assert_eq!(b, 7);
}

#[test]
fn new_round_resets_score_and_picks_sprites() {
    let mut best = 0;
    let mut g = playing(&mut best);
    g.step(&mut best, Frame { newly_passed: 3, ..quiet() });
    for _ in 0..50 {
        g.new_round();
        assert_eq!(g.score(), 0);
        assert_eq!(g.state(), State::Playing);
        assert!(g.bg_index() < 2);
        assert!(g.pipe_index() < 2);
        assert!(g.bird_index() < 3);
    }
}

#[test]
fn wing_frame_cycles_while_flying() {
    let g = Game::new();
    assert_eq!(g.wing_frame(0), 0);
    assert_eq!(g.wing_frame(4), 1);
    assert_eq!(g.wing_frame(8), 2);
    let mut best = 0;
    let mut g = playing(&mut best);
    assert_eq!(g.wing_frame(5), 2);
    g.step(&mut best, Frame { hit_pipe: true, ..quiet() });
    assert_eq!(g.wing_frame(5), 1);
    assert_eq!(g.wing_frame(0), 1);
}

#[test]
fn early_screens_do_not_come_back() {
    let mut best = 0;
    let mut g = playing(&mut best);
    let frames = [
        Frame { intro_done: true, start_clicked: true, transition_done: true, ..quiet() },
        Frame { on_ground: true, ..quiet() },
        Frame { press: true, lock_open: true, intro_done: true, start_clicked: true, ..quiet() },
        Frame { intro_done: true, start_clicked: true, transition_done: true, ..quiet() },
    ];
    for f in frames {
        g.step(&mut best, f);
        assert!(!matches!(g.state(), State::Intro | State::Menu | State::Transition));
    }
}
