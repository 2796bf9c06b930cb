use libthrob::frames::{braille_frames, classic_frames};
use libthrob::{Action, Throbber};

const TENTH_OF_A_SECOND: u64 = 100_000_000;

fn glyph_of(a: Action) -> char {
    match a {
        Action::Render { glyph, .. } => glyph,
        other => panic!("expected a drawn glyph, got {:?}", other),
    }
}

fn drawn(t: &mut Throbber, n: usize) -> Vec<char> {
    (0..n).map(|_| glyph_of(t.tick())).collect()
}

#[test]
fn new_throbber_is_idle_at_first_frame() {
    let t = Throbber::classic(TENTH_OF_A_SECOND);
    assert_eq!(t.frame_index(), 0);
    assert!(!t.is_enabled());
    assert!(!t.is_terminated());
    assert_eq!(t.frame_time_nanos(), TENTH_OF_A_SECOND);
    assert_eq!(t.animation(), &vec!['|', '/', '-', '\\']);
}

#[test]
fn built_in_sequences() {
    assert_eq!(classic_frames(), vec!['|', '/', '-', '\\']);
    assert_eq!(braille_frames(), vec!['⠇', '⠋', '⠙', '⠸', '⢰', '⣠', '⣄', '⡆']);
    assert_eq!(Throbber::braille(5).animation(), &braille_frames());
}

#[test]
fn classic_cycles_in_order() {
    let mut t = Throbber::classic(TENTH_OF_A_SECOND);
    t.start();
    assert_eq!(drawn(&mut t, 3), vec!['|', '/', '-']);
    assert_eq!(drawn(&mut t, 6), vec!['\\', '|', '/', '-', '\\', '|']);
}

#[test]
fn custom_cycles_strictly() {
    let mut t = Throbber::custom(vec!['A', 'B', 'C', 'D'], TENTH_OF_A_SECOND);
    t.start();
    let seen = drawn(&mut t, 10);
    assert_eq!(seen, vec!['A', 'B', 'C', 'D', 'A', 'B', 'C', 'D', 'A', 'B']);
}

#[test]
fn render_carries_the_pause() {
    let mut t = Throbber::custom(vec!['x'], 42);
    t.start();
    assert_eq!(t.tick(), Action::Render { glyph: 'x', pause_nanos: 42 });
    assert_eq!(t.tick(), Action::Render { glyph: 'x', pause_nanos: 42 });
    assert_eq!(t.frame_index(), 0);
}

#[test]
fn nth_frame_is_n_mod_length() {
    let frames = braille_frames();
    let mut t = Throbber::braille(0);
    t.start();
    for n in 0..30usize {
        assert_eq!(t.frame_index(), n % 8);
        assert_eq!(glyph_of(t.tick()), frames[n % 8]);
    }
}

#[test]
fn start_resets_to_first_frame() {
    let mut t = Throbber::custom(vec!['a', 'b', 'c'], 1);
    t.start();
    drawn(&mut t, 2);
    assert_eq!(t.frame_index(), 2);
    t.start();
    assert_eq!(t.frame_index(), 0);
    assert_eq!(glyph_of(t.tick()), 'a');
}

#[test]
fn stop_then_start_equals_fresh_start() {
    let mut a = Throbber::custom(vec!['a', 'b', 'c'], 1);
    let mut b = Throbber::custom(vec!['a', 'b', 'c'], 1);
    a.start();
    b.start();
    drawn(&mut a, 2);
    drawn(&mut b, 2);
    a.stop();
    assert_eq!(a.frame_index(), 2);
    a.start();
    b.start();
    assert_eq!(a.frame_index(), 0);
    assert_eq!(drawn(&mut a, 4), drawn(&mut b, 4));
}

#[test]
fn disabled_draws_nothing() {
    let mut t = Throbber::classic(1);
    for _ in 0..10 {
        assert_eq!(t.tick(), Action::Idle);
    }
    assert_eq!(t.frame_index(), 0);
    t.start();
    drawn(&mut t, 1);
    t.stop();
    for _ in 0..10 {
        assert_eq!(t.tick(), Action::Idle);
    }
    assert_eq!(t.frame_index(), 1);
}

#[test]
fn killed_draws_nothing() {
    let mut t = Throbber::classic(1);
    t.start();
    drawn(&mut t, 2);
    t.kill_thread();
    assert!(t.is_terminated());
    assert_eq!(t.tick(), Action::Exit);
    t.start();
    assert_eq!(t.tick(), Action::Exit);
    t.stop();
    t.kill_thread();
    assert_eq!(t.tick(), Action::Exit);
}

