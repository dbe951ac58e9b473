use rustboy::session::{manage_keys, run_frame, Keys, State};

fn keys() -> Keys {
    Keys { toggle_debug: false, toggle_continue: false, next: false, restart: false, quit: false }
}

#[test]
fn keys_toggle_and_latch() {
    let mut state = State::new();
    manage_keys(&Keys { toggle_debug: true, toggle_continue: true, ..keys() }, &mut state);
    assert!(state.debug && state.cont);
    manage_keys(&Keys { toggle_debug: true, next: true, ..keys() }, &mut state);
    assert!(!state.debug && state.cont && state.next);
    manage_keys(&keys(), &mut state);
    assert!(state.next && !state.restart && !state.close);
    manage_keys(&Keys { restart: true, quit: true, ..keys() }, &mut state);
    assert!(state.restart && state.close);
}

#[test]
fn a_frame_without_requests_does_nothing() {
    let mut state = State::new();
    assert!(run_frame(&mut state));
    assert_eq!(state.cpu.registers.pc, 0);
}

#[test]
fn next_steps_once() {
    let mut state = State::new();
    assert!(!state.will_step());
    manage_keys(&Keys { next: true, ..keys() }, &mut state);
    assert!(state.will_step());
    assert!(run_frame(&mut state));
    assert_eq!(state.cpu.registers.pc, 3);
    assert!(!state.next);
    assert!(run_frame(&mut state));
    assert_eq!(state.cpu.registers.pc, 3);
}

#[test]
fn continue_steps_every_frame() {
    let mut state = State::new();
    manage_keys(&Keys { toggle_continue: true, ..keys() }, &mut state);
    assert!(run_frame(&mut state));
    assert!(run_frame(&mut state));
    assert_eq!(state.cpu.registers.pc, 4);
}

#[test]
fn restart_gives_a_fresh_session() {
    let mut state = State::new();
    manage_keys(&Keys { next: true, toggle_debug: true, ..keys() }, &mut state);
    run_frame(&mut state);
    manage_keys(&Keys { restart: true, next: true, ..keys() }, &mut state);
    assert!(run_frame(&mut state));
    assert_eq!(state.cpu.registers.pc, 0);
    assert_eq!(state.cpu.registers.sp, 0);
    assert!(!state.debug && !state.next && !state.restart);
}

#[test]
fn quit_ends_the_session() {
    let mut state = State::new();
    manage_keys(&Keys { quit: true, next: true, ..keys() }, &mut state);
    assert!(!state.will_step());
    assert!(!run_frame(&mut state));
    assert_eq!(state.cpu.registers.pc, 0);
    assert!(state.close);
}
