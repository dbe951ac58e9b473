//! The debugger session around the CPU: the keys pressed during a frame
//! toggle the register display and continuous running, ask for a single
//! step, a restart or the end of the session; each frame then quits,
//! restarts or steps the CPU as asked.
use vstd::prelude::*;

use crate::cpu::{CpuView, CPU};

verus! {

/// The keys pressed during one frame.
pub struct Keys {
    /// D: show or hide the register display.
    pub toggle_debug: bool,
    /// C: start or stop running continuously.
    pub toggle_continue: bool,
    /// N: execute one instruction.
    pub next: bool,
    /// R: restart the machine.
    pub restart: bool,
    /// Q: end the session.
    pub quit: bool,
}

pub struct State {
    pub cpu: CPU,
    pub debug: bool,
    pub cont: bool,
    pub next: bool,
    pub close: bool,
    pub restart: bool,
}

impl State {
    /// A session with a machine at power on, nothing asked for.
    pub fn new() -> (r: Self)
        ensures
            r.cpu@ == CpuView::power_on(),
            !r.debug && !r.cont && !r.next && !r.close && !r.restart,
    {
        Self { cpu: CPU::new(), debug: false, cont: false, next: false, close: false, restart: false }
    }

    /// Whether the next frame would step the CPU.
    pub open spec fn steps_next_frame(&self) -> bool {
        !self.close && !self.restart && (self.next || self.cont)
    }

    /// Whether the next frame would step the CPU: the session is not
    /// closing or restarting, and a single step was asked for or the
    /// machine runs continuously.
    pub fn will_step(&self) -> (r: bool)
        ensures
            r == self.steps_next_frame(),
    {
        !self.close && !self.restart && (self.next || self.cont)
    }
}

/// Records the keys pressed during a frame: D and C toggle, N, R and Q
/// latch; the CPU is not touched.
pub fn manage_keys(keys: &Keys, state: &mut State)
    ensures
        final(state).cpu@ == old(state).cpu@,
        final(state).debug == (old(state).debug != keys.toggle_debug),
        final(state).cont == (old(state).cont != keys.toggle_continue),
        final(state).next == (old(state).next || keys.next),
        final(state).restart == (old(state).restart || keys.restart),
        final(state).close == (old(state).close || keys.quit),
{
    if keys.toggle_debug {
        state.debug = !state.debug;
    }
    if keys.toggle_continue {
        state.cont = !state.cont;
    }
    if keys.next {
        state.next = true;
    }
    if keys.restart {
        state.restart = true;
    }
    if keys.quit {
        state.close = true;
    }
}

/// The work of one frame after the keys are in: stop when the session is
/// to close (returning `false`), else start over with a fresh session when
/// a restart was asked for, else execute one instruction when a single step
/// was asked for or the machine runs continuously; the single-step request
/// is then consumed.  A frame that steps needs a step that can complete.
pub fn run_frame(state: &mut State) -> (keep_running: bool)
    requires
        old(state).steps_next_frame() ==> old(state).cpu@.step() is Some,
    ensures
        keep_running == !old(state).close,
        old(state).close ==> final(state).cpu@ == old(state).cpu@ && final(state).debug == old(
            state,
        ).debug && final(state).cont == old(state).cont && final(state).next == old(state).next
            && final(state).close && final(state).restart == old(state).restart,
        !old(state).close && old(state).restart ==> final(state).cpu@ == CpuView::power_on()
            && !final(state).debug && !final(state).cont && !final(state).next
            && !final(state).close && !final(state).restart,
        !old(state).close && !old(state).restart ==> {
            &&& final(state).debug == old(state).debug
            &&& final(state).cont == old(state).cont
            &&& !final(state).next
            &&& !final(state).close
            &&& !final(state).restart
            &&& if old(state).next || old(state).cont {
                old(state).cpu@.step() == Some(final(state).cpu@)
            } else {
                final(state).cpu@ == old(state).cpu@
            }
        },
{
    if state.close {
        return false;
    }
    if state.restart {
        *state = State::new();
    }
    if state.next || state.cont {
        state.cpu.step();
    }
    state.next = false;
    true
}

} // verus!
