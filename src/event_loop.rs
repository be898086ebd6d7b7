//! Decisions of the control event loop: what the worker thread does next,
//! given where it stands, what woke it, and the shared pause flag. The thread
//! itself (the multiplexer, parking, draining notifications) runs outside
//! this module and performs the actions chosen here.

use vstd::prelude::*;

verus! {

/// Event token of the control-queue notification.
pub const CTRL_QUEUE_EVENT: u16 = 0;

/// Event token of the termination signal: the device has been dropped.
pub const KILL_EVENT: u16 = 3;

/// Event token of the pause signal: the device should be paused.
pub const PAUSE_EVENT: u16 = 4;

/// Number of event tokens the network device defines.
pub const NET_EVENTS_COUNT: usize = 5;

/// Number of event sources the control loop registers.
pub const CTRL_EVENT_COUNT: usize = 3;

/// Where the loop stands.
#[derive(Clone, Copy, Debug, PartialEq, Eq, Structural)]
pub enum LoopPhase {
    /// Set up, and not yet past the initial check of the pause flag.
    Starting,
    /// Waiting on the multiplexer and handling what it reports.
    Running,
    /// Parked until the pause flag is cleared.
    Paused,
    /// Done: the loop has returned.
    Terminated,
}

/// What woke the loop.
#[derive(Clone, Copy, Debug, PartialEq, Eq, Structural)]
pub enum LoopInput {
    /// The multiplexer reported the source registered under this token.
    Ready(u64),
    /// The thread was started, or returned from parking.
    Woken,
}

/// What the thread does next.
#[derive(Clone, Copy, Debug, PartialEq, Eq, Structural)]
pub enum LoopAction {
    /// Block on the multiplexer.
    Wait,
    /// Park the thread until it is woken.
    Park,
    /// Drain the control-queue notification and process one command.
    ProcessCtrlQueue,
    /// Drain the pause notification, then block on the multiplexer.
    DrainPause,
    /// Log an unknown token and carry on.
    Ignore,
    /// Keep the token that came in, undrained, and feed it again once the
    /// loop runs; then park or wait as before.
    Defer,
    /// Leave the loop.
    Exit,
}

/// Whether `input` is the termination signal.
pub open spec fn is_kill(input: LoopInput) -> bool {
    match input {
        LoopInput::Ready(t) => t as u16 == KILL_EVENT,
        LoopInput::Woken => false,
    }
}

/// The transition table of the loop.
pub open spec fn step(phase: LoopPhase, input: LoopInput, paused: bool) -> (LoopPhase, LoopAction) {
    match (phase, input) {
        (LoopPhase::Terminated, _) => (LoopPhase::Terminated, LoopAction::Exit),
        (_, LoopInput::Ready(t)) if t as u16 == KILL_EVENT => (
            LoopPhase::Terminated,
            LoopAction::Exit,
        ),
        (LoopPhase::Starting, LoopInput::Ready(_)) => (LoopPhase::Starting, LoopAction::Defer),
        (LoopPhase::Starting, LoopInput::Woken) => if paused {
            (LoopPhase::Starting, LoopAction::Park)
        } else {
            (LoopPhase::Running, LoopAction::Wait)
        },
        (LoopPhase::Running, LoopInput::Woken) => (LoopPhase::Running, LoopAction::Wait),
        (LoopPhase::Running, LoopInput::Ready(t)) => if t as u16 == CTRL_QUEUE_EVENT {
            (LoopPhase::Running, LoopAction::ProcessCtrlQueue)
        } else if t as u16 == PAUSE_EVENT {
            if paused {
                (LoopPhase::Paused, LoopAction::Park)
            } else {
                (LoopPhase::Running, LoopAction::DrainPause)
            }
        } else {
            (LoopPhase::Running, LoopAction::Ignore)
        },
        (LoopPhase::Paused, LoopInput::Ready(_)) => (LoopPhase::Paused, LoopAction::Defer),
        (LoopPhase::Paused, LoopInput::Woken) => if paused {
            (LoopPhase::Paused, LoopAction::Park)
        } else {
            (LoopPhase::Running, LoopAction::DrainPause)
        },
    }
}

/// Chooses the next phase and action. The termination signal ends the loop
/// from any phase. Before the loop runs, and while it is paused, any other
/// token is handed back undrained, to be fed again once the loop runs, and a
/// wake-up parks the thread again for as long as the pause flag is set.
pub fn next_step(phase: LoopPhase, input: LoopInput, paused: bool) -> (r: (LoopPhase, LoopAction))
    ensures
        r == step(phase, input, paused),
{
    match phase {
        LoopPhase::Terminated => {
            return (LoopPhase::Terminated, LoopAction::Exit);
        },
        _ => {},
    }
    let token: Option<u16> = match input {
        LoopInput::Ready(t) => Some(t as u16),
        LoopInput::Woken => None,
    };
    if token == Some(KILL_EVENT) {
        return (LoopPhase::Terminated, LoopAction::Exit);
    }
    match phase {
        LoopPhase::Starting => {
            if token.is_some() {
                (LoopPhase::Starting, LoopAction::Defer)
            } else if paused {
                (LoopPhase::Starting, LoopAction::Park)
            } else {
                (LoopPhase::Running, LoopAction::Wait)
            }
        },
        LoopPhase::Running => match token {
            None => (LoopPhase::Running, LoopAction::Wait),
            Some(t) => {
                if t == CTRL_QUEUE_EVENT {
                    (LoopPhase::Running, LoopAction::ProcessCtrlQueue)
                } else if t == PAUSE_EVENT {
                    if paused {
                        (LoopPhase::Paused, LoopAction::Park)
                    } else {
                        (LoopPhase::Running, LoopAction::DrainPause)
                    }
                } else {
                    (LoopPhase::Running, LoopAction::Ignore)
                }
            },
        },
        _ => {
            if token.is_some() {
                (LoopPhase::Paused, LoopAction::Defer)
            } else if paused {
                (LoopPhase::Paused, LoopAction::Park)
            } else {
                (LoopPhase::Running, LoopAction::DrainPause)
            }
        },
    }
}

/// The phase reached and the actions chosen when the loop, standing at
/// `phase`, is fed `inputs` in order, each with the pause flag as read then.
pub open spec fn run(phase: LoopPhase, inputs: Seq<(LoopInput, bool)>) -> (LoopPhase, Seq<LoopAction>)
    decreases inputs.len(),
{
    if inputs.len() == 0 {
        (phase, Seq::empty())
    } else {
        let (p, a) = step(phase, inputs[0].0, inputs[0].1);
        let rest = run(p, inputs.drop_first());
        (rest.0, seq![a].add(rest.1))
    }
}

proof fn lemma_run_len(phase: LoopPhase, inputs: Seq<(LoopInput, bool)>)
    ensures
        run(phase, inputs).1.len() == inputs.len(),
    decreases inputs.len(),
{
    if inputs.len() > 0 {
        let (p, a) = step(phase, inputs[0].0, inputs[0].1);
        lemma_run_len(p, inputs.drop_first());
    }
}

/// The termination signal ends the loop from any phase, and once ended the
/// loop only ever exits: no command is processed after it.
pub proof fn lemma_kill_ends_loop(phase: LoopPhase, paused: bool, token: u64, inputs: Seq<(LoopInput, bool)>)
    requires
        token as u16 == KILL_EVENT,
    ensures
        step(phase, LoopInput::Ready(token), paused) == (LoopPhase::Terminated, LoopAction::Exit),
        run(LoopPhase::Terminated, inputs).0 == LoopPhase::Terminated,
        forall|i: int|
            0 <= i < inputs.len() ==> #[trigger] run(LoopPhase::Terminated, inputs).1[i]
                == LoopAction::Exit,
    decreases inputs.len(),
{
    if inputs.len() > 0 {
        lemma_kill_ends_loop(phase, paused, token, inputs.drop_first());
        lemma_run_len(LoopPhase::Terminated, inputs.drop_first());
        let rest = run(LoopPhase::Terminated, inputs.drop_first());
        assert forall|i: int| 0 <= i < inputs.len() implies #[trigger] run(
            LoopPhase::Terminated,
            inputs,
        ).1[i] == LoopAction::Exit by {
            if i > 0 {
                assert(run(LoopPhase::Terminated, inputs).1[i] == rest.1[i - 1]);
            }
        }
    }
}

/// While the pause flag stays set and no termination signal arrives, a paused
/// loop (or one that starts paused) stays where it is: each wake-up parks the
/// thread again and each other token is handed back undrained. It processes
/// no command and drains no notification, so a control-queue notification
/// raised meanwhile is still pending when it resumes.
pub proof fn lemma_paused_only_parks(phase: LoopPhase, inputs: Seq<(LoopInput, bool)>)
    requires
        phase == LoopPhase::Paused || phase == LoopPhase::Starting,
        forall|i: int| 0 <= i < inputs.len() ==> (#[trigger] inputs[i]).1,
        forall|i: int| 0 <= i < inputs.len() ==> !is_kill((#[trigger] inputs[i]).0),
    ensures
        run(phase, inputs).0 == phase,
        forall|i: int|
            0 <= i < inputs.len() ==> #[trigger] run(phase, inputs).1[i] == (if inputs[i].0
                is Woken {
                LoopAction::Park
            } else {
                LoopAction::Defer
            }),
    decreases inputs.len(),
{
    if inputs.len() > 0 {
        let tail = inputs.drop_first();
        assert forall|i: int| 0 <= i < tail.len() implies (#[trigger] tail[i]).1 by {
            assert(tail[i] == inputs[i + 1]);
        }
        assert forall|i: int| 0 <= i < tail.len() implies !is_kill((#[trigger] tail[i]).0) by {
            assert(tail[i] == inputs[i + 1]);
        }
        assert(inputs[0].1);
        lemma_paused_only_parks(phase, tail);
        lemma_run_len(phase, tail);
        let rest = run(phase, tail);
        assert forall|i: int| 0 <= i < inputs.len() implies #[trigger] run(phase, inputs).1[i] == (
        if inputs[i].0 is Woken {
            LoopAction::Park
        } else {
            LoopAction::Defer
        }) by {
            if i > 0 {
                assert(run(phase, inputs).1[i] == rest.1[i - 1]);
                assert(tail[i - 1] == inputs[i]);
            }
        }
    }
}

/// Once the pause flag is cleared, a paused loop woken drains the pause
/// notification and runs again; a control-queue notification that came in
/// while it was paused is handed back, and fed again once it runs it is
/// processed at once.
pub proof fn lemma_resume_then_process(token: u64)
    requires
        token as u16 == CTRL_QUEUE_EVENT,
    ensures
        step(LoopPhase::Paused, LoopInput::Ready(token), true) == (
            LoopPhase::Paused,
            LoopAction::Defer,
        ),
        step(LoopPhase::Paused, LoopInput::Ready(token), false) == (
            LoopPhase::Paused,
            LoopAction::Defer,
        ),
        step(LoopPhase::Paused, LoopInput::Woken, false) == (LoopPhase::Running, LoopAction::DrainPause),
        step(LoopPhase::Running, LoopInput::Ready(token), false) == (
            LoopPhase::Running,
            LoopAction::ProcessCtrlQueue,
        ),
        step(LoopPhase::Running, LoopInput::Ready(token), true) == (
            LoopPhase::Running,
            LoopAction::ProcessCtrlQueue,
        ),
{
}

} // verus!
