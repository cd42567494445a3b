//! The shared record of run state: lifecycle phase, cancellation flag and
//! turn counter, with the controller operations on it.
//!
//! The lifecycle machine is `Initialized -> Running`, then `Paused` and
//! `Running` back and forth, then `Stopped` (cancellation or input
//! exhaustion) or `Error` (unrecoverable backend failure). No transition
//! leaves `Stopped` or `Error`. A pause is a request and may be recorded in
//! any non-terminal phase; the loop applies it at its next check point.
//!
//! An embedding application shares one `ControlState` between the input and
//! event activities behind a single synchronization primitive, so that each
//! operation below runs atomically.

use vstd::prelude::*;

use crate::error::AgentError;

verus! {

/// Current state of the agent.
#[derive(Debug, Clone, Copy, PartialEq, Eq, Structural)]
pub enum AgentState {
    /// Agent is initialized but not running.
    Initialized,
    /// Agent is currently running.
    Running,
    /// Agent is paused.
    Paused,
    /// Agent has stopped.
    Stopped,
    /// Agent encountered an error.
    Error,
}

/// Whether a phase is terminal: no transition leaves it.
pub open spec fn spec_is_terminal_phase(p: AgentState) -> bool {
    p is Stopped || p is Error
}

/// The transitions the lifecycle machine allows in one step.
pub open spec fn spec_phase_step_ok(pre: AgentState, post: AgentState) -> bool {
    ||| post == pre
    ||| (!spec_is_terminal_phase(pre) && {
        ||| ((pre is Initialized || pre is Paused) && post is Running)
        ||| post is Paused
        ||| post is Stopped
        ||| post is Error
    })
}

/// The shared session record: lifecycle phase, cancellation flag, and the
/// count of consumed turns.
#[derive(Debug, Clone, Copy, PartialEq, Eq, Structural)]
pub struct ControlState {
    /// The lifecycle phase.
    pub phase: AgentState,
    /// The cancellation flag: set once by `stop`, never cleared.
    pub stop_requested: bool,
    /// The count of submission attempts consumed so far.
    pub turn_count: u64,
}

/// The controller operations, at the specification level.
pub ghost enum ControlOp {
    Begin,
    Stop,
    Pause,
    Resume,
}

/// What each controller operation does to the shared record.
pub open spec fn spec_apply_control(s: ControlState, op: ControlOp) -> ControlState {
    match op {
        ControlOp::Begin => if s.phase is Running || spec_is_terminal_phase(s.phase) {
            s
        } else {
            ControlState { phase: AgentState::Running, ..s }
        },
        ControlOp::Stop => ControlState {
            phase: if spec_is_terminal_phase(s.phase) {
                s.phase
            } else {
                AgentState::Stopped
            },
            stop_requested: true,
            ..s
        },
        ControlOp::Pause => if spec_is_terminal_phase(s.phase) {
            s
        } else {
            ControlState { phase: AgentState::Paused, ..s }
        },
        ControlOp::Resume => if s.phase is Paused {
            ControlState { phase: AgentState::Running, ..s }
        } else {
            s
        },
    }
}

impl ControlState {
    /// A freshly created session: initialized, not cancelled, no turns.
    pub fn new() -> (r: ControlState)
        ensures
            r == (ControlState {
                phase: AgentState::Initialized,
                stop_requested: false,
                turn_count: 0,
            }),
    {
        ControlState { phase: AgentState::Initialized, stop_requested: false, turn_count: 0 }
    }

    /// Snapshot read of the lifecycle phase.
    pub fn state(&self) -> (r: AgentState)
        ensures
            r == self.phase,
    {
        self.phase
    }

    /// Snapshot read of the count of consumed turns.
    pub fn turn_count(&self) -> (r: u64)
        ensures
            r == self.turn_count,
    {
        self.turn_count
    }

    /// The atomic check-and-transition at loop start: fails if the session
    /// is already running, refuses to revive a terminal session, and
    /// otherwise moves the phase to `Running`.
    pub fn begin(&mut self) -> (r: Result<(), AgentError>)
        ensures
            *final(self) == spec_apply_control(*old(self), ControlOp::Begin),
            old(self).phase is Running <==> (r matches Err(e) && e@ is AlreadyRunning),
            spec_is_terminal_phase(old(self).phase) <==> (r matches Err(e) && e@ is NotRunning),
            r is Ok <==> !(old(self).phase is Running || spec_is_terminal_phase(old(self).phase)),
    {
        match self.phase {
            AgentState::Running => Err(AgentError::AlreadyRunning),
            AgentState::Stopped => Err(AgentError::NotRunning),
            AgentState::Error => Err(AgentError::NotRunning),
            _ => {
                self.phase = AgentState::Running;
                Ok(())
            },
        }
    }

    /// Request cancellation and stop the session. Idempotent: once the phase
    /// is terminal it stays; the cancellation flag is set in any case.
    pub fn stop(&mut self)
        ensures
            *final(self) == spec_apply_control(*old(self), ControlOp::Stop),
    {
        self.stop_requested = true;
        match self.phase {
            AgentState::Stopped => {},
            AgentState::Error => {},
            _ => {
                self.phase = AgentState::Stopped;
            },
        }
    }

    /// Request a pause, recorded in any non-terminal phase; the loop holds
    /// new submissions while the phase is `Paused`.
    pub fn pause(&mut self)
        ensures
            *final(self) == spec_apply_control(*old(self), ControlOp::Pause),
    {
        match self.phase {
            AgentState::Stopped => {},
            AgentState::Error => {},
            _ => {
                self.phase = AgentState::Paused;
            },
        }
    }

    /// Leave the paused phase; a no-op in any other phase.
    pub fn resume(&mut self)
        ensures
            *final(self) == spec_apply_control(*old(self), ControlOp::Resume),
    {
        match self.phase {
            AgentState::Paused => {
                self.phase = AgentState::Running;
            },
            _ => {},
        }
    }

    /// Record an unrecoverable backend failure: the phase becomes `Error`,
    /// unless the session already reached a terminal phase.
    pub fn fail(&mut self)
        ensures
            final(self).phase == if spec_is_terminal_phase(old(self).phase) {
                old(self).phase
            } else {
                AgentState::Error
            },
            final(self).stop_requested == old(self).stop_requested,
            final(self).turn_count == old(self).turn_count,
    {
        match self.phase {
            AgentState::Stopped => {},
            AgentState::Error => {},
            _ => {
                self.phase = AgentState::Error;
            },
        }
    }
}

/// The lifecycle phase only ever moves along the state machine: every
/// controller operation, applied in any state, makes an allowed transition.
pub proof fn lemma_control_respects_state_machine(s: ControlState, op: ControlOp)
    ensures
        spec_phase_step_ok(s.phase, spec_apply_control(s, op).phase),
{
}

/// `stop` is idempotent: a second `stop` changes nothing, and in particular
/// never moves the phase back out of `Stopped`.
pub proof fn lemma_stop_idempotent(s: ControlState)
    ensures
        spec_apply_control(spec_apply_control(s, ControlOp::Stop), ControlOp::Stop)
            == spec_apply_control(s, ControlOp::Stop),
{
}

/// Terminal phases absorb every controller operation: once `Stopped` or
/// `Error`, the phase never changes again.
pub proof fn lemma_terminal_phase_is_final(s: ControlState, op: ControlOp)
    requires
        spec_is_terminal_phase(s.phase),
    ensures
        spec_apply_control(s, op).phase == s.phase,
{
}

} // verus!
