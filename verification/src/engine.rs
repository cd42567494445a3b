//! The execution loop's decision logic.
//!
//! The loop itself runs in an embedding application: one activity pulls user
//! inputs and submits them to the backend, another pulls backend events and
//! forwards translated outputs. All decisions those activities make about the
//! shared session record are the functions here: what to do before a
//! submission, what a submission attempt does to the turn counter, and how a
//! finished output stream folds into one response.

use vstd::prelude::*;
use vstd::string::StringExecFns;

use crate::control::ControlState;
use crate::error::AgentError;
use crate::error::AgentErrorView;
use crate::error::BackendError;
use crate::error::OutputError;
use crate::error::OutputErrorView;
use crate::error::spec_output_error_of_backend;
use crate::message::OutputData;
use crate::message::OutputDataView;
use crate::message::OutputMessage;
use crate::message::OutputMessageView;

verus! {

/// What the input activity does next, decided before each submission.
#[derive(Debug, Clone, Copy, PartialEq, Eq, Structural)]
pub enum InputDirective {
    /// Cancellation was requested: stop pulling inputs and shut down.
    Shutdown,
    /// The session is paused: hold the input and poll again.
    HoldPaused,
    /// The turn limit is reached: emit a terminal error output and shut down.
    LimitReached,
    /// Submit the input to the backend.
    Proceed,
}

/// The submission gate: cancellation first, then the pause hold, then the
/// turn limit; only then may an input be submitted.
pub open spec fn spec_submission_gate(s: ControlState, max_turns: u64) -> InputDirective {
    if s.stop_requested {
        InputDirective::Shutdown
    } else if s.phase is Paused {
        InputDirective::HoldPaused
    } else if s.turn_count >= max_turns {
        InputDirective::LimitReached
    } else {
        InputDirective::Proceed
    }
}

/// Decide what to do with the next input, from a snapshot of the shared
/// session record and the configured turn limit.
pub fn submission_gate(s: &ControlState, max_turns: u64) -> (d: InputDirective)
    ensures
        d == spec_submission_gate(*s, max_turns),
{
    if s.stop_requested {
        InputDirective::Shutdown
    } else {
        match s.phase {
            crate::control::AgentState::Paused => InputDirective::HoldPaused,
            _ => {
                if s.turn_count >= max_turns {
                    InputDirective::LimitReached
                } else {
                    InputDirective::Proceed
                }
            },
        }
    }
}

/// The one terminal output the loop emits when the turn limit is reached,
/// tagged with the current turn id.
pub fn turn_limit_output(s: &ControlState) -> (r: OutputMessage)
    ensures
        r@ == (OutputMessageView {
            turn_id: s.turn_count,
            data: OutputDataView::Error(OutputErrorView::TurnLimitExceeded),
        }),
{
    OutputMessage { turn_id: s.turn_count, data: OutputData::Error(OutputError::TurnLimitExceeded) }
}

/// What one submission attempt does to the session record: the turn counter
/// grows by one, success or failure.
pub open spec fn spec_after_submission(s: ControlState) -> ControlState
    recommends
        s.turn_count < u64::MAX,
{
    ControlState { turn_count: (s.turn_count + 1) as u64, ..s }
}

/// Record one submission attempt. A turn is consumed whatever the outcome;
/// a failed submission additionally yields a non-fatal error output, tagged
/// with the turn id the attempt was made under.
pub fn record_submission(s: &mut ControlState, outcome: Result<(), BackendError>) -> (r: Option<
    OutputMessage,
>)
    requires
        old(s).turn_count < u64::MAX,
    ensures
        *final(s) == spec_after_submission(*old(s)),
        match outcome {
            Ok(()) => r is None,
            Err(e) => r matches Some(m) && m@ == (OutputMessageView {
                turn_id: old(s).turn_count,
                data: OutputDataView::Error(spec_output_error_of_backend(e@)),
            }),
        },
{
    let turn_id = s.turn_count;
    s.turn_count = s.turn_count + 1;
    match outcome {
        Ok(()) => None,
        Err(e) => Some(
            OutputMessage { turn_id, data: OutputData::Error(OutputError::from_backend(e)) },
        ),
    }
}

/// The session record after a run of submission attempts.
pub open spec fn spec_after_submissions(s: ControlState, n: nat) -> ControlState
    decreases n,
{
    if n == 0 {
        s
    } else {
        spec_after_submission(spec_after_submissions(s, (n - 1) as nat))
    }
}

/// The turn counter counts submission attempts exactly: after a run of
/// attempts, successful or not, it has grown by their number.
pub proof fn lemma_turn_count_counts_submissions(s: ControlState, n: nat)
    requires
        s.turn_count + n <= u64::MAX,
    ensures
        spec_after_submissions(s, n).turn_count == s.turn_count + n,
        spec_after_submissions(s, n).phase == s.phase,
        spec_after_submissions(s, n).stop_requested == s.stop_requested,
    decreases n,
{
    if n > 0 {
        lemma_turn_count_counts_submissions(s, (n - 1) as nat);
    }
}

/// A paused session blocks submissions: while the phase is `Paused` and
/// cancellation has not been requested, an input is held back and never
/// submitted to the backend.
pub proof fn lemma_paused_blocks_submission(s: ControlState, max_turns: u64)
    requires
        s.phase is Paused,
        !s.stop_requested,
    ensures
        spec_submission_gate(s, max_turns) == InputDirective::HoldPaused,
        spec_submission_gate(s, max_turns) != InputDirective::Proceed,
{
}

/// Once the turn counter reaches the limit, no further input passes the
/// gate: every later decision is `LimitReached` or `Shutdown` or the pause
/// hold, never `Proceed`.
pub proof fn lemma_limit_blocks_submission(s: ControlState, max_turns: u64)
    requires
        s.turn_count >= max_turns,
    ensures
        spec_submission_gate(s, max_turns) != InputDirective::Proceed,
        (!s.stop_requested && !(s.phase is Paused)) ==> spec_submission_gate(s, max_turns)
            == InputDirective::LimitReached,
{
}

/// How a finished output stream folds into one response: the concatenation
/// of the primary texts up to the first terminal output; an error output
/// fails the whole response.
pub open spec fn spec_collect_response(outs: Seq<OutputMessageView>) -> Result<
    Seq<char>,
    OutputErrorView,
>
    decreases outs.len(),
{
    if outs.len() == 0 {
        Ok(Seq::<char>::empty())
    } else {
        match outs[0].data {
            OutputDataView::Primary(t) => match spec_collect_response(outs.drop_first()) {
                Ok(rest) => Ok(t + rest),
                Err(e) => Err(e),
            },
            OutputDataView::PrimaryDelta(t) => match spec_collect_response(outs.drop_first()) {
                Ok(rest) => Ok(t + rest),
                Err(e) => Err(e),
            },
            OutputDataView::Completed => Ok(Seq::<char>::empty()),
            OutputDataView::Error(e) => Err(e),
            _ => spec_collect_response(outs.drop_first()),
        }
    }
}

/// Fold a recorded output stream into one response: primary content is
/// concatenated until the first `Completed`, an `Error` output fails the
/// response, and everything else is passed over.
pub fn collect_response(outputs: &Vec<OutputMessage>) -> (r: Result<String, AgentError>)
    ensures
        match spec_collect_response(outputs@.map_values(|m: OutputMessage| m@)) {
            Ok(text) => r matches Ok(s) && s@ == text,
            Err(e) => r matches Err(a) && a@ == AgentErrorView::OutputError(e),
        },
{
    let ghost views = outputs@.map_values(|m: OutputMessage| m@);
    let mut acc = String::new();
    let mut i: usize = 0;
    proof {
        assert(views.skip(0) =~= views);
        if let Ok(text) = spec_collect_response(views) {
            assert(acc@ + text =~= text);
        }
    }
    while i < outputs.len()
        invariant
            i <= outputs.len(),
            views == outputs@.map_values(|m: OutputMessage| m@),
            views.len() == outputs@.len(),
            match spec_collect_response(views) {
                Ok(text) => spec_collect_response(views.skip(i as int)) matches Ok(rest) && text
                    == acc@ + rest,
                Err(e) => spec_collect_response(views.skip(i as int)) == Err::<
                    Seq<char>,
                    OutputErrorView,
                >(e),
            },
        decreases outputs.len() - i,
    {
        proof {
            assert(views.skip(i as int)[0] == views[i as int]);
            assert(views.skip(i as int).drop_first() =~= views.skip(i as int + 1));
        }
        match &outputs[i].data {
            OutputData::Primary(t) => {
                acc.append(t.as_str());
            },
            OutputData::PrimaryDelta(t) => {
                acc.append(t.as_str());
            },
            OutputData::Completed => {
                proof {
                    if let Ok(text) = spec_collect_response(views) {
                        assert(text =~= acc@);
                    }
                }
                return Ok(acc);
            },
            OutputData::Error(e) => {
                return Err(AgentError::OutputError(e.duplicate()));
            },
            _ => {},
        }
        i = i + 1;
        proof {
            if let Ok(text) = spec_collect_response(views) {
                if let Ok(rest) = spec_collect_response(views.skip(i as int)) {
                    assert(text =~= acc@ + rest);
                }
            }
        }
    }
    proof {
        assert(views.skip(outputs@.len() as int).len() == 0);
        if let Ok(text) = spec_collect_response(views) {
            assert(text =~= acc@);
        }
    }
    Ok(acc)
}

} // verus!
