//! Session management: the persistable session record, a bounded message
//! history, and session metrics.

use vstd::prelude::*;
use vstd::string::StringExecFns;

use crate::message::OutputData;

verus! {

broadcast use vstd::std_specs::vecdeque::group_vec_dequeue_axioms;

/// Serializable message format.
#[derive(Debug)]
pub struct SerializedMessage {
    /// The speaker: `user` or `assistant`.
    pub role: String,
    /// The message text.
    pub content: String,
    /// Seconds since the Unix epoch when the message was recorded.
    pub timestamp: u64,
}

pub ghost struct SerializedMessageView {
    pub role: Seq<char>,
    pub content: Seq<char>,
    pub timestamp: u64,
}

impl View for SerializedMessage {
    type V = SerializedMessageView;

    open spec fn view(&self) -> SerializedMessageView {
        SerializedMessageView {
            role: self.role@,
            content: self.content@,
            timestamp: self.timestamp,
        }
    }
}

impl SerializedMessage {
    /// An owned copy with the same view.
    pub fn duplicate(&self) -> (r: SerializedMessage)
        ensures
            r@ == self@,
    {
        SerializedMessage {
            role: self.role.clone(),
            content: self.content.clone(),
            timestamp: self.timestamp,
        }
    }
}

/// Relies on `SystemTime::now`: the wall clock's seconds since the Unix
/// epoch, converted to a plain number; nothing can be promised of the
/// clock's reading.
#[verifier::external_body]
fn now_unix_secs() -> u64 {
    std::time::SystemTime::now()
        .duration_since(std::time::UNIX_EPOCH)
        .unwrap_or_default()
        .as_secs()
}

/// Message history manager: a bounded queue of recorded messages, dropping
/// its oldest entry when full.
#[derive(Debug)]
pub struct MessageHistory {
    /// The recorded messages, oldest first.
    pub messages: std::collections::VecDeque<SerializedMessage>,
    /// The bound: one more message than this drops the oldest.
    pub max_size: usize,
}

impl MessageHistory {
    /// Create a new message history with the given max size.
    pub fn new(max_size: usize) -> (r: MessageHistory)
        ensures
            r.messages@.len() == 0,
            r.max_size == max_size,
    {
        MessageHistory {
            messages: std::collections::VecDeque::with_capacity(max_size),
            max_size,
        }
    }

    /// Add a message to the history, timestamped now; when the history is
    /// full, the oldest message leaves.
    pub fn add(&mut self, role: String, content: String)
        ensures
            final(self).max_size == old(self).max_size,
            final(self).messages@.len() > 0,
            final(self).messages@.last().role@ == role@,
            final(self).messages@.last().content@ == content@,
            final(self).messages@.map_values(|m: SerializedMessage| m@).drop_last() == if old(
                self,
            ).messages@.len() >= old(self).max_size && old(self).messages@.len() > 0 {
                old(self).messages@.map_values(|m: SerializedMessage| m@).drop_first()
            } else {
                old(self).messages@.map_values(|m: SerializedMessage| m@)
            },
    {
        if self.messages.len() >= self.max_size {
            let _ = self.messages.pop_front();
        }
        let timestamp = now_unix_secs();
        self.messages.push_back(SerializedMessage { role, content, timestamp });
        proof {
            assert(self.messages@.map_values(|m: SerializedMessage| m@).drop_last() =~= if old(
                self,
            ).messages@.len() >= old(self).max_size && old(self).messages@.len() > 0 {
                old(self).messages@.map_values(|m: SerializedMessage| m@).drop_first()
            } else {
                old(self).messages@.map_values(|m: SerializedMessage| m@)
            });
        }
    }

    /// Get all messages, oldest first.
    pub fn get_all(&self) -> (r: Vec<SerializedMessage>)
        ensures
            r@.map_values(|m: SerializedMessage| m@) == self.messages@.map_values(
                |m: SerializedMessage| m@,
            ),
    {
        let mut r: Vec<SerializedMessage> = Vec::new();
        let mut i: usize = 0;
        while i < self.messages.len()
            invariant
                i <= self.messages@.len(),
                r@.len() == i,
                r@.map_values(|m: SerializedMessage| m@) == self.messages@.map_values(
                    |m: SerializedMessage| m@,
                ).take(i as int),
            decreases self.messages@.len() - i,
        {
            r.push(self.messages[i].duplicate());
            i = i + 1;
            proof {
                let m1 = r@.map_values(|m: SerializedMessage| m@);
                let m2 = self.messages@.map_values(|m: SerializedMessage| m@);
                assert(r@[i as int - 1]@ == self.messages@[i as int - 1]@);
                assert forall|j: int| 0 <= j < i implies #[trigger] m1[j] == m2.take(
                    i as int,
                )[j] by {
                    assert(m1[j] == r@[j]@);
                    assert(m2[j] == self.messages@[j]@);
                }
                assert(m1 =~= m2.take(i as int));
            }
        }
        proof {
            assert(self.messages@.map_values(|m: SerializedMessage| m@).take(
                self.messages@.len() as int,
            ) =~= self.messages@.map_values(|m: SerializedMessage| m@));
        }
        r
    }

    /// Clear the history.
    pub fn clear(&mut self)
        ensures
            final(self).messages@.len() == 0,
            final(self).max_size == old(self).max_size,
    {
        self.messages.clear();
    }

    /// Get the number of messages.
    pub fn len(&self) -> (r: usize)
        ensures
            r == self.messages@.len(),
    {
        self.messages.len()
    }

    /// Check if the history is empty.
    pub fn is_empty(&self) -> (r: bool)
        ensures
            r == (self.messages@.len() == 0),
    {
        self.messages.len() == 0
    }
}

/// Session metadata.
#[derive(Debug)]
pub struct SessionMetadata {
    /// Session ID.
    pub session_id: String,
    /// Creation timestamp, seconds since the Unix epoch.
    pub created_at: u64,
    /// Last updated timestamp, seconds since the Unix epoch.
    pub updated_at: u64,
    /// Model used.
    pub model: String,
    /// Custom metadata, as serialized text.
    pub custom: String,
}

/// Session state that can be saved and loaded.
#[derive(Debug)]
pub struct SessionState {
    /// Message history.
    pub messages: Vec<SerializedMessage>,
    /// Current turn count.
    pub turn_count: u64,
    /// Session metadata.
    pub metadata: SessionMetadata,
}

impl SessionState {
    /// Record a user message: it joins the record, the turn counter grows,
    /// and the update time moves.
    pub fn record_user_message(&mut self, content: String)
        requires
            old(self).turn_count < u64::MAX,
        ensures
            final(self).messages@.len() == old(self).messages@.len() + 1,
            final(self).messages@.drop_last() == old(self).messages@,
            final(self).messages@.last().role@ == "user"@,
            final(self).messages@.last().content@ == content@,
            final(self).turn_count == old(self).turn_count + 1,
            final(self).metadata.session_id == old(self).metadata.session_id,
            final(self).metadata.created_at == old(self).metadata.created_at,
            final(self).metadata.model == old(self).metadata.model,
            final(self).metadata.custom == old(self).metadata.custom,
    {
        let timestamp = now_unix_secs();
        self.messages.push(
            SerializedMessage { role: String::from_str("user"), content, timestamp },
        );
        self.turn_count = self.turn_count + 1;
        self.metadata.updated_at = now_unix_secs();
        proof {
            assert(self.messages@.drop_last() =~= old(self).messages@);
        }
    }

    /// Record an assistant message: it joins the record; the turn counter
    /// does not move.
    pub fn record_assistant_message(&mut self, content: String)
        ensures
            final(self).messages@.len() == old(self).messages@.len() + 1,
            final(self).messages@.drop_last() == old(self).messages@,
            final(self).messages@.last().role@ == "assistant"@,
            final(self).messages@.last().content@ == content@,
            final(self).turn_count == old(self).turn_count,
            final(self).metadata == old(self).metadata,
    {
        let timestamp = now_unix_secs();
        self.messages.push(
            SerializedMessage { role: String::from_str("assistant"), content, timestamp },
        );
        proof {
            assert(self.messages@.drop_last() =~= old(self).messages@);
        }
    }
}

/// Session metrics.
#[derive(Debug, Clone, Copy, PartialEq, Eq, Structural)]
pub struct SessionMetrics {
    /// Total messages sent.
    pub messages_sent: u64,
    /// Total messages received.
    pub messages_received: u64,
    /// Total tokens used (estimated).
    pub tokens_used: u64,
    /// Total tool calls.
    pub tool_calls: u64,
    /// Total errors.
    pub errors: u64,
    /// Session duration in seconds.
    pub duration_secs: u64,
}

impl Default for SessionMetrics {
    /// Metrics at session start: all counters zero.
    fn default() -> (r: SessionMetrics)
        ensures
            r == (SessionMetrics {
                messages_sent: 0,
                messages_received: 0,
                tokens_used: 0,
                tool_calls: 0,
                errors: 0,
                duration_secs: 0,
            }),
    {
        SessionMetrics {
            messages_sent: 0,
            messages_received: 0,
            tokens_used: 0,
            tool_calls: 0,
            errors: 0,
            duration_secs: 0,
        }
    }
}

impl SessionMetrics {
    /// Count one sent message.
    pub fn record_sent(&mut self)
        requires
            old(self).messages_sent < u64::MAX,
        ensures
            *final(self) == (SessionMetrics {
                messages_sent: (old(self).messages_sent + 1) as u64,
                ..*old(self)
            }),
    {
        self.messages_sent = self.messages_sent + 1;
    }

    /// Count one received output: every output counts as received, a tool
    /// start additionally as a tool call, an error output as an error.
    pub fn record_output(&mut self, data: &OutputData)
        requires
            old(self).messages_received < u64::MAX,
            old(self).tool_calls < u64::MAX,
            old(self).errors < u64::MAX,
        ensures
            final(self).messages_received == old(self).messages_received + 1,
            final(self).tool_calls == old(self).tool_calls + (if data@ is ToolStart {
                1int
            } else {
                0int
            }),
            final(self).errors == old(self).errors + (if data@ is Error {
                1int
            } else {
                0int
            }),
            final(self).messages_sent == old(self).messages_sent,
            final(self).tokens_used == old(self).tokens_used,
            final(self).duration_secs == old(self).duration_secs,
    {
        self.messages_received = self.messages_received + 1;
        match data {
            OutputData::ToolStart { .. } => {
                self.tool_calls = self.tool_calls + 1;
            },
            OutputData::Error(_) => {
                self.errors = self.errors + 1;
            },
            _ => {},
        }
    }
}

} // verus!
