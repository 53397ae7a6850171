use vstd::prelude::*;

use crate::connection::{command_messages, MavConnection};
use crate::frames::{OutboundMessage, OutboundView};
use crate::messages::{GcsCommand, ProtocolError};

verus! {

/// The sending of one command: its messages in sending order, how many of
/// them went out, and the detail of the send that failed, if one did. A
/// failed send stops the command: nothing more is sent after it.
pub struct CommandTransmission {
    messages: Vec<OutboundMessage>,
    sent: usize,
    failure: Option<String>,
}

/// The state of a command transmission.
pub struct TransmissionView {
    pub messages: Seq<OutboundView>,
    pub sent: nat,
    pub failure: Option<Seq<char>>,
}

impl View for CommandTransmission {
    type V = TransmissionView;

    closed spec fn view(&self) -> TransmissionView {
        TransmissionView {
            messages: self.messages@.map_values(|m: OutboundMessage| m@),
            sent: self.sent as nat,
            failure: match self.failure {
                Some(d) => Some(d@),
                None => None,
            },
        }
    }
}

/// The outcome of one send: success, or the detail of the failure.
pub open spec fn send_outcome(outcome: Result<(), String>) -> Result<(), Seq<char>> {
    match outcome {
        Ok(_) => Ok(()),
        Err(d) => Err(d@),
    }
}

/// The message to send next: the first one not sent, while no send failed.
pub open spec fn transmission_pending(t: TransmissionView) -> Option<OutboundView> {
    if t.failure is None && t.sent < t.messages.len() {
        Some(t.messages[t.sent as int])
    } else {
        None
    }
}

/// A transmission after the outcome of sending its pending message: one
/// more sent, or stopped by the failure. Without a pending message an
/// outcome changes nothing.
pub open spec fn transmission_record(t: TransmissionView, outcome: Result<(), Seq<char>>) -> TransmissionView {
    if transmission_pending(t) is Some {
        match outcome {
            Ok(_) => TransmissionView { sent: t.sent + 1, ..t },
            Err(d) => TransmissionView { failure: Some(d), ..t },
        }
    } else {
        t
    }
}

/// The transmission of a command before anything is sent.
pub open spec fn transmission_start(cmd: GcsCommand) -> TransmissionView {
    TransmissionView { messages: command_messages(cmd), sent: 0, failure: None }
}

/// A transmission after the outcomes of its sends, in order.
pub open spec fn transmission_feed(t: TransmissionView, outcomes: Seq<Result<(), Seq<char>>>) -> TransmissionView
    decreases outcomes.len(),
{
    if outcomes.len() == 0 {
        t
    } else {
        transmission_record(transmission_feed(t, outcomes.drop_last()), outcomes.last())
    }
}

/// How many sends a transmission has made: those that went out and the
/// one that failed.
pub open spec fn transmission_attempts(t: TransmissionView) -> nat {
    t.sent + if t.failure is Some {
        1nat
    } else {
        0nat
    }
}

impl CommandTransmission {
    #[verifier::type_invariant]
    spec fn sent_in_range(self) -> bool {
        self.sent <= self.messages.len()
    }

    /// The transmission of a command: its messages, none sent yet.
    pub fn new(cmd: &GcsCommand) -> (res: CommandTransmission)
        ensures
            res@ == transmission_start(*cmd),
    {
        let messages = MavConnection::send_command(cmd);
        CommandTransmission { messages, sent: 0, failure: None }
    }

    /// The message to send next, if any.
    pub fn pending(&self) -> (res: Option<&OutboundMessage>)
        ensures
            match res {
                Some(m) => transmission_pending(self@) == Some(m@),
                None => transmission_pending(self@) is None,
            },
    {
        proof {
            use_type_invariant(self);
        }
        if self.failure.is_none() && self.sent < self.messages.len() {
            Some(&self.messages[self.sent])
        } else {
            None
        }
    }

    /// Take note of the outcome of sending the pending message.
    pub fn record(&mut self, outcome: Result<(), String>)
        ensures
            final(self)@ == transmission_record(old(self)@, send_outcome(outcome)),
    {
        proof {
            use_type_invariant(&*self);
        }
        if self.failure.is_none() && self.sent < self.messages.len() {
            match outcome {
                Ok(()) => {
                    self.sent = self.sent + 1;
                },
                Err(d) => {
                    self.failure = Some(d);
                },
            }
        }
    }

    /// The result of the command: none while a message is pending; success
    /// once all went out; after a failed send, the connection error
    /// "Send failed: " followed by the failure's detail.
    pub fn result(&self) -> (res: Option<Result<(), ProtocolError>>)
        ensures
            match res {
                None => transmission_pending(self@) is Some,
                Some(Ok(())) => transmission_pending(self@) is None && self@.failure is None,
                Some(Err(e)) => self@.failure matches Some(d) && e matches ProtocolError::ConnectionFailed(
                    m,
                ) && m@ == "Send failed: "@ + d,
            },
    {
        proof {
            use_type_invariant(self);
        }
        match &self.failure {
            Some(d) => Some(Err(MavConnection::send_error(d.clone()))),
            None => if self.sent < self.messages.len() {
                None
            } else {
                Some(Ok(()))
            },
        }
    }
}

/// While every send succeeds, a transmission sends its messages one by one
/// and stops when all are out: after j successful sends it has sent
/// min(j, number of messages) and has no failure.
pub proof fn lemma_successful_sends(cmd: GcsCommand, outcomes: Seq<Result<(), Seq<char>>>)
    requires
        forall|i: int| 0 <= i < outcomes.len() ==> #[trigger] outcomes[i] is Ok,
    ensures
        transmission_feed(transmission_start(cmd), outcomes).messages == command_messages(cmd),
        transmission_feed(transmission_start(cmd), outcomes).failure is None,
        transmission_feed(transmission_start(cmd), outcomes).sent == if outcomes.len()
            <= command_messages(cmd).len() {
            outcomes.len()
        } else {
            command_messages(cmd).len()
        },
    decreases outcomes.len(),
{
    if outcomes.len() > 0 {
        let prefix = outcomes.drop_last();
        assert forall|i: int| 0 <= i < prefix.len() implies #[trigger] prefix[i] is Ok by {
            assert(prefix[i] == outcomes[i]);
        }
        lemma_successful_sends(cmd, prefix);
        assert(outcomes.last() == outcomes[outcomes.len() - 1]);
    }
}

/// A failed send stops the command: when the first k - 1 sends succeed and
/// send k fails (k at most the number of messages), exactly k sends are
/// made, k - 1 messages went out, nothing more is pending whatever further
/// outcomes come, and the failure's detail is kept for the error.
pub proof fn lemma_send_stops_at_first_failure(
    cmd: GcsCommand,
    outcomes: Seq<Result<(), Seq<char>>>,
    k: int,
)
    requires
        1 <= k <= command_messages(cmd).len(),
        k <= outcomes.len(),
        forall|i: int| 0 <= i < k - 1 ==> #[trigger] outcomes[i] is Ok,
        outcomes[k - 1] is Err,
    ensures
        transmission_feed(transmission_start(cmd), outcomes).sent == k - 1,
        transmission_feed(transmission_start(cmd), outcomes).failure == Some(outcomes[k - 1]->Err_0),
        transmission_attempts(transmission_feed(transmission_start(cmd), outcomes)) == k,
        transmission_pending(transmission_feed(transmission_start(cmd), outcomes)) is None,
    decreases outcomes.len(),
{
    let prefix = outcomes.drop_last();
    if outcomes.len() > k {
        assert forall|i: int| 0 <= i < k - 1 implies #[trigger] prefix[i] is Ok by {
            assert(prefix[i] == outcomes[i]);
        }
        assert(prefix[k - 1] == outcomes[k - 1]);
        lemma_send_stops_at_first_failure(cmd, prefix, k);
    } else {
        assert forall|i: int| 0 <= i < prefix.len() implies #[trigger] prefix[i] is Ok by {
            assert(prefix[i] == outcomes[i]);
        }
        lemma_successful_sends(cmd, prefix);
        assert(outcomes.last() == outcomes[k - 1]);
    }
}

/// The messages go out in the command's order, each once: after j
/// successful sends, with messages still to go, the one pending is message
/// j of the command (counting from 0); after all of them nothing is.
pub proof fn lemma_messages_sent_in_order(cmd: GcsCommand, outcomes: Seq<Result<(), Seq<char>>>)
    requires
        forall|i: int| 0 <= i < outcomes.len() ==> #[trigger] outcomes[i] is Ok,
    ensures
        outcomes.len() < command_messages(cmd).len() ==> transmission_pending(
            transmission_feed(transmission_start(cmd), outcomes),
        ) == Some(command_messages(cmd)[outcomes.len() as int]),
        outcomes.len() >= command_messages(cmd).len() ==> transmission_pending(
            transmission_feed(transmission_start(cmd), outcomes),
        ) is None,
{
    lemma_successful_sends(cmd, outcomes);
}

} // verus!
