//! The scheduled-send controller: a plain message is sent with a delivery
//! time in the future, and revoked once a fixed wait is over.

use crate::effect::{Effect, EffectView, SendPurpose};
use crate::message::{
    Conversation, ConversationView, OutboundMessage, OutboundMessageView, Payload, PayloadView,
};
use vstd::prelude::*;

verus! {

/// The two delays of a scheduled send, in milliseconds.
#[derive(Debug, Clone, Copy, PartialEq, Eq, Structural)]
pub struct Timing {
    /// How far in the future the message asks to be delivered.
    pub schedule_delay_ms: u64,
    /// How long after the send the revocation is held back.
    pub revoke_wait_ms: u64,
}

impl Timing {
    /// Delivery in a minute, revocation after ten seconds.
    pub fn standard() -> (r: Timing)
        ensures
            r == Timing::standard_view(),
    {
        Timing { schedule_delay_ms: 60_000, revoke_wait_ms: 10_000 }
    }

    pub open spec fn standard_view() -> Timing {
        Timing { schedule_delay_ms: 60_000, revoke_wait_ms: 10_000 }
    }
}

/// The scheduled message that a controller keeps track of.
#[derive(Debug, PartialEq, Eq)]
pub struct PendingScheduledMessage {
    pub conversation: Conversation,
    pub sender: String,
    pub scheduled_epoch_ms: u64,
    /// The identifier that the message had when its send finished.
    pub current_message_id: Option<String>,
}

/// A `PendingScheduledMessage` as contracts see it.
pub struct PendingScheduledMessageView {
    pub conversation: ConversationView,
    pub sender: Seq<char>,
    pub scheduled_epoch_ms: u64,
    pub current_message_id: Option<Seq<char>>,
}

impl View for PendingScheduledMessage {
    type V = PendingScheduledMessageView;

    open spec fn view(&self) -> PendingScheduledMessageView {
        PendingScheduledMessageView {
            conversation: self.conversation@,
            sender: self.sender@,
            scheduled_epoch_ms: self.scheduled_epoch_ms,
            current_message_id: self.current_message_id.deep_view(),
        }
    }
}

/// Where a controller stands.
#[derive(Debug, Clone, Copy, PartialEq, Eq, Structural)]
pub enum Phase {
    /// The scheduled message was handed out; its send has not finished.
    AwaitingSend,
    /// The send has finished, well or not; the wait is running.
    Waiting,
    /// The revocation was handed out; its send has not finished.
    AwaitingRevoke,
    /// Nothing is left to do.
    Done,
}

/// A `ScheduledSend` as contracts see it: the state of one controller.
pub struct ScheduledSendView {
    pub pending: PendingScheduledMessageView,
    /// When the scheduled message was handed out.
    pub issued_at_ms: u64,
    /// How long the revocation is held back.
    pub wait_ms: u64,
    /// When the wait began; it counts from `Phase::Waiting` on.
    pub wait_started_ms: u64,
    pub phase: Phase,
}

/// The conversation of a plain message to one recipient.
pub open spec fn direct_conversation(target: Seq<char>, guid: Seq<char>) -> ConversationView {
    ConversationView {
        participants: seq![target],
        cv_name: None,
        sender_guid: Some(guid),
        after_guid: None,
    }
}

impl ScheduledSendView {
    /// The controller for a message that is handed out at `now_ms`, and
    /// that message.
    pub open spec fn begin(
        target: Seq<char>,
        sender: Seq<char>,
        body: Seq<char>,
        guid: Seq<char>,
        now_ms: u64,
        timing: Timing,
    ) -> (ScheduledSendView, OutboundMessageView)
        recommends
            now_ms + timing.schedule_delay_ms <= u64::MAX,
    {
        let conversation = direct_conversation(target, guid);
        let scheduled = (now_ms + timing.schedule_delay_ms) as u64;
        (
            ScheduledSendView {
                pending: PendingScheduledMessageView {
                    conversation,
                    sender,
                    scheduled_epoch_ms: scheduled,
                    current_message_id: None,
                },
                issued_at_ms: now_ms,
                wait_ms: timing.revoke_wait_ms,
                wait_started_ms: now_ms,
                phase: Phase::AwaitingSend,
            },
            OutboundMessageView {
                id: None,
                conversation,
                sender,
                target: None,
                payload: PayloadView::Text { text: body, scheduled_ms: Some(scheduled) },
            },
        )
    }

    /// What holds of a controller from its start on: the wait does not
    /// begin before the message was handed out, and once the send has
    /// finished the identifier of the message is known.
    pub open spec fn well_formed(self) -> bool {
        &&& self.wait_started_ms >= self.issued_at_ms
        &&& self.phase != Phase::AwaitingSend ==> self.pending.current_message_id is Some
    }

    /// The message that revokes the scheduled one: same conversation, same
    /// sender, same identifier.
    pub open spec fn revocation(self) -> OutboundMessageView {
        OutboundMessageView {
            id: self.pending.current_message_id,
            conversation: self.pending.conversation,
            sender: self.pending.sender,
            target: None,
            payload: PayloadView::Unschedule,
        }
    }

    /// When the wait is over.
    pub open spec fn deadline(self) -> int {
        self.wait_started_ms + self.wait_ms
    }

    /// How long to wait at `now_ms` for the wait to be over, as far as a
    /// wait can be told in 64 bits.
    pub open spec fn remaining(self, now_ms: u64) -> u64
        recommends
            now_ms < self.deadline(),
    {
        if self.deadline() - now_ms <= u64::MAX {
            (self.deadline() - now_ms) as u64
        } else {
            u64::MAX
        }
    }

    /// The send of the scheduled message has finished at `now_ms`, with
    /// `failure` if it failed. The wait starts either way.
    pub open spec fn on_send_finished(
        self,
        message_id: Seq<char>,
        failure: Option<Seq<char>>,
        now_ms: u64,
    ) -> (ScheduledSendView, Seq<EffectView>) {
        if self.phase == Phase::AwaitingSend {
            let next = ScheduledSendView {
                pending: PendingScheduledMessageView {
                    current_message_id: Some(message_id),
                    ..self.pending
                },
                wait_started_ms: if now_ms >= self.issued_at_ms {
                    now_ms
                } else {
                    self.issued_at_ms
                },
                phase: Phase::Waiting,
                ..self
            };
            let wait = seq![EffectView::Wait(self.wait_ms)];
            match failure {
                Some(detail) => (
                    next,
                    seq![EffectView::LogSendFailure { purpose: SendPurpose::Scheduled, detail }]
                        + wait,
                ),
                None => (next, wait),
            }
        } else {
            (self, Seq::empty())
        }
    }

    /// A wait is over at `now_ms`. The revocation goes out if the whole
    /// wait has passed; else the rest of it is waited for.
    pub open spec fn on_timer(self, now_ms: u64) -> (ScheduledSendView, Seq<EffectView>) {
        if self.phase == Phase::Waiting {
            if now_ms >= self.deadline() {
                (
                    ScheduledSendView { phase: Phase::AwaitingRevoke, ..self },
                    seq![
                        EffectView::Send {
                            message: self.revocation(),
                            purpose: SendPurpose::Unschedule,
                        },
                    ],
                )
            } else {
                (self, seq![EffectView::Wait(self.remaining(now_ms))])
            }
        } else {
            (self, Seq::empty())
        }
    }

    /// The send of the revocation has finished, with `failure` if it
    /// failed.
    pub open spec fn on_revoke_finished(self, failure: Option<Seq<char>>) -> (
        ScheduledSendView,
        Seq<EffectView>,
    ) {
        if self.phase == Phase::AwaitingRevoke {
            let next = ScheduledSendView { phase: Phase::Done, ..self };
            match failure {
                Some(detail) => (
                    next,
                    seq![EffectView::LogSendFailure { purpose: SendPurpose::Unschedule, detail }],
                ),
                None => (next, Seq::empty()),
            }
        } else {
            (self, Seq::empty())
        }
    }
}

/// What a controller is told of.
pub enum ControllerEvent {
    /// The send of the scheduled message has finished.
    SendFinished { message_id: Seq<char>, failure: Option<Seq<char>>, now_ms: u64 },
    /// A wait is over.
    Timer { now_ms: u64 },
    /// The send of the revocation has finished.
    RevokeFinished { failure: Option<Seq<char>> },
}

impl ScheduledSendView {
    /// The reaction to `event`.
    pub open spec fn step(self, event: ControllerEvent) -> (ScheduledSendView, Seq<EffectView>) {
        match event {
            ControllerEvent::SendFinished { message_id, failure, now_ms } => self.on_send_finished(
                message_id,
                failure,
                now_ms,
            ),
            ControllerEvent::Timer { now_ms } => self.on_timer(now_ms),
            ControllerEvent::RevokeFinished { failure } => self.on_revoke_finished(failure),
        }
    }

    /// The controller after `events`.
    pub open spec fn run(self, events: Seq<ControllerEvent>) -> ScheduledSendView
        decreases events.len(),
    {
        if events.len() == 0 {
            self
        } else {
            self.run(events.drop_last()).step(events.last()).0
        }
    }
}

/// The controller of one scheduled message. It tracks that one message and
/// no other; several controllers may be alive at once, and none knows of
/// the others.
#[derive(Debug, PartialEq, Eq)]
pub struct ScheduledSend {
    pending: PendingScheduledMessage,
    issued_at_ms: u64,
    wait_ms: u64,
    wait_started_ms: u64,
    phase: Phase,
}

impl View for ScheduledSend {
    type V = ScheduledSendView;

    closed spec fn view(&self) -> ScheduledSendView {
        ScheduledSendView {
            pending: self.pending@,
            issued_at_ms: self.issued_at_ms,
            wait_ms: self.wait_ms,
            wait_started_ms: self.wait_started_ms,
            phase: self.phase,
        }
    }
}

impl DeepView for ScheduledSend {
    type V = ScheduledSendView;

    open spec fn deep_view(&self) -> ScheduledSendView {
        self.view()
    }
}

impl ScheduledSend {
    /// Starts a scheduled send at `now_ms`: the message to hand to the
    /// message client, and the controller that revokes it later.
    pub fn begin(
        target: String,
        sender: String,
        body: String,
        guid: String,
        now_ms: u64,
        timing: Timing,
    ) -> (r: (ScheduledSend, OutboundMessage))
        requires
            now_ms + timing.schedule_delay_ms <= u64::MAX,
        ensures
            (r.0@, r.1@) == ScheduledSendView::begin(
                target@,
                sender@,
                body@,
                guid@,
                now_ms,
                timing,
            ),
    {
        let mut participants: Vec<String> = Vec::new();
        participants.push(target);
        assert(participants.deep_view() =~= seq![target@]);
        let conversation = Conversation {
            participants,
            cv_name: None,
            sender_guid: Some(guid),
            after_guid: None,
        };
        let scheduled: u64 = now_ms + timing.schedule_delay_ms;
        let message = OutboundMessage {
            id: None,
            conversation: conversation.clone(),
            sender: sender.clone(),
            target: None,
            payload: Payload::Text { text: body, scheduled_ms: Some(scheduled) },
        };
        let controller = ScheduledSend {
            pending: PendingScheduledMessage {
                conversation,
                sender,
                scheduled_epoch_ms: scheduled,
                current_message_id: None,
            },
            issued_at_ms: now_ms,
            wait_ms: timing.revoke_wait_ms,
            wait_started_ms: now_ms,
            phase: Phase::AwaitingSend,
        };
        (controller, message)
    }

    pub fn phase(&self) -> (r: Phase)
        ensures
            r == self@.phase,
    {
        self.phase
    }

    /// The message that is tracked.
    pub fn pending(&self) -> (r: &PendingScheduledMessage)
        ensures
            r@ == self@.pending,
    {
        &self.pending
    }

    pub fn issued_at_ms(&self) -> (r: u64)
        ensures
            r == self@.issued_at_ms,
    {
        self.issued_at_ms
    }

    pub fn wait_ms(&self) -> (r: u64)
        ensures
            r == self@.wait_ms,
    {
        self.wait_ms
    }

    pub fn wait_started_ms(&self) -> (r: u64)
        ensures
            r == self@.wait_started_ms,
    {
        self.wait_started_ms
    }

    /// The send of the scheduled message has finished at `now_ms`;
    /// `message_id` is the identifier that the message has now, `failure`
    /// what went wrong, if anything did.
    pub fn on_send_finished(
        &mut self,
        message_id: String,
        failure: Option<String>,
        now_ms: u64,
    ) -> (effects: Vec<Effect>)
        ensures
            (final(self)@, effects.deep_view()) == old(self)@.on_send_finished(
                message_id@,
                failure.deep_view(),
                now_ms,
            ),
    {
        let mut effects: Vec<Effect> = Vec::new();
        match self.phase {
            Phase::AwaitingSend => {
                self.pending.current_message_id = Some(message_id);
                self.wait_started_ms = if now_ms >= self.issued_at_ms {
                    now_ms
                } else {
                    self.issued_at_ms
                };
                self.phase = Phase::Waiting;
                match failure {
                    Some(detail) => {
                        effects.push(
                            Effect::LogSendFailure { purpose: SendPurpose::Scheduled, detail },
                        );
                    },
                    None => {},
                }
                effects.push(Effect::Wait(self.wait_ms));
            },
            _ => {},
        }
        assert(effects.deep_view() =~= old(self)@.on_send_finished(
            message_id@,
            failure.deep_view(),
            now_ms,
        ).1);
        effects
    }

    /// A wait is over at `now_ms`.
    pub fn on_timer(&mut self, now_ms: u64) -> (effects: Vec<Effect>)
        ensures
            (final(self)@, effects.deep_view()) == old(self)@.on_timer(now_ms),
    {
        let mut effects: Vec<Effect> = Vec::new();
        match self.phase {
            Phase::Waiting => {
                if now_ms >= self.wait_started_ms && now_ms - self.wait_started_ms
                    >= self.wait_ms {
                    let message = OutboundMessage {
                        id: self.pending.current_message_id.clone(),
                        conversation: self.pending.conversation.clone(),
                        sender: self.pending.sender.clone(),
                        target: None,
                        payload: Payload::Unschedule,
                    };
                    self.phase = Phase::AwaitingRevoke;
                    effects.push(Effect::Send { message, purpose: SendPurpose::Unschedule });
                } else if now_ms >= self.wait_started_ms {
                    effects.push(Effect::Wait(self.wait_ms - (now_ms - self.wait_started_ms)));
                } else {
                    let behind: u64 = self.wait_started_ms - now_ms;
                    if behind <= u64::MAX - self.wait_ms {
                        effects.push(Effect::Wait(behind + self.wait_ms));
                    } else {
                        effects.push(Effect::Wait(u64::MAX));
                    }
                }
            },
            _ => {},
        }
        assert(effects.deep_view() =~= old(self)@.on_timer(now_ms).1);
        effects
    }

    /// The send of the revocation has finished; `failure` is what went
    /// wrong, if anything did.
    pub fn on_revoke_finished(&mut self, failure: Option<String>) -> (effects: Vec<Effect>)
        ensures
            (final(self)@, effects.deep_view()) == old(self)@.on_revoke_finished(
                failure.deep_view(),
            ),
    {
        let mut effects: Vec<Effect> = Vec::new();
        match self.phase {
            Phase::AwaitingRevoke => {
                self.phase = Phase::Done;
                match failure {
                    Some(detail) => {
                        effects.push(
                            Effect::LogSendFailure { purpose: SendPurpose::Unschedule, detail },
                        );
                    },
                    None => {},
                }
            },
            _ => {},
        }
        assert(effects.deep_view() =~= old(self)@.on_revoke_finished(failure.deep_view()).1);
        effects
    }
}

} // verus!
