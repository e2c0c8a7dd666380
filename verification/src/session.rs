//! The session event loop, as a function from state and event to next
//! state and effects.

use crate::command::{interpret, interpret_spec, Command, CommandView, Grammar, GrammarView};
use crate::effect::{Effect, EffectView, Notice, NoticeView, SendPurpose};
use crate::guid::{fresh_guid, is_guid};
use crate::ledger::DedupLedger;
use crate::message::{
    Conversation, ConversationView, DeliveryTicket, DeliveryTicketView, InboundMessage,
    InboundMessageView, OutboundMessage, OutboundMessageView, Payload, PayloadView,
};
use crate::schedule::{ScheduledSend, ScheduledSendView, Timing};
use vstd::prelude::*;

verus! {

/// What the message client made of an envelope.
#[derive(Debug, PartialEq, Eq)]
pub enum DecodeOutcome {
    /// The client failed on it.
    Failed(String),
    /// The client handled it and has nothing to pass on.
    Ignored,
    /// The client decoded a message.
    Message(InboundMessage),
}

/// A `DecodeOutcome` as contracts see it.
pub enum DecodeOutcomeView {
    Failed(Seq<char>),
    Ignored,
    Message(InboundMessageView),
}

impl View for DecodeOutcome {
    type V = DecodeOutcomeView;

    open spec fn view(&self) -> DecodeOutcomeView {
        match self {
            DecodeOutcome::Failed(detail) => DecodeOutcomeView::Failed(detail@),
            DecodeOutcome::Ignored => DecodeOutcomeView::Ignored,
            DecodeOutcome::Message(message) => DecodeOutcomeView::Message(message@),
        }
    }
}

/// Something that happened, for the session to react to.
#[derive(Debug, PartialEq, Eq)]
pub enum Event {
    /// The subscription delivered an envelope.
    EnvelopeArrived,
    /// The location service is done with the envelope.
    LocationHandled { failure: Option<String> },
    /// The message client is done with the envelope.
    Decoded(DecodeOutcome),
    /// The task that reads a line ended without one.
    ReadFailed,
    /// A line was read, at `now_ms` milliseconds since the epoch.
    Line { text: String, now_ms: u64 },
    /// A send that the session asked for has finished.
    SendFinished { purpose: SendPurpose, failure: Option<String> },
}

/// An `Event` as contracts see it.
pub enum EventView {
    EnvelopeArrived,
    LocationHandled { failure: Option<Seq<char>> },
    Decoded(DecodeOutcomeView),
    ReadFailed,
    Line { text: Seq<char>, now_ms: u64 },
    SendFinished { purpose: SendPurpose, failure: Option<Seq<char>> },
}

impl View for Event {
    type V = EventView;

    open spec fn view(&self) -> EventView {
        match self {
            Event::EnvelopeArrived => EventView::EnvelopeArrived,
            Event::LocationHandled { failure } => EventView::LocationHandled {
                failure: failure.deep_view(),
            },
            Event::Decoded(outcome) => EventView::Decoded(outcome@),
            Event::ReadFailed => EventView::ReadFailed,
            Event::Line { text, now_ms } => EventView::Line { text: text@, now_ms: *now_ms },
            Event::SendFinished { purpose, failure } => EventView::SendFinished {
                purpose: *purpose,
                failure: failure.deep_view(),
            },
        }
    }
}

/// A `Session` as contracts see it: the state of the event loop.
pub struct SessionView {
    pub grammar: GrammarView,
    pub timing: Timing,
    /// The handle that this session sends from.
    pub handle: Seq<char>,
    /// The recipient of plain messages; empty while none is selected.
    pub filter_target: Seq<char>,
    /// The identifiers of the messages shown so far, oldest first.
    pub ledger: Seq<Seq<char>>,
}

/// The conversation of an account-level message: nobody takes part in it.
pub open spec fn control_conversation(guid: Seq<char>) -> ConversationView {
    ConversationView {
        participants: Seq::empty(),
        cv_name: None,
        sender_guid: Some(guid),
        after_guid: None,
    }
}

impl SessionView {
    /// A session that has shown nothing and has no recipient selected.
    pub open spec fn initial(grammar: GrammarView, timing: Timing, handle: Seq<char>) -> SessionView {
        SessionView { grammar, timing, handle, filter_target: Seq::empty(), ledger: Seq::empty() }
    }

    /// The events that a session reacts to: a decoded message that asks
    /// for a receipt names its conversation, and the delivery time of a
    /// message that is to be scheduled fits in 64 bits.
    pub open spec fn admits(self, event: EventView) -> bool {
        match event {
            EventView::Decoded(DecodeOutcomeView::Message(message)) => message.well_formed(),
            EventView::Line { text, now_ms } => interpret_spec(
                self.grammar,
                self.filter_target,
                text,
            ) is SendScheduledPlainMessage ==> now_ms + self.timing.schedule_delay_ms <= u64::MAX,
            _ => true,
        }
    }

    /// Whether the reaction to `event` holds a fresh identifier.
    pub open spec fn draws_guid(self, event: EventView) -> bool {
        match event {
            EventView::Line { text, .. } => match interpret_spec(
                self.grammar,
                self.filter_target,
                text,
            ) {
                CommandView::ActivateSecondaryChannel => true,
                CommandView::SendScheduledPlainMessage { .. } => true,
                _ => false,
            },
            _ => false,
        }
    }

    /// The message that activates the secondary channel.
    pub open spec fn activation(self, guid: Seq<char>) -> OutboundMessageView {
        OutboundMessageView {
            id: None,
            conversation: control_conversation(guid),
            sender: self.handle,
            target: None,
            payload: PayloadView::EnableSmsActivation(true),
        }
    }

    /// An envelope goes to the location service first, then to the message
    /// client.
    pub open spec fn on_envelope(self) -> (SessionView, Seq<EffectView>) {
        (self, seq![EffectView::NotifyLocationService, EffectView::DecodeEnvelope])
    }

    /// A message is shown once: if it has something to show and its
    /// identifier is not in the ledger, the identifier is recorded and the
    /// message shown, with a receipt where it asks for one.
    pub open spec fn on_decoded(self, outcome: DecodeOutcomeView) -> (
        SessionView,
        Seq<EffectView>,
    ) {
        match outcome {
            DecodeOutcomeView::Failed(detail) => (
                self,
                seq![EffectView::LogReceiveFailure(detail)],
            ),
            DecodeOutcomeView::Ignored => (self, Seq::empty()),
            DecodeOutcomeView::Message(message) => {
                if message.has_payload && !self.ledger.contains(message.id) {
                    let next = SessionView { ledger: self.ledger.push(message.id), ..self };
                    let shown = seq![EffectView::Display(message.rendered), EffectView::Prompt];
                    if message.send_delivered {
                        (
                            next,
                            shown + seq![
                                EffectView::Notify(NoticeView::SendingReceipt),
                                EffectView::Send {
                                    message: DeliveryTicketView::of(message, self.handle).receipt(),
                                    purpose: SendPurpose::Receipt,
                                },
                            ],
                        )
                    } else {
                        (next, shown)
                    }
                } else {
                    (self, Seq::empty())
                }
            },
        }
    }

    /// What a command does. The prompt and the next read follow whatever
    /// the command was.
    pub open spec fn on_command(self, command: CommandView, guid: Seq<char>, now_ms: u64) -> (
        SessionView,
        Seq<EffectView>,
    ) {
        let rearm = seq![EffectView::Prompt, EffectView::ReadLine];
        match command {
            CommandView::NoOp => (self, rearm),
            CommandView::SetFilter(target) => (
                SessionView { filter_target: target, ..self },
                seq![EffectView::Notify(NoticeView::FilterSet(target))] + rearm,
            ),
            CommandView::ActivateSecondaryChannel => (
                self,
                seq![
                    EffectView::Send {
                        message: self.activation(guid),
                        purpose: SendPurpose::Activation,
                    },
                ] + rearm,
            ),
            CommandView::ReportUsageError => (
                self,
                seq![EffectView::Notify(NoticeView::Usage)] + rearm,
            ),
            CommandView::SendScheduledPlainMessage { body, target } => {
                let (controller, message) = ScheduledSendView::begin(
                    target,
                    self.handle,
                    body,
                    guid,
                    now_ms,
                    self.timing,
                );
                (self, seq![EffectView::ScheduleSend { message, controller }] + rearm)
            },
        }
    }

    /// A send has finished: a failure is logged, whatever was sent; the
    /// user is told of an activation that went well.
    pub open spec fn on_send_finished(self, purpose: SendPurpose, failure: Option<Seq<char>>) -> (
        SessionView,
        Seq<EffectView>,
    ) {
        match failure {
            Some(detail) => (self, seq![EffectView::LogSendFailure { purpose, detail }]),
            None => if purpose == SendPurpose::Activation {
                (self, seq![EffectView::Notify(NoticeView::SecondaryChannelActivated)])
            } else {
                (self, Seq::empty())
            },
        }
    }

    /// The reaction to `event`: the next state and the effects, in the
    /// order in which they are to be performed. `guid` is the fresh
    /// identifier that is used where the reaction holds one.
    pub open spec fn step(self, event: EventView, guid: Seq<char>) -> (
        SessionView,
        Seq<EffectView>,
    ) {
        match event {
            EventView::EnvelopeArrived => self.on_envelope(),
            EventView::LocationHandled { .. } => (self, Seq::empty()),
            EventView::Decoded(outcome) => self.on_decoded(outcome),
            EventView::ReadFailed => (self, seq![EffectView::ReadLine]),
            EventView::Line { text, now_ms } => self.on_command(
                interpret_spec(self.grammar, self.filter_target, text),
                guid,
                now_ms,
            ),
            EventView::SendFinished { purpose, failure } => self.on_send_finished(
                purpose,
                failure,
            ),
        }
    }
}

/// One interactive session: who sends, whom plain messages go to, and
/// which messages were shown.
#[derive(Debug)]
pub struct Session {
    grammar: Grammar,
    timing: Timing,
    handle: String,
    filter_target: String,
    ledger: DedupLedger,
}

impl View for Session {
    type V = SessionView;

    closed spec fn view(&self) -> SessionView {
        SessionView {
            grammar: self.grammar@,
            timing: self.timing,
            handle: self.handle@,
            filter_target: self.filter_target@,
            ledger: self.ledger@,
        }
    }
}

impl Session {
    /// A session for the sender `handle`, with the usual words and delays.
    pub fn new(handle: String) -> (r: Session)
        ensures
            r@ == SessionView::initial(
                Grammar::standard_view(),
                Timing::standard_view(),
                handle@,
            ),
    {
        Session::with_settings(handle, Grammar::standard(), Timing::standard())
    }

    /// A session for the sender `handle`, with words and delays of the
    /// caller's choice.
    pub fn with_settings(handle: String, grammar: Grammar, timing: Timing) -> (r: Session)
        ensures
            r@ == SessionView::initial(grammar@, timing, handle@),
    {
        Session {
            grammar,
            timing,
            handle,
            filter_target: String::new(),
            ledger: DedupLedger::new(),
        }
    }

    pub fn grammar(&self) -> (r: &Grammar)
        ensures
            r@ == self@.grammar,
    {
        &self.grammar
    }

    pub fn timing(&self) -> (r: Timing)
        ensures
            r == self@.timing,
    {
        self.timing
    }

    pub fn handle(&self) -> (r: &str)
        ensures
            r@ == self@.handle,
    {
        self.handle.as_str()
    }

    /// The recipient of plain messages; empty while none is selected.
    pub fn filter_target(&self) -> (r: &str)
        ensures
            r@ == self@.filter_target,
    {
        self.filter_target.as_str()
    }

    /// The identifiers of the messages shown so far.
    pub fn ledger(&self) -> (r: &DedupLedger)
        ensures
            r@ == self@.ledger,
    {
        &self.ledger
    }

    /// Whether the session reacts to `event`: see `SessionView::admits`.
    pub fn admits(&self, event: &Event) -> (r: bool)
        ensures
            r == self@.admits(event@),
    {
        match event {
            Event::Decoded(DecodeOutcome::Message(message)) => {
                !(message.has_payload && message.send_delivered) || message.conversation.is_some()
            },
            Event::Line { text, now_ms } => {
                match interpret(&self.grammar, self.filter_target.as_str(), text.as_str()) {
                    Command::SendScheduledPlainMessage { .. } => *now_ms <= u64::MAX
                        - self.timing.schedule_delay_ms,
                    _ => true,
                }
            },
            _ => true,
        }
    }

    fn on_decoded(&mut self, outcome: DecodeOutcome) -> (effects: Vec<Effect>)
        requires
            old(self)@.admits(EventView::Decoded(outcome@)),
        ensures
            (final(self)@, effects.deep_view()) == old(self)@.on_decoded(outcome@),
    {
        let mut effects: Vec<Effect> = Vec::new();
        match outcome {
            DecodeOutcome::Failed(detail) => {
                effects.push(Effect::LogReceiveFailure(detail));
            },
            DecodeOutcome::Ignored => {},
            DecodeOutcome::Message(message) => {
                if message.has_payload && !self.ledger.seen(message.id.as_str()) {
                    let InboundMessage { id, conversation, target, send_delivered, rendered, .. } =
                        message;
                    self.ledger.record(id.clone());
                    if send_delivered {
                        let ticket = DeliveryTicket {
                            message_id: id,
                            conversation: conversation.unwrap(),
                            target,
                            sender: self.handle.clone(),
                            original_payload: rendered.clone(),
                        };
                        effects.push(Effect::Display(rendered));
                        effects.push(Effect::Prompt);
                        effects.push(Effect::Notify(Notice::SendingReceipt));
                        effects.push(
                            Effect::Send {
                                message: ticket.into_receipt(),
                                purpose: SendPurpose::Receipt,
                            },
                        );
                    } else {
                        effects.push(Effect::Display(rendered));
                        effects.push(Effect::Prompt);
                    }
                }
            },
        }
        assert(effects.deep_view() =~= old(self)@.on_decoded(outcome@).1);
        effects
    }

    fn on_command(&mut self, command: Command, guid: String, now_ms: u64) -> (effects: Vec<Effect>)
        requires
            command is SendScheduledPlainMessage ==> now_ms + old(self)@.timing.schedule_delay_ms
                <= u64::MAX,
        ensures
            (final(self)@, effects.deep_view()) == old(self)@.on_command(
                command@,
                guid@,
                now_ms,
            ),
    {
        let mut effects: Vec<Effect> = Vec::new();
        match command {
            Command::NoOp => {},
            Command::SetFilter(target) => {
                self.filter_target = target.clone();
                effects.push(Effect::Notify(Notice::FilterSet(target)));
            },
            Command::ActivateSecondaryChannel => {
                let participants: Vec<String> = Vec::new();
                assert(participants.deep_view() =~= Seq::<Seq<char>>::empty());
                let message = OutboundMessage {
                    id: None,
                    conversation: Conversation {
                        participants,
                        cv_name: None,
                        sender_guid: Some(guid),
                        after_guid: None,
                    },
                    sender: self.handle.clone(),
                    target: None,
                    payload: Payload::EnableSmsActivation(true),
                };
                effects.push(Effect::Send { message, purpose: SendPurpose::Activation });
            },
            Command::ReportUsageError => {
                effects.push(Effect::Notify(Notice::Usage));
            },
            Command::SendScheduledPlainMessage { body, target } => {
                let (controller, message) = ScheduledSend::begin(
                    target,
                    self.handle.clone(),
                    body,
                    guid,
                    now_ms,
                    self.timing,
                );
                effects.push(Effect::ScheduleSend { message, controller });
            },
        }
        effects.push(Effect::Prompt);
        effects.push(Effect::ReadLine);
        assert(effects.deep_view() =~= old(self)@.on_command(command@, guid@, now_ms).1);
        effects
    }

    fn on_send_finished(&self, purpose: SendPurpose, failure: Option<String>) -> (effects: Vec<
        Effect,
    >)
        ensures
            (self@, effects.deep_view()) == self@.on_send_finished(purpose, failure.deep_view()),
    {
        let mut effects: Vec<Effect> = Vec::new();
        match failure {
            Some(detail) => {
                effects.push(Effect::LogSendFailure { purpose, detail });
            },
            None => {
                match purpose {
                    SendPurpose::Activation => {
                        effects.push(Effect::Notify(Notice::SecondaryChannelActivated));
                    },
                    _ => {},
                }
            },
        }
        assert(effects.deep_view() =~= self@.on_send_finished(purpose, failure.deep_view()).1);
        effects
    }

    /// Reacts to `event`, with `guid` as the fresh identifier where the
    /// reaction holds one.
    pub fn step_with_guid(&mut self, event: Event, guid: String) -> (effects: Vec<Effect>)
        requires
            old(self)@.admits(event@),
        ensures
            (final(self)@, effects.deep_view()) == old(self)@.step(event@, guid@),
    {
        match event {
            Event::EnvelopeArrived => {
                let mut effects: Vec<Effect> = Vec::new();
                effects.push(Effect::NotifyLocationService);
                effects.push(Effect::DecodeEnvelope);
                assert(effects.deep_view() =~= self@.on_envelope().1);
                effects
            },
            Event::LocationHandled { .. } => {
                let effects: Vec<Effect> = Vec::new();
                assert(effects.deep_view() =~= Seq::<EffectView>::empty());
                effects
            },
            Event::Decoded(outcome) => self.on_decoded(outcome),
            Event::ReadFailed => {
                let mut effects: Vec<Effect> = Vec::new();
                effects.push(Effect::ReadLine);
                assert(effects.deep_view() =~= seq![EffectView::ReadLine]);
                effects
            },
            Event::Line { text, now_ms } => {
                let command = interpret(
                    &self.grammar,
                    self.filter_target.as_str(),
                    text.as_str(),
                );
                self.on_command(command, guid, now_ms)
            },
            Event::SendFinished { purpose, failure } => self.on_send_finished(purpose, failure),
        }
    }

    /// Reacts to `event`. Where the reaction holds a fresh identifier, one
    /// is drawn; which one, nothing says.
    pub fn step(&mut self, event: Event) -> (effects: Vec<Effect>)
        requires
            old(self)@.admits(event@),
        ensures
            exists|guid: Seq<char>|
                (old(self)@.draws_guid(event@) ==> is_guid(guid)) && (
                final(self)@,
                effects.deep_view(),
            ) == #[trigger] old(self)@.step(event@, guid),
    {
        match event {
            Event::Line { text, now_ms } => {
                let command = interpret(
                    &self.grammar,
                    self.filter_target.as_str(),
                    text.as_str(),
                );
                let guid = match command {
                    Command::ActivateSecondaryChannel => fresh_guid(),
                    Command::SendScheduledPlainMessage { .. } => fresh_guid(),
                    _ => String::new(),
                };
                let ghost witness = guid@;
                let effects = self.on_command(command, guid, now_ms);
                assert((self@, effects.deep_view()) == old(self)@.step(event@, witness));
                effects
            },
            other => {
                let effects = self.step_with_guid(other, String::new());
                assert((self@, effects.deep_view()) == old(self)@.step(
                    event@,
                    Seq::<char>::empty(),
                ));
                effects
            },
        }
    }
}

} // verus!
