//! Messages as the session sees them: what a decoded envelope carries, and
//! what is handed to the message client for sending.

use vstd::prelude::*;

verus! {

/// The participants and correlation identifiers of one conversation.
#[derive(Debug, PartialEq, Eq)]
pub struct Conversation {
    pub participants: Vec<String>,
    pub cv_name: Option<String>,
    pub sender_guid: Option<String>,
    pub after_guid: Option<String>,
}

/// A `Conversation` as contracts see it.
pub struct ConversationView {
    pub participants: Seq<Seq<char>>,
    pub cv_name: Option<Seq<char>>,
    pub sender_guid: Option<Seq<char>>,
    pub after_guid: Option<Seq<char>>,
}

impl View for Conversation {
    type V = ConversationView;

    open spec fn view(&self) -> ConversationView {
        ConversationView {
            participants: self.participants.deep_view(),
            cv_name: self.cv_name.deep_view(),
            sender_guid: self.sender_guid.deep_view(),
            after_guid: self.after_guid.deep_view(),
        }
    }
}

impl DeepView for Conversation {
    type V = ConversationView;

    open spec fn deep_view(&self) -> ConversationView {
        self.view()
    }
}

impl Clone for Conversation {
    fn clone(&self) -> (r: Self)
        ensures
            r@ == self@,
    {
        let participants = self.participants.clone();
        assert(participants.deep_view() =~= self.participants.deep_view());
        Conversation {
            participants,
            cv_name: self.cv_name.clone(),
            sender_guid: self.sender_guid.clone(),
            after_guid: self.after_guid.clone(),
        }
    }
}

/// One device or account that a message is addressed to.
#[derive(Debug, PartialEq, Eq)]
pub enum MessageTarget {
    Token(Vec<u8>),
    Uuid(String),
}

/// A `MessageTarget` as contracts see it.
pub enum MessageTargetView {
    Token(Seq<u8>),
    Uuid(Seq<char>),
}

impl View for MessageTarget {
    type V = MessageTargetView;

    open spec fn view(&self) -> MessageTargetView {
        match self {
            MessageTarget::Token(bytes) => MessageTargetView::Token(bytes@),
            MessageTarget::Uuid(id) => MessageTargetView::Uuid(id@),
        }
    }
}

impl DeepView for MessageTarget {
    type V = MessageTargetView;

    open spec fn deep_view(&self) -> MessageTargetView {
        self.view()
    }
}

impl Clone for MessageTarget {
    fn clone(&self) -> (r: Self)
        ensures
            r@ == self@,
    {
        match self {
            MessageTarget::Token(bytes) => MessageTarget::Token(bytes.clone()),
            MessageTarget::Uuid(id) => MessageTarget::Uuid(id.clone()),
        }
    }
}

/// What an outgoing message asks of its receivers.
#[derive(Debug, PartialEq, Eq)]
pub enum Payload {
    /// Acknowledges that a message has arrived.
    Delivered,
    /// Switches the account's secondary channel on or off.
    EnableSmsActivation(bool),
    /// Plain text, to be shown at `scheduled_ms` (milliseconds since the
    /// epoch) where that is set, at once where it is not.
    Text { text: String, scheduled_ms: Option<u64> },
    /// Revokes the scheduled message that carries the same identifier.
    Unschedule,
}

/// A `Payload` as contracts see it.
pub enum PayloadView {
    Delivered,
    EnableSmsActivation(bool),
    Text { text: Seq<char>, scheduled_ms: Option<u64> },
    Unschedule,
}

impl View for Payload {
    type V = PayloadView;

    open spec fn view(&self) -> PayloadView {
        match self {
            Payload::Delivered => PayloadView::Delivered,
            Payload::EnableSmsActivation(on) => PayloadView::EnableSmsActivation(*on),
            Payload::Text { text, scheduled_ms } => PayloadView::Text {
                text: text@,
                scheduled_ms: *scheduled_ms,
            },
            Payload::Unschedule => PayloadView::Unschedule,
        }
    }
}

/// A message for the message client to send.
///
/// `id` is `None` where the client is to give the message an identifier of
/// its own.
#[derive(Debug, PartialEq, Eq)]
pub struct OutboundMessage {
    pub id: Option<String>,
    pub conversation: Conversation,
    pub sender: String,
    pub target: Option<Vec<MessageTarget>>,
    pub payload: Payload,
}

/// An `OutboundMessage` as contracts see it.
pub struct OutboundMessageView {
    pub id: Option<Seq<char>>,
    pub conversation: ConversationView,
    pub sender: Seq<char>,
    pub target: Option<Seq<MessageTargetView>>,
    pub payload: PayloadView,
}

impl View for OutboundMessage {
    type V = OutboundMessageView;

    open spec fn view(&self) -> OutboundMessageView {
        OutboundMessageView {
            id: self.id.deep_view(),
            conversation: self.conversation@,
            sender: self.sender@,
            target: self.target.deep_view(),
            payload: self.payload@,
        }
    }
}

/// What the message client made of one envelope.
#[derive(Debug, PartialEq, Eq)]
pub struct InboundMessage {
    pub id: String,
    pub conversation: Option<Conversation>,
    pub target: Option<Vec<MessageTarget>>,
    /// Whether there is anything to show to the user.
    pub has_payload: bool,
    /// Whether the sender asks for a delivery receipt.
    pub send_delivered: bool,
    /// The message in its textual form.
    pub rendered: String,
}

/// An `InboundMessage` as contracts see it.
pub struct InboundMessageView {
    pub id: Seq<char>,
    pub conversation: Option<ConversationView>,
    pub target: Option<Seq<MessageTargetView>>,
    pub has_payload: bool,
    pub send_delivered: bool,
    pub rendered: Seq<char>,
}

impl View for InboundMessage {
    type V = InboundMessageView;

    open spec fn view(&self) -> InboundMessageView {
        InboundMessageView {
            id: self.id@,
            conversation: self.conversation.deep_view(),
            target: self.target.deep_view(),
            has_payload: self.has_payload,
            send_delivered: self.send_delivered,
            rendered: self.rendered@,
        }
    }
}

impl InboundMessageView {
    /// A message that asks for a receipt names the conversation to send it
    /// to.
    pub open spec fn well_formed(self) -> bool {
        self.has_payload && self.send_delivered ==> self.conversation is Some
    }
}

/// What is kept of an inbound message that asks for a delivery receipt,
/// from the moment it is first seen until the receipt is made of it.
#[derive(Debug, PartialEq, Eq)]
pub struct DeliveryTicket {
    pub message_id: String,
    pub conversation: Conversation,
    pub target: Option<Vec<MessageTarget>>,
    /// The handle that the receipt is sent from.
    pub sender: String,
    /// The textual form of the message that is acknowledged.
    pub original_payload: String,
}

/// A `DeliveryTicket` as contracts see it.
pub struct DeliveryTicketView {
    pub message_id: Seq<char>,
    pub conversation: ConversationView,
    pub target: Option<Seq<MessageTargetView>>,
    pub sender: Seq<char>,
    pub original_payload: Seq<char>,
}

impl View for DeliveryTicket {
    type V = DeliveryTicketView;

    open spec fn view(&self) -> DeliveryTicketView {
        DeliveryTicketView {
            message_id: self.message_id@,
            conversation: self.conversation@,
            target: self.target.deep_view(),
            sender: self.sender@,
            original_payload: self.original_payload@,
        }
    }
}

impl DeliveryTicketView {
    /// The ticket for `message`, whose receipt `sender` sends.
    pub open spec fn of(message: InboundMessageView, sender: Seq<char>) -> DeliveryTicketView
        recommends
            message.conversation is Some,
    {
        DeliveryTicketView {
            message_id: message.id,
            conversation: message.conversation->0,
            target: message.target,
            sender,
            original_payload: message.rendered,
        }
    }

    /// The receipt: it goes to the conversation of the message that it
    /// acknowledges, under that message's identifier and target.
    pub open spec fn receipt(self) -> OutboundMessageView {
        OutboundMessageView {
            id: Some(self.message_id),
            conversation: self.conversation,
            sender: self.sender,
            target: self.target,
            payload: PayloadView::Delivered,
        }
    }
}

impl DeliveryTicket {
    /// Uses the ticket up and gives the receipt.
    pub fn into_receipt(self) -> (r: OutboundMessage)
        ensures
            r@ == self@.receipt(),
    {
        OutboundMessage {
            id: Some(self.message_id),
            conversation: self.conversation,
            sender: self.sender,
            target: self.target,
            payload: Payload::Delivered,
        }
    }
}

} // verus!
