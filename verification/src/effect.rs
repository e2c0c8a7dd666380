//! What the session asks its driver to do.

use crate::message::{OutboundMessage, OutboundMessageView};
use crate::schedule::{ScheduledSend, ScheduledSendView};
use vstd::prelude::*;

verus! {

/// Why a message is sent; it decides what is said when the send fails.
#[derive(Debug, Clone, Copy, PartialEq, Eq, Structural)]
pub enum SendPurpose {
    /// A delivery receipt for a message that was shown.
    Receipt,
    /// The activation of the secondary channel.
    Activation,
    /// A plain message with a scheduled delivery time.
    Scheduled,
    /// The revocation of a scheduled message.
    Unschedule,
}

/// Something to tell the user.
#[derive(Debug, PartialEq, Eq)]
pub enum Notice {
    /// The recipient of plain messages is now this one.
    FilterSet(String),
    /// Plain text needs a recipient: how to select one.
    Usage,
    /// The secondary channel was activated.
    SecondaryChannelActivated,
    /// A delivery receipt is about to be sent.
    SendingReceipt,
}

/// A `Notice` as contracts see it.
pub enum NoticeView {
    FilterSet(Seq<char>),
    Usage,
    SecondaryChannelActivated,
    SendingReceipt,
}

impl View for Notice {
    type V = NoticeView;

    open spec fn view(&self) -> NoticeView {
        match self {
            Notice::FilterSet(target) => NoticeView::FilterSet(target@),
            Notice::Usage => NoticeView::Usage,
            Notice::SecondaryChannelActivated => NoticeView::SecondaryChannelActivated,
            Notice::SendingReceipt => NoticeView::SendingReceipt,
        }
    }
}

/// One thing for the driver to do. The driver performs the effects of a
/// list in order; where an effect has an outcome (a send has finished, a
/// wait is over), it reports that outcome and performs the answer before it
/// goes on with the list.
#[derive(Debug, PartialEq, Eq)]
pub enum Effect {
    /// Hand the envelope to the location service.
    NotifyLocationService,
    /// Hand the envelope to the message client for decoding.
    DecodeEnvelope,
    /// Show an inbound message.
    Display(String),
    /// Write the prompt.
    Prompt,
    /// Tell the user something.
    Notify(Notice),
    /// Log that an envelope could not be handled.
    LogReceiveFailure(String),
    /// Log that a send failed.
    LogSendFailure { purpose: SendPurpose, detail: String },
    /// Send a message and report how the send ended.
    Send { message: OutboundMessage, purpose: SendPurpose },
    /// Send a scheduled message and run `controller` on what follows.
    ScheduleSend { message: OutboundMessage, controller: ScheduledSend },
    /// Wait this many milliseconds, then report that the wait is over.
    Wait(u64),
    /// Start reading the next line of input.
    ReadLine,
}

/// An `Effect` as contracts see it.
pub enum EffectView {
    NotifyLocationService,
    DecodeEnvelope,
    Display(Seq<char>),
    Prompt,
    Notify(NoticeView),
    LogReceiveFailure(Seq<char>),
    LogSendFailure { purpose: SendPurpose, detail: Seq<char> },
    Send { message: OutboundMessageView, purpose: SendPurpose },
    ScheduleSend { message: OutboundMessageView, controller: ScheduledSendView },
    Wait(u64),
    ReadLine,
}

impl View for Effect {
    type V = EffectView;

    open spec fn view(&self) -> EffectView {
        match self {
            Effect::NotifyLocationService => EffectView::NotifyLocationService,
            Effect::DecodeEnvelope => EffectView::DecodeEnvelope,
            Effect::Display(text) => EffectView::Display(text@),
            Effect::Prompt => EffectView::Prompt,
            Effect::Notify(notice) => EffectView::Notify(notice@),
            Effect::LogReceiveFailure(detail) => EffectView::LogReceiveFailure(detail@),
            Effect::LogSendFailure { purpose, detail } => EffectView::LogSendFailure {
                purpose: *purpose,
                detail: detail@,
            },
            Effect::Send { message, purpose } => EffectView::Send {
                message: message@,
                purpose: *purpose,
            },
            Effect::ScheduleSend { message, controller } => EffectView::ScheduleSend {
                message: message@,
                controller: controller@,
            },
            Effect::Wait(millis) => EffectView::Wait(*millis),
            Effect::ReadLine => EffectView::ReadLine,
        }
    }
}

impl DeepView for Effect {
    type V = EffectView;

    open spec fn deep_view(&self) -> EffectView {
        self.view()
    }
}

/// The messages that `effects` hand to the message client, in order.
pub open spec fn sent_messages(effects: Seq<EffectView>) -> Seq<OutboundMessageView>
    decreases effects.len(),
{
    if effects.len() == 0 {
        Seq::empty()
    } else {
        let rest = sent_messages(effects.drop_last());
        match effects.last() {
            EffectView::Send { message, .. } => rest.push(message),
            EffectView::ScheduleSend { message, .. } => rest.push(message),
            _ => rest,
        }
    }
}

} // verus!
