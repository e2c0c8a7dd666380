//! What holds of every session and of every scheduled send.

use crate::effect::{sent_messages, EffectView, NoticeView, SendPurpose};
use crate::message::{DeliveryTicketView, InboundMessageView, OutboundMessageView, PayloadView};
use crate::schedule::{ControllerEvent, Phase, ScheduledSendView, Timing};
use crate::session::{DecodeOutcomeView, EventView, SessionView};
use crate::text::{is_blank, trimmed};
use vstd::prelude::*;

verus! {

/// The state after `events`, each with the identifier that was drawn for it.
pub open spec fn run(start: SessionView, events: Seq<(EventView, Seq<char>)>) -> SessionView
    decreases events.len(),
{
    if events.len() == 0 {
        start
    } else {
        run(start, events.drop_last()).step(events.last().0, events.last().1).0
    }
}

/// The event that a decoded message is.
pub open spec fn decoded(message: InboundMessageView) -> EventView {
    EventView::Decoded(DecodeOutcomeView::Message(message))
}

/// No event takes an identifier out of the ledger.
pub proof fn lemma_step_keeps_ledger(
    state: SessionView,
    event: EventView,
    guid: Seq<char>,
    id: Seq<char>,
)
    requires
        state.ledger.contains(id),
    ensures
        state.step(event, guid).0.ledger.contains(id),
{
    let next = state.step(event, guid).0;
    if next.ledger != state.ledger {
        let i = choose|i: int| 0 <= i < state.ledger.len() && state.ledger[i] == id;
        assert(next.ledger[i] == id);
    }
}

/// No run of events takes an identifier out of the ledger.
pub proof fn lemma_run_keeps_ledger(
    state: SessionView,
    events: Seq<(EventView, Seq<char>)>,
    id: Seq<char>,
)
    requires
        state.ledger.contains(id),
    ensures
        run(state, events).ledger.contains(id),
    decreases events.len(),
{
    if events.len() > 0 {
        lemma_run_keeps_ledger(state, events.drop_last(), id);
        lemma_step_keeps_ledger(
            run(state, events.drop_last()),
            events.last().0,
            events.last().1,
            id,
        );
    }
}

/// No identifier comes to stand twice in the ledger.
pub proof fn lemma_step_keeps_ledger_distinct(
    state: SessionView,
    event: EventView,
    guid: Seq<char>,
)
    requires
        state.ledger.no_duplicates(),
    ensures
        state.step(event, guid).0.ledger.no_duplicates(),
{
    let next = state.step(event, guid).0;
    if next.ledger != state.ledger {
        let id = event->Decoded_0->Message_0.id;
        assert(next.ledger == state.ledger.push(id));
        assert forall|a: int, b: int|
            0 <= a < next.ledger.len() && 0 <= b < next.ledger.len() && a != b implies next.ledger[a]
            != next.ledger[b] by {
            if a < state.ledger.len() {
                assert(state.ledger.contains(state.ledger[a]));
            }
            if b < state.ledger.len() {
                assert(state.ledger.contains(state.ledger[b]));
            }
        }
    }
}

/// A message whose identifier is in the ledger changes nothing and causes
/// nothing: it is not shown, and no receipt is sent for it.
pub proof fn lemma_recorded_message_is_dropped(
    state: SessionView,
    message: InboundMessageView,
    guid: Seq<char>,
)
    requires
        state.ledger.contains(message.id),
    ensures
        state.step(decoded(message), guid) == (state, Seq::<EffectView>::empty()),
{
}

/// Once a message that has something to show came in under an identifier,
/// no message under that identifier is shown or acknowledged again,
/// whatever happens in between.
pub proof fn lemma_shown_at_most_once(
    state: SessionView,
    first: InboundMessageView,
    first_guid: Seq<char>,
    between: Seq<(EventView, Seq<char>)>,
    second: InboundMessageView,
    second_guid: Seq<char>,
)
    requires
        first.has_payload,
        second.id == first.id,
    ensures
        ({
            let after_first = state.step(decoded(first), first_guid).0;
            let later = run(after_first, between);
            later.step(decoded(second), second_guid) == (later, Seq::<EffectView>::empty())
        }),
{
    let after_first = state.step(decoded(first), first_guid).0;
    if !state.ledger.contains(first.id) {
        assert(after_first.ledger == state.ledger.push(first.id));
        assert(after_first.ledger[state.ledger.len() as int] == first.id);
    }
    assert(after_first.ledger.contains(first.id));
    lemma_run_keeps_ledger(after_first, between, first.id);
    lemma_recorded_message_is_dropped(run(after_first, between), second, second_guid);
}

/// The messages that two lists of effects send, one list after the other.
pub proof fn lemma_sent_messages_concat(a: Seq<EffectView>, b: Seq<EffectView>)
    ensures
        sent_messages(a + b) == sent_messages(a) + sent_messages(b),
    decreases b.len(),
{
    if b.len() == 0 {
        assert(a + b =~= a);
        assert(sent_messages(a) + sent_messages(b) =~= sent_messages(a));
    } else {
        assert((a + b).drop_last() =~= a + b.drop_last());
        lemma_sent_messages_concat(a, b.drop_last());
        assert((a + b).last() == b.last());
        match b.last() {
            EffectView::Send { message, .. } => {
                assert(sent_messages(a) + sent_messages(b.drop_last()).push(message) =~= (
                sent_messages(a) + sent_messages(b.drop_last())).push(message));
            },
            EffectView::ScheduleSend { message, .. } => {
                assert(sent_messages(a) + sent_messages(b.drop_last()).push(message) =~= (
                sent_messages(a) + sent_messages(b.drop_last())).push(message));
            },
            _ => {},
        }
    }
}

/// The messages that a list of one effect sends.
pub proof fn lemma_sent_messages_single(effect: EffectView)
    ensures
        sent_messages(seq![effect]) == match effect {
            EffectView::Send { message, .. } => seq![message],
            EffectView::ScheduleSend { message, .. } => seq![message],
            _ => Seq::empty(),
        },
{
    let effects = seq![effect];
    assert(effects.drop_last() =~= Seq::<EffectView>::empty());
    assert(sent_messages(effects.drop_last()) =~= Seq::<OutboundMessageView>::empty());
    assert(effects.last() == effect);
    match effect {
        EffectView::Send { message, .. } => {
            assert(Seq::<OutboundMessageView>::empty().push(message) =~= seq![message]);
        },
        EffectView::ScheduleSend { message, .. } => {
            assert(Seq::<OutboundMessageView>::empty().push(message) =~= seq![message]);
        },
        _ => {},
    }
}

/// A message that is shown for the first time and asks for a receipt gets
/// exactly one: nothing else is sent, and the receipt carries the
/// message's identifier and target, goes to its conversation, and comes
/// from the session's handle.
pub proof fn lemma_exactly_one_receipt(
    state: SessionView,
    message: InboundMessageView,
    guid: Seq<char>,
)
    requires
        message.has_payload,
        message.send_delivered,
        !state.ledger.contains(message.id),
    ensures
        ({
            let sent = sent_messages(state.step(decoded(message), guid).1);
            &&& sent.len() == 1
            &&& sent[0].id == Some(message.id)
            &&& sent[0].target == message.target
            &&& sent[0].conversation == message.conversation->0
            &&& sent[0].sender == state.handle
            &&& sent[0].payload == PayloadView::Delivered
        }),
{
    let receipt = DeliveryTicketView::of(message, state.handle).receipt();
    let shown = seq![EffectView::Display(message.rendered), EffectView::Prompt];
    let tail = seq![
        EffectView::Notify(NoticeView::SendingReceipt),
        EffectView::Send { message: receipt, purpose: SendPurpose::Receipt },
    ];
    let a = seq![EffectView::Display(message.rendered)];
    let b = seq![EffectView::Prompt];
    let c = seq![EffectView::Notify(NoticeView::SendingReceipt)];
    let d = seq![EffectView::Send { message: receipt, purpose: SendPurpose::Receipt }];
    assert(shown =~= a + b);
    assert(tail =~= c + d);
    lemma_sent_messages_single(a[0]);
    lemma_sent_messages_single(b[0]);
    lemma_sent_messages_single(c[0]);
    lemma_sent_messages_single(d[0]);
    lemma_sent_messages_concat(a, b);
    lemma_sent_messages_concat(c, d);
    lemma_sent_messages_concat(shown, tail);
    assert(sent_messages(shown + tail) =~= seq![receipt]);
}

/// A message that does not ask for a receipt, has nothing to show, or was
/// shown before, gets none.
pub proof fn lemma_no_receipt_unasked(
    state: SessionView,
    message: InboundMessageView,
    guid: Seq<char>,
)
    requires
        !message.send_delivered || !message.has_payload || state.ledger.contains(message.id),
    ensures
        sent_messages(state.step(decoded(message), guid).1).len() == 0,
{
    let effects = state.step(decoded(message), guid).1;
    if effects.len() > 0 {
        let a = seq![EffectView::Display(message.rendered)];
        let b = seq![EffectView::Prompt];
        assert(effects =~= a + b);
        lemma_sent_messages_single(a[0]);
        lemma_sent_messages_single(b[0]);
        lemma_sent_messages_concat(a, b);
    }
}

/// The words, the delays and the sender's handle of a session never
/// change.
pub proof fn lemma_step_keeps_settings(state: SessionView, event: EventView, guid: Seq<char>)
    ensures
        state.step(event, guid).0.grammar == state.grammar,
        state.step(event, guid).0.timing == state.timing,
        state.step(event, guid).0.handle == state.handle,
{
}

/// Whether `event` is the end of a read: a line, or a read that failed.
pub open spec fn ends_a_read(event: EventView) -> bool {
    event is Line || event is ReadFailed
}

/// The next read is started after every read that ended, and only then:
/// the reaction to a line or to a failed read ends with the start of the
/// next read, after the prompt where there was a line; no other reaction
/// starts a read.
pub proof fn lemma_read_is_rearmed(state: SessionView, event: EventView, guid: Seq<char>)
    ensures
        ({
            let effects = state.step(event, guid).1;
            &&& ends_a_read(event) ==> effects.len() > 0 && effects.last() == EffectView::ReadLine
            &&& event is Line ==> effects.len() > 1 && effects[effects.len() - 2]
                == EffectView::Prompt
            &&& forall|i: int|
                0 <= i < effects.len() && #[trigger] effects[i] == EffectView::ReadLine
                    ==> ends_a_read(event) && i == effects.len() - 1
        }),
{
}

/// The session never waits: no reaction of it holds a wait. The one wait
/// there is belongs to the controller of a scheduled send.
pub proof fn lemma_session_never_waits(state: SessionView, event: EventView, guid: Seq<char>)
    ensures
        forall|i: int|
            0 <= i < state.step(event, guid).1.len() ==> !(#[trigger] state.step(
                event,
                guid,
            ).1[i] is Wait),
{
}

/// What makes a line plain text: it is not blank, does not begin with the
/// prefix, and is not the keyword.
pub open spec fn is_plain_text(state: SessionView, line: Seq<char>) -> bool {
    &&& !is_blank(line)
    &&& !state.grammar.filter_prefix.is_prefix_of(line)
    &&& trimmed(line) != state.grammar.secondary_keyword
}

/// What makes a line select a recipient, and whom it selects.
pub open spec fn selects(state: SessionView, line: Seq<char>, target: Seq<char>) -> bool {
    &&& !is_blank(line)
    &&& state.grammar.filter_prefix.is_prefix_of(line)
    &&& target == trimmed(line.skip(state.grammar.filter_prefix.len() as int))
}

/// After a line that selects a recipient, plain text is sent to that
/// recipient, trimmed, as a scheduled message, and to nobody else.
pub proof fn lemma_filter_then_plain_text(
    state: SessionView,
    select: Seq<char>,
    target: Seq<char>,
    text: Seq<char>,
    select_at: u64,
    text_at: u64,
    select_guid: Seq<char>,
    text_guid: Seq<char>,
)
    requires
        selects(state, select, target),
        target.len() > 0,
        is_plain_text(state, text),
    ensures
        ({
            let selected = state.step(
                EventView::Line { text: select, now_ms: select_at },
                select_guid,
            ).0;
            let (after, effects) = selected.step(
                EventView::Line { text, now_ms: text_at },
                text_guid,
            );
            let (controller, message) = ScheduledSendView::begin(
                target,
                state.handle,
                trimmed(text),
                text_guid,
                text_at,
                state.timing,
            );
            &&& selected.filter_target == target
            &&& after == selected
            &&& effects == seq![
                EffectView::ScheduleSend { message, controller },
                EffectView::Prompt,
                EffectView::ReadLine,
            ]
            &&& sent_messages(effects) == seq![message]
            &&& message.conversation.participants == seq![target]
            &&& message.payload is Text
            &&& message.payload->Text_text == trimmed(text)
        }),
{
    let selected = state.step(EventView::Line { text: select, now_ms: select_at }, select_guid).0;
    let effects = selected.step(EventView::Line { text, now_ms: text_at }, text_guid).1;
    let (controller, message) = ScheduledSendView::begin(
        target,
        state.handle,
        trimmed(text),
        text_guid,
        text_at,
        state.timing,
    );
    let a = seq![EffectView::ScheduleSend { message, controller }];
    let b = seq![EffectView::Prompt];
    let c = seq![EffectView::ReadLine];
    assert(effects =~= a + (b + c));
    lemma_sent_messages_single(a[0]);
    lemma_sent_messages_single(b[0]);
    lemma_sent_messages_single(c[0]);
    lemma_sent_messages_concat(b, c);
    lemma_sent_messages_concat(a, b + c);
    assert(sent_messages(effects) =~= seq![message]);
}

/// While no recipient is selected, plain text is answered with the usage
/// notice: nothing is sent and nothing changes.
pub proof fn lemma_plain_text_needs_filter(
    state: SessionView,
    text: Seq<char>,
    now_ms: u64,
    guid: Seq<char>,
)
    requires
        state.filter_target.len() == 0,
        is_plain_text(state, text),
    ensures
        state.step(EventView::Line { text, now_ms }, guid) == (
            state,
            seq![
                EffectView::Notify(NoticeView::Usage),
                EffectView::Prompt,
                EffectView::ReadLine,
            ],
        ),
        sent_messages(state.step(EventView::Line { text, now_ms }, guid).1).len() == 0,
{
    let effects = state.step(EventView::Line { text, now_ms }, guid).1;
    let a = seq![EffectView::Notify(NoticeView::Usage)];
    let b = seq![EffectView::Prompt];
    let c = seq![EffectView::ReadLine];
    assert(effects =~= a + (b + c));
    lemma_sent_messages_single(a[0]);
    lemma_sent_messages_single(b[0]);
    lemma_sent_messages_single(c[0]);
    lemma_sent_messages_concat(b, c);
    lemma_sent_messages_concat(a, b + c);
}

/// Only a line that begins with the prefix selects a recipient: from a
/// state without one, events that hold no such line lead to states without
/// one.
pub proof fn lemma_filter_unset_without_selection(
    start: SessionView,
    events: Seq<(EventView, Seq<char>)>,
)
    requires
        start.filter_target.len() == 0,
        forall|i: int|
            0 <= i < events.len() && (#[trigger] events[i]).0 is Line
                ==> !start.grammar.filter_prefix.is_prefix_of(events[i].0->Line_text),
    ensures
        run(start, events).filter_target.len() == 0,
        run(start, events).grammar == start.grammar,
    decreases events.len(),
{
    if events.len() > 0 {
        let before = events.drop_last();
        assert forall|i: int| 0 <= i < before.len() && (#[trigger] before[i]).0 is Line implies
            !start.grammar.filter_prefix.is_prefix_of(before[i].0->Line_text) by {
            assert(before[i] == events[i]);
        }
        lemma_filter_unset_without_selection(start, before);
        assert(events.last() == events[events.len() - 1]);
    }
}

/// A line that is the keyword activates the secondary channel: one message
/// goes out, in a conversation without participants that carries the
/// fresh identifier, whatever recipient is selected.
pub proof fn lemma_keyword_activates(
    state: SessionView,
    line: Seq<char>,
    now_ms: u64,
    guid: Seq<char>,
)
    requires
        !is_blank(line),
        !state.grammar.filter_prefix.is_prefix_of(line),
        trimmed(line) == state.grammar.secondary_keyword,
    ensures
        ({
            let (after, effects) = state.step(EventView::Line { text: line, now_ms }, guid);
            let message = state.activation(guid);
            &&& after == state
            &&& state.draws_guid(EventView::Line { text: line, now_ms })
            &&& effects == seq![
                EffectView::Send { message, purpose: SendPurpose::Activation },
                EffectView::Prompt,
                EffectView::ReadLine,
            ]
            &&& sent_messages(effects) == seq![message]
            &&& message.conversation.participants.len() == 0
            &&& message.conversation.sender_guid == Some(guid)
            &&& message.payload == PayloadView::EnableSmsActivation(true)
        }),
{
    let effects = state.step(EventView::Line { text: line, now_ms }, guid).1;
    let message = state.activation(guid);
    let a = seq![EffectView::Send { message, purpose: SendPurpose::Activation }];
    let b = seq![EffectView::Prompt];
    let c = seq![EffectView::ReadLine];
    assert(effects =~= a + (b + c));
    lemma_sent_messages_single(a[0]);
    lemma_sent_messages_single(b[0]);
    lemma_sent_messages_single(c[0]);
    lemma_sent_messages_concat(b, c);
    lemma_sent_messages_concat(a, b + c);
    assert(sent_messages(effects) =~= seq![message]);
}

/// A controller is well formed when it starts, and stays so.
pub proof fn lemma_controller_stays_well_formed(
    controller: ScheduledSendView,
    message_id: Seq<char>,
    failure: Option<Seq<char>>,
    now_ms: u64,
)
    requires
        controller.well_formed(),
    ensures
        controller.on_send_finished(message_id, failure, now_ms).0.well_formed(),
        controller.on_timer(now_ms).0.well_formed(),
        controller.on_revoke_finished(failure).0.well_formed(),
{
}

/// A controller starts well formed, with the send of its message pending,
/// and that message goes to the conversation that the controller tracks.
pub proof fn lemma_controller_starts_well_formed(
    target: Seq<char>,
    sender: Seq<char>,
    body: Seq<char>,
    guid: Seq<char>,
    now_ms: u64,
    timing: Timing,
)
    ensures
        ({
            let (controller, message) = ScheduledSendView::begin(
                target,
                sender,
                body,
                guid,
                now_ms,
                timing,
            );
            &&& controller.well_formed()
            &&& controller.phase == Phase::AwaitingSend
            &&& controller.issued_at_ms == now_ms
            &&& controller.wait_ms == timing.revoke_wait_ms
            &&& controller.pending.conversation == message.conversation
            &&& controller.pending.sender == message.sender
        }),
{
}

/// The revocation never goes out early. Whatever a controller sends, it
/// sends when a wait is over, no sooner than the whole wait after its
/// message was handed out; and what it sends is the revocation, in the
/// conversation and from the sender of that message.
pub proof fn lemma_revocation_not_early(controller: ScheduledSendView, now_ms: u64)
    requires
        controller.well_formed(),
    ensures
        ({
            let effects = controller.on_timer(now_ms).1;
            sent_messages(effects).len() > 0 ==> {
                &&& now_ms >= controller.issued_at_ms + controller.wait_ms
                &&& sent_messages(effects) == seq![controller.revocation()]
                &&& controller.revocation().conversation == controller.pending.conversation
                &&& controller.revocation().sender == controller.pending.sender
                &&& controller.revocation().payload == PayloadView::Unschedule
            }
        }),
{
    let effects = controller.on_timer(now_ms).1;
    if controller.phase == Phase::Waiting {
        assert(effects =~= seq![effects[0]]);
        lemma_sent_messages_single(effects[0]);
    } else {
        assert(effects.len() == 0);
    }
}

/// Nothing is sent when a send has finished: the revocation waits for the
/// timer.
pub proof fn lemma_completions_send_nothing(
    controller: ScheduledSendView,
    message_id: Seq<char>,
    failure: Option<Seq<char>>,
    now_ms: u64,
)
    ensures
        sent_messages(controller.on_send_finished(message_id, failure, now_ms).1).len() == 0,
        sent_messages(controller.on_revoke_finished(failure).1).len() == 0,
{
    let first = controller.on_send_finished(message_id, failure, now_ms).1;
    if first.len() == 1 {
        assert(first =~= seq![first[0]]);
        lemma_sent_messages_single(first[0]);
    } else if first.len() == 2 {
        assert(first =~= seq![first[0]] + seq![first[1]]);
        lemma_sent_messages_single(first[0]);
        lemma_sent_messages_single(first[1]);
        lemma_sent_messages_concat(seq![first[0]], seq![first[1]]);
    }
    let second = controller.on_revoke_finished(failure).1;
    if second.len() == 1 {
        assert(second =~= seq![second[0]]);
        lemma_sent_messages_single(second[0]);
    }
}

/// The revocation is attempted whether the send went well or not: once the
/// send has finished, with or without a failure, a timer that runs out
/// when the whole wait has passed makes the controller send the
/// revocation, under the identifier that the message had then.
pub proof fn lemma_revocation_follows_any_outcome(
    controller: ScheduledSendView,
    message_id: Seq<char>,
    failure: Option<Seq<char>>,
    finished_at: u64,
    timer_at: u64,
)
    requires
        controller.well_formed(),
        controller.phase == Phase::AwaitingSend,
        timer_at >= finished_at + controller.wait_ms,
        timer_at >= controller.issued_at_ms + controller.wait_ms,
    ensures
        ({
            let waiting = controller.on_send_finished(message_id, failure, finished_at).0;
            let (after, effects) = waiting.on_timer(timer_at);
            &&& waiting.phase == Phase::Waiting
            &&& after.phase == Phase::AwaitingRevoke
            &&& effects == seq![
                EffectView::Send {
                    message: waiting.revocation(),
                    purpose: SendPurpose::Unschedule,
                },
            ]
            &&& waiting.revocation().id == Some(message_id)
            &&& waiting.revocation().conversation == controller.pending.conversation
            &&& waiting.revocation().sender == controller.pending.sender
        }),
{
}

/// Whatever a controller is told, it stays well formed and goes on
/// tracking the message that it started with: the conversation, the
/// sender, the time at which the message was handed out and the length of
/// the wait do not change.
pub proof fn lemma_controller_run_keeps_track(
    start: ScheduledSendView,
    events: Seq<ControllerEvent>,
)
    requires
        start.well_formed(),
    ensures
        ({
            let end = start.run(events);
            &&& end.well_formed()
            &&& end.issued_at_ms == start.issued_at_ms
            &&& end.wait_ms == start.wait_ms
            &&& end.pending.conversation == start.pending.conversation
            &&& end.pending.sender == start.pending.sender
            &&& end.pending.scheduled_epoch_ms == start.pending.scheduled_epoch_ms
        }),
    decreases events.len(),
{
    if events.len() > 0 {
        lemma_controller_run_keeps_track(start, events.drop_last());
    }
}

/// However a scheduled send goes, what its controller sends is the
/// revocation of the message that it started with, in the same
/// conversation and from the same sender, and it sends it when a wait is
/// over, no sooner than the whole wait after the message was handed out.
pub proof fn lemma_revocation_never_early(
    start: ScheduledSendView,
    before: Seq<ControllerEvent>,
    event: ControllerEvent,
)
    requires
        start.well_formed(),
    ensures
        ({
            let sent = sent_messages(start.run(before).step(event).1);
            sent.len() > 0 ==> {
                &&& event is Timer
                &&& event->Timer_now_ms >= start.issued_at_ms + start.wait_ms
                &&& sent.len() == 1
                &&& sent[0].payload == PayloadView::Unschedule
                &&& sent[0].conversation == start.pending.conversation
                &&& sent[0].sender == start.pending.sender
                &&& sent[0].id is Some
            }
        }),
{
    let controller = start.run(before);
    lemma_controller_run_keeps_track(start, before);
    match event {
        ControllerEvent::SendFinished { message_id, failure, now_ms } => {
            lemma_completions_send_nothing(controller, message_id, failure, now_ms);
        },
        ControllerEvent::Timer { now_ms } => {
            lemma_revocation_not_early(controller, now_ms);
        },
        ControllerEvent::RevokeFinished { failure } => {
            lemma_completions_send_nothing(controller, Seq::empty(), failure, 0);
        },
    }
}

/// The revocation goes out once: after a controller has sent it, nothing
/// that the controller is told makes it send again.
pub proof fn lemma_revocation_at_most_once(
    start: ScheduledSendView,
    between: Seq<ControllerEvent>,
    event: ControllerEvent,
)
    requires
        start.phase == Phase::AwaitingRevoke || start.phase == Phase::Done,
    ensures
        start.run(between).phase == Phase::AwaitingRevoke || start.run(between).phase
            == Phase::Done,
        sent_messages(start.run(between).step(event).1).len() == 0,
    decreases between.len(),
{
    if between.len() > 0 {
        lemma_revocation_at_most_once(start, between.drop_last(), between.last());
    }
    let controller = start.run(between);
    match event {
        ControllerEvent::SendFinished { message_id, failure, now_ms } => {
            lemma_completions_send_nothing(controller, message_id, failure, now_ms);
        },
        ControllerEvent::Timer { now_ms } => {
            assert(controller.on_timer(now_ms).1.len() == 0);
        },
        ControllerEvent::RevokeFinished { failure } => {
            lemma_completions_send_nothing(controller, Seq::empty(), failure, 0);
        },
    }
}

/// A line of plain text, read at some time while a recipient is selected,
/// starts a controller that is well formed, counts from that time, waits
/// as long as the session's timing says, and tracks the conversation and
/// the sender of the message that goes out with it.
pub proof fn lemma_plain_text_starts_a_controller(
    state: SessionView,
    text: Seq<char>,
    now_ms: u64,
    guid: Seq<char>,
)
    requires
        state.filter_target.len() > 0,
        is_plain_text(state, text),
    ensures
        ({
            let effects = state.step(EventView::Line { text, now_ms }, guid).1;
            &&& effects.len() == 3
            &&& effects[0] is ScheduleSend
            &&& effects[0]->ScheduleSend_controller.well_formed()
            &&& effects[0]->ScheduleSend_controller.phase == Phase::AwaitingSend
            &&& effects[0]->ScheduleSend_controller.issued_at_ms == now_ms
            &&& effects[0]->ScheduleSend_controller.wait_ms == state.timing.revoke_wait_ms
            &&& effects[0]->ScheduleSend_controller.pending.conversation
                == effects[0]->ScheduleSend_message.conversation
            &&& effects[0]->ScheduleSend_controller.pending.sender
                == effects[0]->ScheduleSend_message.sender
            &&& effects[0]->ScheduleSend_message.conversation.participants
                == seq![state.filter_target]
            &&& effects[0]->ScheduleSend_message.sender == state.handle
        }),
{
}

} // verus!
