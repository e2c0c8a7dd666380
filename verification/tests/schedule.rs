use session_driver::effect::{Effect, SendPurpose};
use session_driver::message::{Conversation, OutboundMessage, Payload};
use session_driver::schedule::{PendingScheduledMessage, Phase, ScheduledSend, Timing};

fn timing(wait: u64) -> Timing {
    Timing { schedule_delay_ms: 60_000, revoke_wait_ms: wait }
}

fn start(now_ms: u64, wait: u64) -> (ScheduledSend, OutboundMessage) {
    ScheduledSend::begin(
        "bob".to_string(),
        "mailto:me@example.com".to_string(),
        "hello".to_string(),
        "guid-1".to_string(),
        now_ms,
        timing(wait),
    )
}

fn conversation() -> Conversation {
    Conversation {
        participants: vec!["bob".to_string()],
        cv_name: None,
        sender_guid: Some("guid-1".to_string()),
        after_guid: None,
    }
}

fn revocation(id: &str) -> OutboundMessage {
    OutboundMessage {
        id: Some(id.to_string()),
        conversation: conversation(),
        sender: "mailto:me@example.com".to_string(),
        target: None,
        payload: Payload::Unschedule,
    }
}

#[test]
fn standard_timing() {
    assert_eq!(Timing::standard(), Timing { schedule_delay_ms: 60_000, revoke_wait_ms: 10_000 });
}

#[test]
fn begin_builds_the_scheduled_message() {
    let (controller, message) = start(1_700_000_000_000, 10_000);
    assert_eq!(
        message,
        OutboundMessage {
            id: None,
            conversation: conversation(),
            sender: "mailto:me@example.com".to_string(),
            target: None,
            payload: Payload::Text {
                text: "hello".to_string(),
                scheduled_ms: Some(1_700_000_060_000)
            },
        }
    );
    assert_eq!(controller.phase(), Phase::AwaitingSend);
    assert_eq!(controller.issued_at_ms(), 1_700_000_000_000);
    assert_eq!(controller.wait_ms(), 10_000);
    assert_eq!(controller.wait_started_ms(), 1_700_000_000_000);
    assert_eq!(
        controller.pending(),
        &PendingScheduledMessage {
            conversation: conversation(),
            sender: "mailto:me@example.com".to_string(),
            scheduled_epoch_ms: 1_700_000_060_000,
            current_message_id: None,
        }
    );
}

#[test]
fn begin_at_the_edge_of_the_clock() {
    let (controller, message) = ScheduledSend::begin(
        "bob".to_string(),
        "me".to_string(),
        "x".to_string(),
        "g".to_string(),
        u64::MAX - 60_000,
        timing(10_000),
    );
    assert_eq!(controller.pending().scheduled_epoch_ms, u64::MAX);
    assert_eq!(message.payload, Payload::Text { text: "x".to_string(), scheduled_ms: Some(u64::MAX) });
}

#[test]
fn send_that_went_well_starts_the_wait() {
    let (mut controller, _) = start(1_000, 10_000);
    let effects = controller.on_send_finished("MSG-1".to_string(), None, 1_250);
    assert_eq!(effects, vec![Effect::Wait(10_000)]);
    assert_eq!(controller.phase(), Phase::Waiting);
    assert_eq!(controller.wait_started_ms(), 1_250);
    assert_eq!(controller.pending().current_message_id, Some("MSG-1".to_string()));
}

#[test]
fn send_that_failed_is_logged_and_starts_the_wait() {
    let (mut controller, _) = start(1_000, 10_000);
    let effects =
        controller.on_send_finished("MSG-1".to_string(), Some("no route".to_string()), 1_250);
    assert_eq!(
        effects,
        vec![
            Effect::LogSendFailure {
                purpose: SendPurpose::Scheduled,
                detail: "no route".to_string()
            },
            Effect::Wait(10_000),
        ]
    );
    assert_eq!(controller.phase(), Phase::Waiting);
}

#[test]
fn revocation_goes_out_when_the_wait_is_over() {
    let (mut controller, _) = start(1_000, 10_000);
    controller.on_send_finished("MSG-1".to_string(), None, 1_250);
    let effects = controller.on_timer(11_250);
    assert_eq!(
        effects,
        vec![Effect::Send { message: revocation("MSG-1"), purpose: SendPurpose::Unschedule }]
    );
    assert_eq!(controller.phase(), Phase::AwaitingRevoke);
}

#[test]
fn revocation_goes_out_after_a_failed_send_too() {
    let (mut controller, _) = start(1_000, 10_000);
    controller.on_send_finished("MSG-1".to_string(), Some("timeout".to_string()), 1_250);
    let effects = controller.on_timer(20_000);
    assert_eq!(
        effects,
        vec![Effect::Send { message: revocation("MSG-1"), purpose: SendPurpose::Unschedule }]
    );
}

#[test]
fn early_timer_waits_for_the_rest() {
    let (mut controller, _) = start(1_000, 10_000);
    controller.on_send_finished("MSG-1".to_string(), None, 1_250);
    assert_eq!(controller.on_timer(5_250), vec![Effect::Wait(6_000)]);
    assert_eq!(controller.phase(), Phase::Waiting);
    assert_eq!(controller.on_timer(11_249), vec![Effect::Wait(1)]);
    assert_eq!(controller.phase(), Phase::Waiting);
    assert_eq!(controller.on_timer(11_250).len(), 1);
    assert_eq!(controller.phase(), Phase::AwaitingRevoke);
}

#[test]
fn timer_before_the_wait_began() {
    let (mut controller, _) = start(1_000, 10_000);
    controller.on_send_finished("MSG-1".to_string(), None, 1_250);
    assert_eq!(controller.on_timer(250), vec![Effect::Wait(11_000)]);
    assert_eq!(controller.phase(), Phase::Waiting);
}

#[test]
fn wait_that_cannot_be_told_in_full() {
    let (mut controller, _) = ScheduledSend::begin(
        "bob".to_string(),
        "me".to_string(),
        "x".to_string(),
        "g".to_string(),
        100,
        Timing { schedule_delay_ms: 0, revoke_wait_ms: u64::MAX },
    );
    controller.on_send_finished("MSG-1".to_string(), None, 100);
    assert_eq!(controller.on_timer(50), vec![Effect::Wait(u64::MAX)]);
    assert_eq!(controller.on_timer(100), vec![Effect::Wait(u64::MAX)]);
    assert_eq!(controller.on_timer(101), vec![Effect::Wait(u64::MAX - 1)]);
    assert_eq!(controller.on_timer(u64::MAX), vec![Effect::Wait(100)]);
}

#[test]
fn no_wait_at_all() {
    let (mut controller, _) = start(1_000, 0);
    assert_eq!(controller.on_send_finished("MSG-1".to_string(), None, 1_000), vec![Effect::Wait(0)]);
    assert_eq!(controller.on_timer(999), vec![Effect::Wait(1)]);
    assert_eq!(
        controller.on_timer(1_000),
        vec![Effect::Send { message: revocation("MSG-1"), purpose: SendPurpose::Unschedule }]
    );
}

#[test]
fn clock_that_ran_back_during_the_send() {
    let (mut controller, _) = start(5_000, 10_000);
    controller.on_send_finished("MSG-1".to_string(), None, 4_000);
    assert_eq!(controller.wait_started_ms(), 5_000);
    assert_eq!(controller.on_timer(14_999), vec![Effect::Wait(1)]);
    assert_eq!(controller.on_timer(15_000).len(), 1);
}

#[test]
fn revocation_that_went_well_ends_quietly() {
    let (mut controller, _) = start(1_000, 10_000);
    controller.on_send_finished("MSG-1".to_string(), None, 1_250);
    controller.on_timer(11_250);
    assert_eq!(controller.on_revoke_finished(None), Vec::<Effect>::new());
    assert_eq!(controller.phase(), Phase::Done);
}

#[test]
fn revocation_that_failed_is_logged() {
    let (mut controller, _) = start(1_000, 10_000);
    controller.on_send_finished("MSG-1".to_string(), None, 1_250);
    controller.on_timer(11_250);
    assert_eq!(
        controller.on_revoke_finished(Some("gone".to_string())),
        vec![Effect::LogSendFailure { purpose: SendPurpose::Unschedule, detail: "gone".to_string() }]
    );
    assert_eq!(controller.phase(), Phase::Done);
}

#[test]
fn events_out_of_turn_change_nothing() {
    let (mut controller, _) = start(1_000, 10_000);
    assert_eq!(controller.on_timer(50_000), Vec::<Effect>::new());
    assert_eq!(controller.on_revoke_finished(None), Vec::<Effect>::new());
    assert_eq!(controller.phase(), Phase::AwaitingSend);

    controller.on_send_finished("MSG-1".to_string(), None, 1_250);
    assert_eq!(
        controller.on_send_finished("MSG-2".to_string(), None, 2_000),
        Vec::<Effect>::new()
    );
    assert_eq!(controller.pending().current_message_id, Some("MSG-1".to_string()));
    assert_eq!(controller.wait_started_ms(), 1_250);
    assert_eq!(controller.on_revoke_finished(Some("x".to_string())), Vec::<Effect>::new());
    assert_eq!(controller.phase(), Phase::Waiting);

    controller.on_timer(11_250);
    assert_eq!(controller.on_timer(99_999), Vec::<Effect>::new());
    controller.on_revoke_finished(None);
    assert_eq!(controller.on_timer(99_999), Vec::<Effect>::new());
    assert_eq!(controller.on_revoke_finished(None), Vec::<Effect>::new());
    assert_eq!(controller.phase(), Phase::Done);
}

#[test]
fn two_controllers_do_not_know_of_each_other() {
    let (mut first, _) = start(1_000, 10_000);
    let (mut second, _) = ScheduledSend::begin(
        "carol".to_string(),
        "mailto:me@example.com".to_string(),
        "again".to_string(),
        "guid-2".to_string(),
        2_000,
        timing(10_000),
    );
    first.on_send_finished("MSG-1".to_string(), None, 1_100);
    second.on_send_finished("MSG-2".to_string(), None, 2_100);
    let a = first.on_timer(11_100);
    let b = second.on_timer(12_100);
    assert_eq!(
        a,
        vec![Effect::Send { message: revocation("MSG-1"), purpose: SendPurpose::Unschedule }]
    );
    match &b[0] {
        Effect::Send { message, purpose } => {
            assert_eq!(*purpose, SendPurpose::Unschedule);
            assert_eq!(message.id, Some("MSG-2".to_string()));
            assert_eq!(message.conversation.participants, vec!["carol".to_string()]);
        }
        other => panic!("{:?}", other),
    }
}
