use session_driver::console::{notice_line, prompt, receive_failure_line, send_failure_line};
use session_driver::effect::Effect;
use session_driver::message::{Conversation, InboundMessage, OutboundMessage, Payload};
use session_driver::schedule::{Phase, ScheduledSend};
use session_driver::session::{DecodeOutcome, Event, Session};
use session_driver::store::{SessionState, SessionStore, UserIdentity};

/// A driver without a network: sends end as scripted, waits move a clock,
/// and everything that would be seen or sent is written down.
struct Driver {
    session: Session,
    clock_ms: u64,
    decoded: Vec<DecodeOutcome>,
    send_failures: Vec<Option<String>>,
    next_id: u32,
    seen: Vec<String>,
    controllers: Vec<(OutboundMessage, ScheduledSend)>,
}

impl Driver {
    fn new() -> Driver {
        Driver {
            session: Session::new("mailto:me@example.com".to_string()),
            clock_ms: 1_000_000,
            decoded: Vec::new(),
            send_failures: Vec::new(),
            next_id: 1,
            seen: Vec::new(),
            controllers: Vec::new(),
        }
    }

    fn react(&mut self, event: Event) -> Vec<Effect> {
        assert!(self.session.admits(&event));
        self.session.step(event)
    }

    fn send(&mut self, message: &OutboundMessage) -> (String, Option<String>) {
        let id = match &message.id {
            Some(id) => id.clone(),
            None => {
                let id = format!("ID-{}", self.next_id);
                self.next_id += 1;
                id
            }
        };
        let what = match &message.payload {
            Payload::Delivered => "receipt".to_string(),
            Payload::EnableSmsActivation(on) => format!("activation {}", on),
            Payload::Text { text, scheduled_ms } => format!("text {:?} at {:?}", text, scheduled_ms),
            Payload::Unschedule => "unschedule".to_string(),
        };
        self.seen.push(format!(
            "send {} {} to {:?} at {}",
            id, what, message.conversation.participants, self.clock_ms
        ));
        let failure = if self.send_failures.is_empty() { None } else { self.send_failures.remove(0) };
        (id, failure)
    }

    fn feed(&mut self, event: Event) {
        let effects = self.react(event);
        self.perform(effects);
    }

    fn perform(&mut self, effects: Vec<Effect>) {
        let mut todo: Vec<Effect> = effects.into_iter().rev().collect();
        while let Some(effect) = todo.pop() {
            let answer = match effect {
                Effect::NotifyLocationService => {
                    self.seen.push("locate".to_string());
                    self.react(Event::LocationHandled { failure: Some("no fix".to_string()) })
                }
                Effect::DecodeEnvelope => {
                    self.seen.push("decode".to_string());
                    let outcome = self.decoded.remove(0);
                    self.react(Event::Decoded(outcome))
                }
                Effect::Display(text) => {
                    self.seen.push(format!("show {}", text));
                    Vec::new()
                }
                Effect::Prompt => {
                    self.seen.push(prompt().to_string());
                    Vec::new()
                }
                Effect::Notify(notice) => {
                    self.seen.push(notice_line(self.session.grammar(), &notice));
                    Vec::new()
                }
                Effect::LogReceiveFailure(detail) => {
                    self.seen.push(receive_failure_line(&detail));
                    Vec::new()
                }
                Effect::LogSendFailure { detail, .. } => {
                    self.seen.push(send_failure_line(&detail));
                    Vec::new()
                }
                Effect::Send { message, purpose } => {
                    let (_, failure) = self.send(&message);
                    self.react(Event::SendFinished { purpose, failure })
                }
                Effect::ScheduleSend { message, controller } => {
                    self.controllers.push((message, controller));
                    Vec::new()
                }
                Effect::Wait(millis) => {
                    self.clock_ms += millis;
                    Vec::new()
                }
                Effect::ReadLine => {
                    self.seen.push("read".to_string());
                    Vec::new()
                }
            };
            todo.extend(answer.into_iter().rev());
        }
    }

    /// Runs the oldest controller to its end, starting `delay_ms` from now.
    fn run_controller(&mut self, delay_ms: u64) -> ScheduledSend {
        let (message, mut controller) = self.controllers.remove(0);
        self.clock_ms += delay_ms;
        let (id, failure) = self.send(&message);
        let mut todo = controller.on_send_finished(id, failure, self.clock_ms);
        todo.reverse();
        while let Some(effect) = todo.pop() {
            let answer = match effect {
                Effect::LogSendFailure { detail, .. } => {
                    self.seen.push(send_failure_line(&detail));
                    Vec::new()
                }
                Effect::Wait(millis) => {
                    self.clock_ms += millis;
                    controller.on_timer(self.clock_ms)
                }
                Effect::Send { message, .. } => {
                    let (_, failure) = self.send(&message);
                    controller.on_revoke_finished(failure)
                }
                other => panic!("{:?}", other),
            };
            todo.extend(answer.into_iter().rev());
        }
        controller
    }
}

fn line(text: &str, now_ms: u64) -> Event {
    Event::Line { text: text.to_string(), now_ms }
}

fn message(id: &str, send_delivered: bool) -> DecodeOutcome {
    DecodeOutcome::Message(InboundMessage {
        id: id.to_string(),
        conversation: Some(Conversation {
            participants: vec!["ann".to_string()],
            cv_name: None,
            sender_guid: None,
            after_guid: None,
        }),
        target: None,
        has_payload: true,
        send_delivered,
        rendered: format!("ann: {}", id),
    })
}

#[test]
fn driver_shows_a_message_and_acknowledges_it() {
    let mut driver = Driver::new();
    driver.decoded.push(message("M-1", true));
    driver.feed(Event::EnvelopeArrived);
    assert_eq!(
        driver.seen,
        vec![
            "locate",
            "decode",
            "show ann: M-1",
            ">> ",
            "sending delivered",
            "send M-1 receipt to [\"ann\"] at 1000000",
        ]
    );
}

#[test]
fn driver_drops_a_message_that_comes_again() {
    let mut driver = Driver::new();
    driver.decoded.push(message("M-1", true));
    driver.decoded.push(message("M-1", true));
    driver.feed(Event::EnvelopeArrived);
    driver.seen.clear();
    driver.feed(Event::EnvelopeArrived);
    assert_eq!(driver.seen, vec!["locate", "decode"]);
}

#[test]
fn driver_logs_a_receipt_that_fails_and_goes_on() {
    let mut driver = Driver::new();
    driver.decoded.push(message("M-1", true));
    driver.decoded.push(message("M-2", false));
    driver.send_failures.push(Some("offline".to_string()));
    driver.feed(Event::EnvelopeArrived);
    driver.feed(Event::EnvelopeArrived);
    assert_eq!(
        driver.seen,
        vec![
            "locate",
            "decode",
            "show ann: M-1",
            ">> ",
            "sending delivered",
            "send M-1 receipt to [\"ann\"] at 1000000",
            "Error sending message offline",
            "locate",
            "decode",
            "show ann: M-2",
            ">> ",
        ]
    );
}

#[test]
fn driver_logs_an_envelope_that_cannot_be_decoded() {
    let mut driver = Driver::new();
    driver.decoded.push(DecodeOutcome::Failed("bad signature".to_string()));
    driver.decoded.push(DecodeOutcome::Ignored);
    driver.feed(Event::EnvelopeArrived);
    driver.feed(Event::EnvelopeArrived);
    assert_eq!(
        driver.seen,
        vec!["locate", "decode", "Failed to receive bad signature", "locate", "decode"]
    );
}

#[test]
fn driver_announces_the_activation_after_the_send() {
    let mut driver = Driver::new();
    driver.feed(line("sms\n", 5));
    assert_eq!(
        driver.seen,
        vec!["send ID-1 activation true to [] at 1000000", "sms activated", ">> ", "read"]
    );
}

#[test]
fn driver_logs_an_activation_that_fails_and_goes_on() {
    let mut driver = Driver::new();
    driver.send_failures.push(Some("refused".to_string()));
    driver.feed(line("sms\n", 5));
    assert_eq!(
        driver.seen,
        vec![
            "send ID-1 activation true to [] at 1000000",
            "Error sending message refused",
            ">> ",
            "read"
        ]
    );
}

#[test]
fn driver_answers_plain_text_with_the_usage_notice() {
    let mut driver = Driver::new();
    driver.feed(line("hello\n", 5));
    assert_eq!(driver.seen, vec!["Usage: filter [target]", ">> ", "read"]);
    assert!(driver.controllers.is_empty());
}

#[test]
fn driver_brings_the_prompt_back_after_a_blank_line_and_rereads_after_a_failed_read() {
    let mut driver = Driver::new();
    driver.feed(line("\n", 5));
    driver.feed(Event::ReadFailed);
    assert_eq!(driver.seen, vec![">> ", "read", "read"]);
}

#[test]
fn driver_sends_scheduled_text_then_revokes_it() {
    let mut driver = Driver::new();
    driver.feed(line("filter bob\n", 1_000_000));
    driver.feed(line("hello\n", 1_000_000));
    assert_eq!(driver.seen, vec!["Filtering to bob", ">> ", "read", ">> ", "read"]);
    driver.seen.clear();
    let controller = driver.run_controller(40);
    assert_eq!(
        driver.seen,
        vec![
            "send ID-1 text \"hello\" at Some(1060000) to [\"bob\"] at 1000040",
            "send ID-1 unschedule to [\"bob\"] at 1010040",
        ]
    );
    assert_eq!(controller.phase(), Phase::Done);
}

#[test]
fn driver_revokes_after_a_failed_send_and_logs_both_failures() {
    let mut driver = Driver::new();
    driver.feed(line("filter bob\n", 1_000_000));
    driver.feed(line("hello\n", 1_000_000));
    driver.seen.clear();
    driver.send_failures.push(Some("first".to_string()));
    driver.send_failures.push(Some("second".to_string()));
    let controller = driver.run_controller(0);
    assert_eq!(
        driver.seen,
        vec![
            "send ID-1 text \"hello\" at Some(1060000) to [\"bob\"] at 1000000",
            "Error sending message first",
            "send ID-1 unschedule to [\"bob\"] at 1010000",
            "Error sending message second",
        ]
    );
    assert_eq!(controller.phase(), Phase::Done);
}

#[test]
fn driver_runs_two_scheduled_sends_side_by_side() {
    let mut driver = Driver::new();
    driver.feed(line("filter bob\n", 1_000_000));
    driver.feed(line("one\n", 1_000_000));
    driver.feed(line("two\n", 1_000_500));
    assert_eq!(driver.controllers.len(), 2);
    driver.seen.clear();
    driver.run_controller(0);
    driver.clock_ms = 1_000_500;
    driver.run_controller(0);
    assert_eq!(
        driver.seen,
        vec![
            "send ID-1 text \"one\" at Some(1060000) to [\"bob\"] at 1000000",
            "send ID-1 unschedule to [\"bob\"] at 1010000",
            "send ID-2 text \"two\" at Some(1060500) to [\"bob\"] at 1000500",
            "send ID-2 unschedule to [\"bob\"] at 1010500",
        ]
    );
}

fn count_users(state: &SessionState<u8, u8, u8>) -> usize {
    state.users.len()
}

#[test]
fn store_takes_a_plain_function_as_its_writer() {
    let (mut store, first) = SessionStore::establish(
        1u8,
        vec![UserIdentity { registered: true, keys: 1u8 }],
        1u8,
        count_users,
    );
    assert_eq!(first, 1);
    let second = store.on_identity_rotated(
        vec![
            UserIdentity { registered: true, keys: 2u8 },
            UserIdentity { registered: true, keys: 3u8 },
        ],
        count_users,
    );
    assert_eq!(second, 2);
}
