use lyric_status::feed::{Action, Broadcaster, Event, Phase};
use lyric_status::error::BroadcastError;
use lyric_status::settings::Settings;

fn settings(prefix: Option<&str>, suffix: Option<&str>, reload: Option<bool>, lyrics: &[&str], interval: u32) -> Settings {
    Settings {
        prefix: prefix.map(|p| p.to_string()),
        suffix: suffix.map(|s| s.to_string()),
        reload,
        lyrics: lyrics.iter().map(|l| l.to_string()).collect(),
        interval,
    }
}

fn send_of(text: &str) -> Action {
    Action::Send(format!("{{\"cmd\":\"status\",\"message\":\"{}\"}}", text))
}

#[test]
fn scenario_two_lyrics_with_note_prefix() {
    let mut b = Broadcaster::new(settings(Some("♪ "), Some(""), Some(false), &["hello", "world"], 5));
    assert_eq!(b.step(Event::Resume), Action::Send("{\"cmd\":\"status\",\"message\":\"♪ hello\"}".to_string()));
    assert_eq!(b.step(Event::Sent), Action::Sleep(5));
    assert_eq!(b.step(Event::Woke), Action::Send("{\"cmd\":\"status\",\"message\":\"♪ world\"}".to_string()));
    assert_eq!(b.step(Event::Sent), Action::Sleep(5));
    assert_eq!(b.step(Event::Woke), Action::Send("{\"cmd\":\"status\",\"message\":\"♪ hello\"}".to_string()));
    assert_eq!(b.step(Event::Sent), Action::Sleep(5));
}

#[test]
fn lyrics_repeat_in_order_with_a_wait_between_sends() {
    let lyrics = ["a", "b", "c"];
    let mut b = Broadcaster::new(settings(Some("<"), Some(">"), None, &lyrics, 3));
    let mut event = Event::Resume;
    for n in 0..10 {
        assert_eq!(b.step(event), send_of(&format!("<{}>", lyrics[n % 3])));
        assert_eq!(b.phase(), Phase::Sending(n % 3));
        assert_eq!(b.step(Event::Sent), Action::Sleep(3));
        assert_eq!(b.phase(), Phase::Sleeping(n % 3));
        event = Event::Woke;
    }
}

#[test]
fn absent_prefix_and_suffix_read_as_empty() {
    let mut b = Broadcaster::new(settings(None, None, None, &["solo"], 1));
    assert_eq!(b.step(Event::Resume), send_of("solo"));
    assert_eq!(b.interval(), 1);
}

#[test]
fn empty_lyrics_without_reload_never_send_or_wait() {
    let mut b = Broadcaster::new(settings(Some("p"), Some("s"), Some(false), &[], 9));
    for _ in 0..5 {
        assert_eq!(b.step(Event::Resume), Action::Idle);
        assert_eq!(b.phase(), Phase::PassStart);
    }
}

#[test]
fn empty_lyrics_with_reload_reload_every_pass_without_wait() {
    let mut b = Broadcaster::new(settings(None, None, Some(true), &[], 9));
    for _ in 0..3 {
        assert_eq!(b.step(Event::Resume), Action::Reload);
        let fresh = settings(Some("x"), None, Some(true), &["ignored"], 2);
        assert_eq!(b.step(Event::Reloaded(fresh)), Action::Idle);
        assert_eq!(b.phase(), Phase::PassStart);
    }
}

#[test]
fn reload_takes_interval_prefix_suffix_but_keeps_lyrics() {
    let mut b = Broadcaster::new(settings(Some("old "), Some(" old"), Some(true), &["one", "two"], 10));
    assert_eq!(b.step(Event::Resume), Action::Reload);
    let first = settings(Some("["), Some("]"), Some(false), &["other"], 4);
    assert_eq!(b.step(Event::Reloaded(first)), send_of("[one]"));
    assert_eq!(b.step(Event::Sent), Action::Sleep(4));
    assert_eq!(b.step(Event::Woke), send_of("[two]"));
    assert_eq!(b.step(Event::Sent), Action::Sleep(4));
    assert_eq!(b.step(Event::Woke), Action::Reload);
    let second = settings(None, Some("!"), None, &[], 7);
    assert_eq!(b.step(Event::Reloaded(second)), send_of("one!"));
    assert_eq!(b.interval(), 7);
    assert_eq!(b.step(Event::Sent), Action::Sleep(7));
}

#[test]
fn send_failure_stops_for_good() {
    let mut b = Broadcaster::new(settings(None, None, None, &["a", "b", "c"], 1));
    assert_eq!(b.step(Event::Resume), send_of("a"));
    assert_eq!(b.step(Event::Sent), Action::Sleep(1));
    assert_eq!(b.step(Event::Woke), send_of("b"));
    assert_eq!(b.step(Event::SendFailed), Action::Stop(BroadcastError::Send));
    assert_eq!(b.phase(), Phase::Stopped);
    for event in [Event::Resume, Event::Sent, Event::Woke, Event::SendFailed, Event::ReloadFailed] {
        assert!(!b.expects(&event));
        assert_eq!(b.step(event), Action::Idle);
        assert_eq!(b.phase(), Phase::Stopped);
    }
}

#[test]
fn reload_failure_stops() {
    let mut b = Broadcaster::new(settings(None, None, Some(true), &["a"], 1));
    assert_eq!(b.step(Event::Resume), Action::Reload);
    assert_eq!(b.step(Event::ReloadFailed), Action::Stop(BroadcastError::Reload));
    assert_eq!(b.phase(), Phase::Stopped);
}

#[test]
fn unexpected_event_changes_nothing() {
    let mut b = Broadcaster::new(settings(None, None, None, &["a"], 1));
    assert!(b.expects(&Event::Resume));
    assert!(!b.expects(&Event::Sent));
    assert_eq!(b.step(Event::Woke), Action::Idle);
    assert_eq!(b.phase(), Phase::PassStart);
    assert_eq!(b.step(Event::Resume), send_of("a"));
    assert!(b.expects(&Event::Sent));
    assert!(b.expects(&Event::SendFailed));
    assert!(!b.expects(&Event::Woke));
}

#[test]
fn single_lyric_cycles_onto_itself() {
    let mut b = Broadcaster::new(settings(None, None, None, &["only"], 0));
    assert_eq!(b.step(Event::Resume), send_of("only"));
    assert_eq!(b.step(Event::Sent), Action::Sleep(0));
    assert_eq!(b.step(Event::Woke), send_of("only"));
}

#[test]
fn message_text_is_escaped_in_the_payload() {
    let mut b = Broadcaster::new(settings(Some("\""), None, None, &["a\\b"], 1));
    assert_eq!(b.step(Event::Resume), Action::Send("{\"cmd\":\"status\",\"message\":\"\\\"a\\\\b\"}".to_string()));
}
