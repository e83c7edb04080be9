use commit_dialog::dialog::{CommitComponent, EventOutcome, TextStyle};
use commit_dialog::event::{Event, KeyCode};
use commit_dialog::strings::{COMMIT_CMD_CLOSE, COMMIT_CMD_ENTER, COMMIT_MSG, COMMIT_TITLE};

fn key(k: KeyCode) -> Event {
    Event::Key(k)
}

fn type_text(d: &mut CommitComponent, text: &str) {
    for c in text.chars() {
        let r = d.event(key(KeyCode::Char(c)));
        assert!(r.consumed);
        assert!(r.commit.is_none());
    }
}

fn all_events() -> Vec<Event> {
    vec![
        key(KeyCode::Esc),
        key(KeyCode::Enter),
        key(KeyCode::Backspace),
        key(KeyCode::Char('a')),
        key(KeyCode::Char(' ')),
        key(KeyCode::Other),
        Event::Other,
    ]
}

#[test]
fn new_dialog_is_hidden_and_empty() {
    let d = CommitComponent::new();
    assert!(!d.is_visible());
    assert_eq!(d.message(), "");
    assert!(!d.can_commit());
    let e = CommitComponent::default();
    assert!(!e.is_visible());
    assert_eq!(e.message(), "");
}

#[test]
fn hidden_dialog_is_inert() {
    let mut d = CommitComponent::new();
    for ev in all_events() {
        let r = d.event(ev);
        assert!(!r.consumed);
        assert!(r.commit.is_none());
        assert!(!d.is_visible());
        assert_eq!(d.message(), "");
    }
    d.show();
    type_text(&mut d, "draft");
    d.close();
    for ev in all_events() {
        let r = d.event(ev);
        assert!(!r.consumed);
        assert!(r.commit.is_none());
        assert!(!d.is_visible());
        assert_eq!(d.message(), "draft");
    }
}

#[test]
fn append_then_remove_is_symmetric() {
    let mut d = CommitComponent::new();
    d.show();
    type_text(&mut d, "abc");
    assert_eq!(d.message(), "abc");
    for expected in ["ab", "a", ""] {
        let r = d.event(key(KeyCode::Backspace));
        assert!(r.consumed);
        assert_eq!(d.message(), expected);
    }
    let r = d.event(key(KeyCode::Backspace));
    assert!(!r.consumed);
    assert!(r.commit.is_none());
    assert_eq!(d.message(), "");
    assert!(d.is_visible());
}

#[test]
fn backspace_removes_a_whole_multibyte_character() {
    let mut d = CommitComponent::new();
    d.show();
    type_text(&mut d, "né✓");
    assert_eq!(d.message(), "né✓");
    assert!(d.event(key(KeyCode::Backspace)).consumed);
    assert_eq!(d.message(), "né");
    assert!(d.event(key(KeyCode::Backspace)).consumed);
    assert_eq!(d.message(), "n");
}

#[test]
fn enter_on_empty_message_does_not_commit() {
    let mut d = CommitComponent::new();
    d.show();
    let r = d.event(key(KeyCode::Enter));
    assert!(!r.consumed);
    assert!(r.commit.is_none());
    assert!(d.is_visible());
    assert_eq!(d.message(), "");
}

#[test]
fn enter_commits_the_whole_message_once() {
    let mut d = CommitComponent::new();
    d.show();
    type_text(&mut d, "fix bug");
    let r = d.event(key(KeyCode::Enter));
    assert!(r.consumed);
    assert_eq!(r.commit.as_deref(), Some("fix bug"));
    assert!(!d.is_visible());
    assert_eq!(d.message(), "");
    let again = d.event(key(KeyCode::Enter));
    assert!(!again.consumed);
    assert!(again.commit.is_none());
}

#[test]
fn scenario_type_and_commit() {
    let mut d = CommitComponent::new();
    d.show();
    let mut commits: Vec<String> = Vec::new();
    let mut events: Vec<Event> = "fix bug".chars().map(|c| key(KeyCode::Char(c))).collect();
    events.push(key(KeyCode::Enter));
    for ev in events {
        let EventOutcome { commit, .. } = d.event(ev);
        if let Some(m) = commit {
            commits.push(m);
        }
    }
    assert_eq!(commits, vec!["fix bug".to_string()]);
    assert!(!d.is_visible());
    assert_eq!(d.message(), "");
}

#[test]
fn scenario_type_and_cancel() {
    let mut d = CommitComponent::new();
    d.show();
    type_text(&mut d, "wip");
    let r = d.event(key(KeyCode::Esc));
    assert!(r.consumed);
    assert!(r.commit.is_none());
    assert!(!d.is_visible());
}

#[test]
fn escape_cancels_with_any_message() {
    for text in ["", "x", "a longer message"] {
        let mut d = CommitComponent::new();
        d.show();
        type_text(&mut d, text);
        let r = d.event(key(KeyCode::Esc));
        assert!(r.consumed);
        assert!(r.commit.is_none());
        assert!(!d.is_visible());
        assert_eq!(d.message(), text);
    }
}

#[test]
fn draft_is_kept_after_cancel_and_shown_again() {
    let mut d = CommitComponent::new();
    d.show();
    type_text(&mut d, "wip");
    d.event(key(KeyCode::Esc));
    d.show();
    assert!(d.is_visible());
    assert_eq!(d.message(), "wip");
}

#[test]
fn other_keys_and_events_are_not_consumed() {
    let mut d = CommitComponent::new();
    d.show();
    type_text(&mut d, "m");
    for ev in [key(KeyCode::Other), Event::Other] {
        let r = d.event(ev);
        assert!(!r.consumed);
        assert!(r.commit.is_none());
        assert!(d.is_visible());
        assert_eq!(d.message(), "m");
    }
}

#[test]
fn commands_follow_visibility_and_message() {
    let mut d = CommitComponent::new();
    assert!(d.commands().is_empty());
    d.show();
    let c = d.commands();
    assert_eq!(c.len(), 2);
    assert_eq!(c[0].name, COMMIT_CMD_ENTER);
    assert!(!c[0].enabled);
    assert_eq!(c[1].name, COMMIT_CMD_CLOSE);
    assert!(c[1].enabled);
    type_text(&mut d, "a");
    let c = d.commands();
    assert_eq!(c.len(), 2);
    assert!(c[0].enabled);
    assert!(c[1].enabled);
    d.event(key(KeyCode::Backspace));
    assert!(!d.commands()[0].enabled);
    d.close();
    assert!(d.commands().is_empty());
}

#[test]
fn show_and_close_are_idempotent() {
    let mut once = CommitComponent::new();
    let mut twice = CommitComponent::new();
    once.show();
    twice.show();
    twice.show();
    assert_eq!(once.is_visible(), twice.is_visible());
    assert_eq!(once.message(), twice.message());
    type_text(&mut once, "x");
    type_text(&mut twice, "x");
    once.close();
    twice.close();
    twice.close();
    assert_eq!(once.is_visible(), twice.is_visible());
    assert!(!twice.is_visible());
    assert_eq!(once.message(), twice.message());
}

#[test]
fn overlay_shows_placeholder_or_message() {
    let mut d = CommitComponent::new();
    assert!(d.overlay().is_none());
    d.show();
    let o = d.overlay().unwrap();
    assert_eq!(o.title, COMMIT_TITLE);
    assert_eq!(o.text, COMMIT_MSG);
    assert_eq!(o.style, TextStyle::Muted);
    assert_eq!(o.width_percent, 60);
    assert_eq!(o.height_percent, 20);
    type_text(&mut d, "hello");
    let o = d.overlay().unwrap();
    assert_eq!(o.title, COMMIT_TITLE);
    assert_eq!(o.text, "hello");
    assert_eq!(o.style, TextStyle::Plain);
    d.close();
    assert!(d.overlay().is_none());
}
