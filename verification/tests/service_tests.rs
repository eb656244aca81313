use tomodachi::clock::Timestamp;
use tomodachi::creature::CreatureEngine;
use tomodachi::model::{ClientMessage, CreatureEvent, CreatureState, DaemonResponse, Mood};
use tomodachi::service::{handle_message, handle_message_at, record_for_event, Reply};

fn at(secs: i64) -> Timestamp {
    Timestamp { secs, nanos: 0 }
}

fn engine() -> CreatureEngine {
    CreatureEngine::new_at(CreatureState::fresh(at(0)), at(0))
}

#[test]
fn notify_with_pending_and_exit_code() {
    let mut e = engine();
    let msg = ClientMessage::Notify {
        exit_code: Some(0),
        cwd: Some("/home/u/p".to_string()),
        pending_cmd: Some("cargo test".to_string()),
        shell: Some("zsh".to_string()),
    };
    let o = handle_message_at(&mut e, &msg, at(5));
    assert!(matches!(o.reply, Reply::Respond(DaemonResponse::Ack)));
    assert!(o.save);
    let r = o.record.unwrap();
    assert_eq!(r.command.as_deref(), Some("cargo test"));
    assert_eq!(r.exit_code, Some(0));
    assert_eq!(r.cwd.as_deref(), Some("/home/u/p"));
    assert_eq!(r.shell.as_deref(), Some("zsh"));
    assert_eq!(e.state().mood, Mood::Smug);
    assert_eq!(e.state().xp, 15);
    assert_eq!(e.state().streak, 1);
}

#[test]
fn notify_pending_only_is_not_logged() {
    let mut e = engine();
    let msg = ClientMessage::Notify { exit_code: None, cwd: None, pending_cmd: Some("rm -rf /".to_string()), shell: None };
    let o = handle_message_at(&mut e, &msg, at(5));
    assert!(o.record.is_none());
    assert!(o.save);
    assert_eq!(e.state().mood, Mood::Nervous);
    assert_eq!(e.state().streak, 0);
}

#[test]
fn veto_request_is_answered() {
    let mut e = engine();
    let msg = ClientMessage::Veto { command: "rm".to_string(), args: vec!["-rf".to_string(), "/".to_string()] };
    let o = handle_message(&mut e, &msg);
    match o.reply {
        Reply::Respond(DaemonResponse::VetoResult { allowed, reason }) => {
            assert!(!allowed);
            assert_eq!(reason, "\u{1f6a8} rm with recursive/force flags blocked! Use --yolo to override.");
        }
        _ => panic!("expected a veto result"),
    }
    assert!(!o.save);
    assert!(o.record.is_none());
}

#[test]
fn status_and_ping_report_the_state() {
    let mut e = engine();
    for msg in [ClientMessage::Status, ClientMessage::Ping] {
        let o = handle_message_at(&mut e, &msg, at(1));
        match o.reply {
            Reply::Respond(DaemonResponse::State { creature }) => {
                assert_eq!(creature.mood, Mood::Idle);
                assert_eq!(creature.hp, 100);
            }
            _ => panic!("expected the state"),
        }
        assert!(!o.save);
    }
}

#[test]
fn roast_request_needs_the_log() {
    let mut e = engine();
    let o = handle_message_at(&mut e, &ClientMessage::Roast, at(1));
    assert!(matches!(o.reply, Reply::Roast));
    assert!(!o.save);
}

#[test]
fn finished_events_are_logged_without_shell() {
    let ev = CreatureEvent::CommandFinished { exit_code: 2, command: Some("make".to_string()), cwd: None };
    let r = record_for_event(&ev).unwrap();
    assert_eq!(r.command.as_deref(), Some("make"));
    assert_eq!(r.exit_code, Some(2));
    assert!(r.shell.is_none());
    assert!(record_for_event(&CreatureEvent::GitCommit).is_none());
}
