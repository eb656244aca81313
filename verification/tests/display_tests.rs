use tomodachi::clock::Timestamp;
use tomodachi::display::{status_text, FrameClock, Opacity, TrayCommand, TrayEffect, ViewSettings};
use tomodachi::model::{CreatureState, Mood};
use tomodachi::text::{contains_str, push_decimal, trimmed_line};

#[test]
fn frame_clock_waits_a_frame() {
    let mut c = FrameClock::new();
    let d = c.on_wait(Mood::Idle, false, 100_000_000);
    assert!(!d.redraw);
    assert_eq!(d.wake_at, 250_000_000);
    let d = c.on_wait(Mood::Idle, false, 250_000_000);
    assert!(d.redraw);
    assert_eq!(c.tick, 1);
    assert_eq!(d.wake_at, 500_000_000);
}

#[test]
fn mood_change_speeds_up_and_state_change_redraws() {
    let mut c = FrameClock::new();
    let d = c.on_wait(Mood::Happy, false, 120_000_000);
    assert!(d.redraw);
    assert_eq!(c.last_mood, Mood::Happy);
    assert_eq!(d.wake_at, 220_000_000);
    let d = c.on_wait(Mood::Happy, true, 121_000_000);
    assert!(d.redraw);
    assert_eq!(c.tick, 2);
    c.tick = u32::MAX;
    c.on_wait(Mood::Happy, true, 122_000_000);
    assert_eq!(c.tick, 0);
}

#[test]
fn tray_entries() {
    let mut s = ViewSettings::new();
    assert_eq!(s.apply(TrayCommand::ToggleMovable), TrayEffect::Nothing);
    assert!(s.movable);
    assert_eq!(s.apply(TrayCommand::SetOpacity(Opacity::Half)), TrayEffect::Nothing);
    assert_eq!(s.opacity, Opacity::Half);
    assert_eq!(s.apply(TrayCommand::ShowStatus), TrayEffect::ShowStatus);
    assert_eq!(s.apply(TrayCommand::Quit), TrayEffect::Exit);
    assert!(s.movable);
}

#[test]
fn status_box_text() {
    let s = CreatureState {
        mood: Mood::Sleeping,
        xp: 305,
        hp: 7,
        level: 4,
        streak: 0,
        last_active: Timestamp { secs: 0, nanos: 0 },
    };
    assert_eq!(status_text(&s), "Mood:\tSleeping\nLevel:\t4\nXP:\t305\nHP:\t7/100\nStreak:\t0\0");
}

#[test]
fn decimals() {
    let mut s = String::from("n=");
    push_decimal(&mut s, 0);
    push_decimal(&mut s, 1);
    push_decimal(&mut s, 18446744073709551615);
    assert_eq!(s, "n=0118446744073709551615");
    assert!(contains_str("hello", "ll"));
    assert!(!contains_str("hello", "lo!"));
}

#[test]
fn request_lines_are_trimmed() {
    assert_eq!(trimmed_line("  {\"type\":\"Ping\"}\r").as_deref(), Some("{\"type\":\"Ping\"}"));
    assert_eq!(trimmed_line(" \t \u{3000}"), None);
    assert_eq!(trimmed_line(""), None);
    assert_eq!(trimmed_line("a b"), Some("a b".to_string()));
}

#[test]
fn white_space_matches_std_for_every_char() {
    for u in 0u32..=0x10FFFF {
        if let Some(c) = char::from_u32(u) {
            assert_eq!(tomodachi::text::is_white_space(c), c.is_whitespace(), "U+{:04X}", u);
        }
    }
}
