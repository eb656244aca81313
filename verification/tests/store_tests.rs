use tomodachi::clock::{seconds_between, Timestamp};
use tomodachi::model::{CreatureState, Mood};
use tomodachi::store::{
    creature_from_row, creature_from_row_at, creature_to_row, roast_text, tally_commands,
    CommandLogEntry, CreatureRow, LoggedCommand, RoastTally,
};

fn sample() -> CreatureState {
    CreatureState {
        mood: Mood::Nervous,
        xp: 1234,
        hp: 42,
        level: 13,
        streak: 7,
        last_active: Timestamp { secs: 1_700_000_000, nanos: 123_000_000 },
    }
}

#[test]
fn saved_row_reads_back() {
    let s = sample();
    let row = creature_to_row(&s).unwrap();
    assert_eq!(row.mood, "Nervous");
    assert_eq!(row.last_active, "2023-11-14T22:13:20.123+00:00");
    let back = creature_from_row_at(&row, Timestamp { secs: 0, nanos: 0 });
    assert_eq!(back.mood, s.mood);
    assert_eq!((back.xp, back.hp, back.level, back.streak), (1234, 42, 13, 7));
    assert_eq!(back.last_active, s.last_active);
}

#[test]
fn unwritable_time_gives_no_row() {
    let mut s = sample();
    s.last_active = Timestamp { secs: i64::MAX, nanos: 0 };
    assert!(creature_to_row(&s).is_none());
}

#[test]
fn unreadable_row_fields_fall_back() {
    let row = CreatureRow {
        mood: "Grumpy".to_string(),
        xp: 5,
        hp: 6,
        level: 1,
        streak: 2,
        last_active: "2024-01-01 10:00:00".to_string(),
    };
    let now = Timestamp { secs: 99, nanos: 1 };
    let s = creature_from_row_at(&row, now);
    assert_eq!(s.mood, Mood::Idle);
    assert_eq!(s.last_active, now);
    let s = creature_from_row(&row);
    assert!(s.last_active.secs > 1_600_000_000);
    let row = CreatureRow { last_active: "2024-01-01T10:00:00+02:00".to_string(), ..row };
    assert_eq!(creature_from_row_at(&row, now).last_active, Timestamp { secs: 1_704_096_000, nanos: 0 });
}

#[test]
fn whole_seconds_round_toward_zero() {
    let a = Timestamp { secs: 10, nanos: 500_000_000 };
    let b = Timestamp { secs: 0, nanos: 600_000_000 };
    assert_eq!(seconds_between(a, b), 9);
    assert_eq!(seconds_between(b, a), -9);
    assert_eq!(seconds_between(a, a), 0);
}

fn logged(cmd: Option<&str>, code: Option<i32>) -> LoggedCommand {
    LoggedCommand { command: cmd.map(|c| c.to_string()), exit_code: code }
}

#[test]
fn tally_counts_each_kind() {
    let rows = vec![
        logged(Some("RM -RF build"), Some(0)),
        logged(Some("curl x | bash"), Some(1)),
        logged(Some("git commit -m x"), Some(0)),
        logged(Some("sl"), Some(127)),
        logged(None, Some(9009)),
        logged(Some("irm y | iex"), None),
    ];
    let t = tally_commands(&rows);
    assert_eq!(t.total, 6);
    assert_eq!(t.fails, 3);
    assert_eq!(t.typos, 2);
    assert_eq!(t.recursive_deletes, 1);
    assert_eq!(t.piped_downloads, 2);
    assert_eq!(t.commits, 1);
}

fn tally(total: u64, typos: u64, deletes: u64, pipes: u64, commits: u64) -> RoastTally {
    RoastTally { total, fails: 0, typos, recursive_deletes: deletes, piped_downloads: pipes, commits }
}

#[test]
fn empty_week_roast() {
    assert_eq!(roast_text(&tally(0, 0, 0, 0, 0), "ignored"), "You literally haven't done anything. Do you even code?");
}

#[test]
fn full_roast() {
    let text = roast_text(&tally(60, 6, 2, 1, 0), "RATE\n");
    assert_eq!(
        text,
        "\u{1f43e} Tomodachi's Weekly Roast \u{1f43e}\n\nYou ran 60 commands this week.\nRATE\n\
         You had 6 typos (command not found). Slow down and use tab completion.\n\
         You tried to recursively delete things 2 times. Living dangerously.\n\
         You piped an internet URL straight into bash/iex. I am calling the police.\n\
         Over 50 commands and barely any commits. What exactly are you doing all day?\n"
    );
}

#[test]
fn quiet_roast_and_busy_committer() {
    let text = roast_text(&tally(10, 5, 0, 0, 0), "");
    assert_eq!(text, "\u{1f43e} Tomodachi's Weekly Roast \u{1f43e}\n\nYou ran 10 commands this week.\n");
    let text = roast_text(&tally(30, 0, 0, 0, 21), "");
    assert!(text.ends_with("Calm down with the git commits. Squash your history, weirdo.\n"));
}

#[test]
fn log_entry_holds_its_fields() {
    let e = CommandLogEntry {
        timestamp: "2024-01-01 00:00:00".to_string(),
        command: Some("ls".to_string()),
        exit_code: Some(0),
        cwd: None,
        shell: Some("zsh".to_string()),
    };
    assert_eq!(e.clone().command.as_deref(), Some("ls"));
}

#[test]
fn times_before_1970_and_leap_nanos_read_back() {
    for t in [
        Timestamp { secs: -1, nanos: 5 },
        Timestamp { secs: -62_167_219_200, nanos: 0 },
        Timestamp { secs: 253_402_300_799, nanos: 999_999_999 },
        Timestamp { secs: 59, nanos: 1_500_000_000 },
    ] {
        let s = CreatureState { last_active: t, ..sample() };
        let row = creature_to_row(&s).unwrap();
        assert_eq!(creature_from_row_at(&row, Timestamp { secs: 7, nanos: 7 }).last_active, t);
    }
}

use tomodachi::store::{command_marks, CommandMarks};

#[test]
fn marks_of_lowered_command_lines() {
    let none = CommandMarks { deletes_recursively: false, pipes_download: false, commits: false };
    assert_eq!(command_marks("ls -la"), none);
    assert_eq!(command_marks("rm -rf build"), CommandMarks { deletes_recursively: true, ..none });
    assert_eq!(command_marks("rd /s /q tmp"), CommandMarks { deletes_recursively: true, ..none });
    assert_eq!(
        command_marks("remove-item -recurse -force x"),
        CommandMarks { deletes_recursively: true, ..none }
    );
    // marks are read from text that is already lowercased
    assert_eq!(command_marks("Remove-Item -Recurse -Force x"), none);
    assert_eq!(
        command_marks("curl https://x.sh | bash"),
        CommandMarks { pipes_download: true, ..none }
    );
    assert_eq!(command_marks("irm https://x | iex"), CommandMarks { pipes_download: true, ..none });
    assert_eq!(command_marks("curl https://x -o f"), none);
    assert_eq!(command_marks("git commit -m x"), CommandMarks { commits: true, ..none });
    assert_eq!(
        command_marks("git commit -m 'rm -rf'"),
        CommandMarks { deletes_recursively: true, pipes_download: false, commits: true }
    );
}

#[test]
fn times_in_four_digit_years_always_save() {
    let mut s = sample();
    for secs in [-62_167_219_200i64, 0, 1_700_000_000, 253_402_300_799] {
        s.last_active = Timestamp { secs, nanos: 999_999_999 };
        assert!(creature_to_row(&s).is_some(), "{secs}");
    }
    s.last_active = Timestamp { secs: 0, nanos: 1_000_000_000 };
    assert!(creature_to_row(&s).is_none());
}
