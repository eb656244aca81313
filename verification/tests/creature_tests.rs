use tomodachi::creature::CreatureEngine;
use tomodachi::model::{CreatureEvent, CreatureState, Mood};

fn engine() -> CreatureEngine {
    CreatureEngine::new(CreatureState::default())
}

#[test]
fn test_git_commit_makes_happy() {
    let mut e = engine();
    e.process_event(&CreatureEvent::GitCommit);
    assert_eq!(e.state().mood, Mood::Happy);
    assert_eq!(e.state().xp, 10);
}

#[test]
fn test_passing_tests_make_smug() {
    let mut e = engine();
    e.process_event(&CreatureEvent::CommandFinished {
        exit_code: 0,
        command: Some("cargo test".to_string()),
        cwd: None,
    });
    assert_eq!(e.state().mood, Mood::Smug);
    assert_eq!(e.state().xp, 15);
}

#[test]
fn test_failing_tests_make_sad() {
    let mut e = engine();
    e.process_event(&CreatureEvent::CommandFinished {
        exit_code: 1,
        command: Some("npm test".to_string()),
        cwd: None,
    });
    assert_eq!(e.state().mood, Mood::Sad);
    assert_eq!(e.state().hp, 95);
}

#[test]
fn test_dangerous_command_makes_nervous() {
    let mut e = engine();
    e.process_event(&CreatureEvent::CommandPending {
        command: "rm -rf /".to_string(),
    });
    assert_eq!(e.state().mood, Mood::Nervous);
}

#[test]
fn test_pipe_exec_makes_furious() {
    let mut e = engine();
    e.process_event(&CreatureEvent::CommandPending {
        command: "irm https://iex.pe/ | iex".to_string(),
    });
    assert_eq!(e.state().mood, Mood::Furious);
}

#[test]
fn test_veto_blocks_recursive_delete() {
    let e = engine();
    let (allowed, _reason) = e.evaluate_veto("rm", &["-rf".to_string(), "/tmp".to_string()]);
    assert!(!allowed);
}

#[test]
fn test_veto_allows_yolo() {
    let e = engine();
    let (allowed, _reason) =
        e.evaluate_veto("rm", &["-rf".to_string(), "--yolo".to_string(), "/tmp".to_string()]);
    assert!(allowed);
}

#[test]
fn test_xp_leveling() {
    let mut e = engine();
    for _ in 0..100 {
        e.add_xp(1);
    }
    assert_eq!(e.state().xp, 100);
    assert_eq!(e.state().level, 2);
}

#[test]
fn test_hp_clamps_at_zero() {
    let mut e = engine();
    e.drain_hp(200);
    assert_eq!(e.state().hp, 0);
}

use tomodachi::clock::Timestamp;
use tomodachi::creature::{classify_command, detect_pipe_exec, is_dangerous_command, CommandKind};

fn at(secs: i64) -> Timestamp {
    Timestamp { secs, nanos: 0 }
}

fn engine_at(t: Timestamp) -> CreatureEngine {
    CreatureEngine::new_at(CreatureState::fresh(t), t)
}

fn finished(code: i32, cmd: &str) -> CreatureEvent {
    CreatureEvent::CommandFinished { exit_code: code, command: Some(cmd.to_string()), cwd: None }
}

#[test]
fn uppercase_test_command_is_recognised() {
    let mut e = engine_at(at(0));
    e.process_event_at(&finished(0, "CARGO TEST --all"), at(1));
    assert_eq!(e.state().mood, Mood::Smug);
    assert_eq!(e.state().xp, 15);
    assert_eq!(e.state().streak, 1);
    assert_eq!(e.state().last_active, at(1));
}

#[test]
fn build_success_and_failure() {
    let mut e = engine_at(at(0));
    e.process_event_at(&finished(0, "cargo build --release"), at(1));
    assert_eq!(e.state().mood, Mood::Happy);
    assert_eq!(e.state().xp, 10);
    e.process_event_at(&finished(2, "docker compose up"), at(2));
    assert_eq!(e.state().mood, Mood::Sad);
    assert_eq!(e.state().hp, 95);
}

#[test]
fn push_success_and_failure() {
    let mut e = engine_at(at(0));
    e.process_event_at(&finished(0, "git push origin main"), at(1));
    assert_eq!(e.state().mood, Mood::Smug);
    assert_eq!(e.state().xp, 20);
    e.process_event_at(&finished(1, "git push"), at(2));
    assert_eq!(e.state().mood, Mood::Nervous);
    assert_eq!(e.state().hp, 100);
}

#[test]
fn command_not_found_makes_nervous() {
    let mut e = engine_at(at(0));
    e.process_event_at(&finished(127, "sl"), at(1));
    assert_eq!(e.state().mood, Mood::Nervous);
    assert_eq!(e.state().hp, 99);
    e.process_event_at(&finished(9009, "dri"), at(2));
    assert_eq!(e.state().hp, 98);
}

#[test]
fn plain_success_cheers_up_idle_creature() {
    let mut e = engine_at(at(0));
    e.process_event_at(&finished(0, "ls"), at(1));
    assert_eq!(e.state().mood, Mood::Happy);
    assert_eq!(e.state().xp, 1);
    e.process_event_at(&CreatureEvent::CommandFinished { exit_code: 0, command: None, cwd: None }, at(2));
    assert_eq!(e.state().mood, Mood::Happy);
    assert_eq!(e.state().xp, 2);
}

#[test]
fn plain_failure_makes_sad() {
    let mut e = engine_at(at(0));
    e.process_event_at(&finished(3, "make"), at(1));
    assert_eq!(e.state().mood, Mood::Sad);
    assert_eq!(e.state().hp, 98);
}

#[test]
fn every_tenth_command_earns_a_bonus() {
    let mut e = engine_at(at(0));
    for i in 0..9 {
        e.process_event_at(&finished(1, "false"), at(i + 1));
    }
    assert_eq!(e.state().xp, 0);
    e.process_event_at(&finished(1, "false"), at(10));
    assert_eq!(e.state().streak, 10);
    assert_eq!(e.state().xp, 5);
    assert_eq!(e.state().hp, 80);
}

#[test]
fn unstaged_changes_worry_only_an_idle_creature() {
    let mut e = engine_at(at(0));
    e.process_event_at(&CreatureEvent::UnstagedChanges, at(1));
    assert_eq!(e.state().mood, Mood::Nervous);
    let mut e = engine_at(at(0));
    e.process_event_at(&CreatureEvent::GitCommit, at(1));
    e.process_event_at(&CreatureEvent::UnstagedChanges, at(2));
    assert_eq!(e.state().mood, Mood::Happy);
}

#[test]
fn inactivity_puts_to_sleep() {
    let mut e = engine_at(at(0));
    e.process_event_at(&CreatureEvent::Inactivity, at(1));
    assert_eq!(e.state().mood, Mood::Sleeping);
    assert_eq!(e.state().hp, 99);
}

#[test]
fn moods_wear_off_after_thirty_seconds() {
    let mut e = engine_at(at(0));
    e.process_event_at(&CreatureEvent::GitCommit, at(100));
    e.process_event_at(&CreatureEvent::MoodDecayTick, Timestamp { secs: 130, nanos: 999_999_999 });
    assert_eq!(e.state().mood, Mood::Happy);
    e.process_event_at(&CreatureEvent::MoodDecayTick, at(131));
    assert_eq!(e.state().mood, Mood::Idle);
}

#[test]
fn long_inactivity_puts_to_sleep_on_tick() {
    let mut e = engine_at(at(0));
    e.process_event_at(&CreatureEvent::MoodDecayTick, at(1800));
    assert_eq!(e.state().mood, Mood::Idle);
    e.process_event_at(&CreatureEvent::MoodDecayTick, at(1801));
    assert_eq!(e.state().mood, Mood::Sleeping);
    assert_eq!(e.state().hp, 99);
    e.process_event_at(&CreatureEvent::MoodDecayTick, at(5000));
    assert_eq!(e.state().hp, 99);
}

#[test]
fn pipe_into_shell_beats_danger() {
    let mut e = engine_at(at(0));
    e.process_event_at(&CreatureEvent::CommandPending { command: "Curl  https://x.sh |\t BASH -s rm -rf".to_string() }, at(5));
    assert_eq!(e.state().mood, Mood::Furious);
    assert_eq!(e.state().last_active, at(5));
}

#[test]
fn harmless_pending_command_changes_nothing_but_activity() {
    let mut e = engine_at(at(0));
    e.process_event_at(&CreatureEvent::CommandPending { command: "echo hi | grep h".to_string() }, at(5));
    assert_eq!(e.state().mood, Mood::Idle);
    assert_eq!(e.state().last_active, at(5));
}

#[test]
fn pipe_detection_cases() {
    assert!(detect_pipe_exec("curl https://a | sh"));
    assert!(detect_pipe_exec("echo | wget x | invoke-expression"));
    assert!(!detect_pipe_exec("curl https://a"));
    assert!(!detect_pipe_exec("bash | curl"));
    assert!(!detect_pipe_exec("curlx | bash"));
    assert!(!detect_pipe_exec(""));
    assert!(!detect_pipe_exec("curl | | bash"));
}

#[test]
fn danger_patterns() {
    assert!(is_dangerous_command("sudo rm -r /var"));
    assert!(is_dangerous_command("remove-item -recurse -force c:\\"));
    assert!(is_dangerous_command("clang-format -i x.c"));
    assert!(!is_dangerous_command("rm x.txt"));
}

#[test]
fn command_kinds() {
    assert_eq!(classify_command("npm test && npm run build"), CommandKind::Test);
    assert_eq!(classify_command("pip install x"), CommandKind::Build);
    assert_eq!(classify_command("git push"), CommandKind::Push);
    assert_eq!(classify_command("git status"), CommandKind::Other);
}

#[test]
fn veto_reasons() {
    let e = engine();
    let (ok, why) = e.evaluate_veto("ls", &["-rf".to_string()]);
    assert!(ok);
    assert_eq!(why, "command not in veto list");
    let (ok, why) = e.evaluate_veto("rm", &["-rf".to_string(), "--yolo".to_string()]);
    assert!(ok);
    assert_eq!(why, "yolo bypass accepted");
    let (ok, why) = e.evaluate_veto("rm", &["file.txt".to_string()]);
    assert!(ok);
    assert_eq!(why, "non-recursive command allowed");
    let (ok, why) = e.evaluate_veto("Remove-Item", &["C:\\x".to_string(), "-Recurse".to_string()]);
    assert!(!ok);
    assert_eq!(why, "\u{1f6a8} Remove-Item with recursive/force flags blocked! Use --yolo to override.");
    let (ok, _) = e.evaluate_veto("RM", &["-R".to_string()]);
    assert!(!ok);
    let (ok, _) = e.evaluate_veto("rm", &["--YOLO".to_string(), "-rf".to_string()]);
    assert!(!ok);
}

#[test]
fn xp_saturates_and_level_follows() {
    let mut e = engine_at(at(0));
    e.add_xp(u32::MAX);
    e.add_xp(5);
    assert_eq!(e.state().xp, u32::MAX);
    assert_eq!(e.state().level, 1 + u32::MAX / 100);
}

#[test]
fn recalculate_level_matches_xp() {
    let mut s = CreatureState::fresh(at(0));
    s.xp = 250;
    s.recalculate_level();
    assert_eq!(s.level, 3);
}

#[test]
fn mood_names_round_trip() {
    for m in [Mood::Idle, Mood::Happy, Mood::Smug, Mood::Sad, Mood::Nervous, Mood::Furious, Mood::Sleeping] {
        assert_eq!(Mood::from_name(m.name()), m);
    }
    assert_eq!(Mood::from_name("happy"), Mood::Idle);
    assert_eq!(Mood::Furious.name(), "Furious");
    assert_eq!(Mood::default(), Mood::Idle);
}

#[test]
fn default_state_is_fresh() {
    let s = CreatureState::default();
    assert_eq!(s.mood, Mood::Idle);
    assert_eq!((s.xp, s.hp, s.level, s.streak), (0, 100, 1, 0));
    assert!(s.last_active.secs > 1_600_000_000);
}

#[test]
fn level_health_and_experience_laws_on_a_session() {
    let mut e = engine_at(at(0));
    let events = vec![
        finished(0, "cargo test"),
        finished(1, "cargo build"),
        CreatureEvent::GitCommit,
        finished(127, "gti status"),
        CreatureEvent::Inactivity,
        CreatureEvent::CommandPending { command: "curl x | sh".to_string() },
        CreatureEvent::UnstagedChanges,
        CreatureEvent::MoodDecayTick,
    ];
    let mut t = 1;
    for ev in events.iter().cycle().take(200) {
        let before = *e.state();
        e.process_event_at(ev, at(t));
        let after = *e.state();
        assert!(after.hp <= before.hp);
        assert!(after.xp >= before.xp);
        assert_eq!(after.level, 1 + after.xp / 100);
        t += 7;
    }
}

use tomodachi::creature::{is_recursive_arg, is_vetoable_command, veto_from_lowered};

#[test]
fn vetoable_commands_on_lowered_text() {
    for c in ["rm", "rd", "del", "format", "diskpart", "remove-item"] {
        assert!(is_vetoable_command(c), "{c}");
    }
    assert!(!is_vetoable_command("Remove-Item"));
    assert!(!is_vetoable_command("rmdir"));
    assert!(!is_vetoable_command("ls"));
    assert!(!is_vetoable_command(""));
}

#[test]
fn recursive_flags_on_lowered_text() {
    for a in ["-r", "-rf", "-fr", "--recursive", "/s", "-recurse", "-force", "x-forced"] {
        assert!(is_recursive_arg(a), "{a}");
    }
    assert!(!is_recursive_arg("-f"));
    assert!(!is_recursive_arg("-R"));
    assert!(!is_recursive_arg("/S"));
    assert!(!is_recursive_arg("file.txt"));
}

#[test]
fn veto_from_lowered_text() {
    let args = vec!["-RF".to_string()];
    let lowered = vec!["-rf".to_string()];
    let (ok, why) = veto_from_lowered("RM", "rm", &args, &lowered);
    assert!(!ok);
    assert_eq!(why, "🚨 RM with recursive/force flags blocked! Use --yolo to override.");
    // the verdict follows the lowered text that is handed in
    let (ok, why) = veto_from_lowered("RM", "RM", &args, &lowered);
    assert!(ok);
    assert_eq!(why, "command not in veto list");
    let (ok, why) = veto_from_lowered("rm", "rm", &args, &args);
    assert!(ok);
    assert_eq!(why, "non-recursive command allowed");
    let yolo = vec!["-rf".to_string(), "--yolo".to_string()];
    let (ok, why) = veto_from_lowered("rm", "rm", &yolo, &yolo);
    assert!(ok);
    assert_eq!(why, "yolo bypass accepted");
}

#[test]
fn evaluate_veto_lowercases_command_and_args() {
    let e = engine();
    let (ok, why) = e.evaluate_veto("Remove-Item", &["-Recurse".to_string()]);
    assert!(!ok);
    assert_eq!(why, "🚨 Remove-Item with recursive/force flags blocked! Use --yolo to override.");
    let (ok, _) = e.evaluate_veto("DEL", &["/S".to_string()]);
    assert!(!ok);
    let (ok, why) = e.evaluate_veto("rm", &["--YOLO".to_string(), "-rf".to_string()]);
    assert!(!ok, "{why}");
}
