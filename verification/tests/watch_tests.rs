use tomodachi::model::CreatureEvent;
use tomodachi::watch::{
    fs_change_events, register_cwd, should_descend, str_ends_with, walk_step, FsChangeKind, RepoRegistry, WalkAction,
};

#[test]
fn head_log_change_is_a_commit() {
    let ev = fs_change_events("/home/u/p/.git/logs/HEAD", FsChangeKind::Modify);
    assert!(matches!(ev.as_slice(), [CreatureEvent::GitCommit]));
    let ev = fs_change_events("C:\\p\\.git\\logs\\HEAD", FsChangeKind::Create);
    assert!(matches!(ev.as_slice(), [CreatureEvent::GitCommit]));
    assert!(fs_change_events("/p/.git/logs/HEAD", FsChangeKind::Other).is_empty());
    assert!(fs_change_events("/p/logs/HEAD", FsChangeKind::Modify).is_empty());
}

#[test]
fn index_change_is_unstaged_work() {
    let ev = fs_change_events("/p/.git/index.lock", FsChangeKind::Modify);
    assert!(matches!(ev.as_slice(), [CreatureEvent::UnstagedChanges]));
    assert!(fs_change_events("/p/.git/index", FsChangeKind::Create).is_empty());
}

#[test]
fn search_skips_hidden_and_build_directories() {
    assert!(should_descend("projects"));
    assert!(!should_descend(".cache"));
    assert!(!should_descend("node_modules"));
    assert!(!should_descend("target"));
    assert!(!should_descend("__pycache__"));
    assert!(should_descend(""));
}

#[test]
fn ends_with_cases() {
    assert!(str_ends_with("abc", "bc"));
    assert!(str_ends_with("abc", ""));
    assert!(!str_ends_with("bc", "abc"));
}

#[test]
fn registry_keeps_each_repo_once() {
    let mut r = RepoRegistry::new();
    assert!(r.insert("/a".to_string()));
    assert!(!r.insert("/a".to_string()));
    assert!(r.contains("/a"));
    assert!(!r.contains("/b"));
}

#[test]
fn nearest_repository_is_registered() {
    let mut r = RepoRegistry::new();
    let ancestors = vec!["/a/b/c".to_string(), "/a/b".to_string(), "/a".to_string()];
    assert!(register_cwd(&mut r, &ancestors, &[false, true, true]));
    assert!(r.contains("/a/b"));
    assert!(!r.contains("/a"));
    assert!(!register_cwd(&mut r, &ancestors, &[false, true, true]));
    assert!(!register_cwd(&mut r, &ancestors, &[false, false, false]));
    assert!(!r.contains("/a/b/c"));
}

#[test]
fn search_steps() {
    assert_eq!(walk_step(4, 3, true, true), WalkAction::TooDeep);
    assert_eq!(walk_step(3, 3, true, true), WalkAction::WatchLogs);
    assert_eq!(walk_step(0, 3, true, false), WalkAction::SkipRepository);
    assert_eq!(walk_step(1, 3, false, true), WalkAction::SearchChildren);
}
