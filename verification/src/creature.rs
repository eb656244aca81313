//! The creature's reactions: how each event changes its mood, experience, health and
//! streak, and which shell commands it refuses to let through.
use vstd::prelude::*;

use crate::clock::{now, seconds_between, whole_seconds_between, Timestamp};
use crate::model::{level_for, CreatureEvent, CreatureState, Mood};
use crate::text::{
    char_vec, chars_eq, contains_chars, first_word, first_word_of, has_sub, lower, split_chars,
    split_on, str_eq, to_lower, ascii_lower, lemma_split_then_piece, lemma_split_without_sep,
};
use vstd::utf8::is_ascii_chars;

verus! {

/// The creature together with the moment its current mood was set.
pub struct CreatureEngine {
    state: CreatureState,
    mood_set_at: Timestamp,
}

/// What a `CreatureEngine` holds.
pub struct EngineView {
    pub state: CreatureState,
    pub mood_set_at: Timestamp,
}

impl View for CreatureEngine {
    type V = EngineView;

    closed spec fn view(&self) -> EngineView {
        EngineView { state: self.state, mood_set_at: self.mood_set_at }
    }
}

// ----- the effects that events are made of -----

/// Switches to mood `m`; the mood clock restarts only when the mood actually changes.
pub open spec fn with_mood(e: EngineView, m: Mood, now: Timestamp) -> EngineView {
    if e.state.mood != m {
        EngineView { state: CreatureState { mood: m, ..e.state }, mood_set_at: now }
    } else {
        e
    }
}

/// Adds `amount` experience, stopping at `u32::MAX`, and updates the level to match.
pub open spec fn with_xp(e: EngineView, amount: u32) -> EngineView {
    let xp: u32 = if e.state.xp + amount > u32::MAX {
        u32::MAX
    } else {
        (e.state.xp + amount) as u32
    };
    EngineView { state: CreatureState { xp: xp, level: level_for(xp), ..e.state }, ..e }
}

/// Takes `amount` health away, stopping at zero.
pub open spec fn drained(e: EngineView, amount: u32) -> EngineView {
    let hp: u32 = if e.state.hp >= amount {
        (e.state.hp - amount) as u32
    } else {
        0
    };
    EngineView { state: CreatureState { hp: hp, ..e.state }, ..e }
}

/// Records activity at `now`.
pub open spec fn touched(e: EngineView, now: Timestamp) -> EngineView {
    EngineView { state: CreatureState { last_active: now, ..e.state }, ..e }
}

// ----- recognising commands (all on lowercased text) -----

/// What kind of command a finished command line was, for the creature's purposes.
#[derive(Clone, Copy, Debug, PartialEq, Eq, Structural)]
pub enum CommandKind {
    Test,
    Build,
    Push,
    Other,
}

/// The command runs a test suite.
pub open spec fn is_test_command(l: Seq<char>) -> bool {
    ||| has_sub(l, "cargo test"@)
    ||| has_sub(l, "npm test"@)
    ||| has_sub(l, "pytest"@)
    ||| has_sub(l, "python -m pytest"@)
    ||| has_sub(l, "go test"@)
    ||| has_sub(l, "dotnet test"@)
    ||| has_sub(l, "jest"@)
    ||| has_sub(l, "vitest"@)
    ||| has_sub(l, "mocha"@)
}

/// The command builds or installs something.
pub open spec fn is_build_command(l: Seq<char>) -> bool {
    has_sub(l, "build"@) || has_sub(l, "install"@) || has_sub(l, "docker"@)
}

/// The command pushes commits.
pub open spec fn is_push_command(l: Seq<char>) -> bool {
    has_sub(l, "git push"@)
}

/// The kind of a lowercased command line; tests win over builds, builds over pushes.
pub open spec fn kind_of(l: Seq<char>) -> CommandKind {
    if is_test_command(l) {
        CommandKind::Test
    } else if is_build_command(l) {
        CommandKind::Build
    } else if is_push_command(l) {
        CommandKind::Push
    } else {
        CommandKind::Other
    }
}

/// The kind of a finished command, when its text is known.
pub open spec fn kind_of_command(command: Option<String>) -> CommandKind {
    match command {
        Some(c) => kind_of(lower(c@)),
        None => CommandKind::Other,
    }
}

/// The command line (lowercased) destroys things: it holds one of the dangerous
/// patterns, each lowercased.
pub open spec fn is_dangerous(l: Seq<char>) -> bool {
    ||| has_sub(l, "rm -rf"@)
    ||| has_sub(l, "rm -r"@)
    ||| has_sub(l, "rd /s"@)
    ||| has_sub(l, "del /s"@)
    ||| has_sub(l, "remove-item -recurse -force"@)
    ||| has_sub(l, "format"@)
    ||| has_sub(l, "diskpart"@)
}

/// A program that fetches from the network.
pub open spec fn is_pipe_source(w: Seq<char>) -> bool {
    ||| w == "curl"@
    ||| w == "wget"@
    ||| w == "irm"@
    ||| w == "invoke-restmethod"@
    ||| w == "invoke-webrequest"@
    ||| w == "iwr"@
}

/// A program that runs what it reads.
pub open spec fn is_pipe_sink(w: Seq<char>) -> bool {
    ||| w == "bash"@
    ||| w == "sh"@
    ||| w == "iex"@
    ||| w == "invoke-expression"@
}

/// Some stage of the pipeline `l` starts with a fetching program and the next stage with
/// a program that runs what it reads (`curl ... | bash`).
pub open spec fn pipes_to_shell(l: Seq<char>) -> bool {
    let parts = split_on(l, '|');
    &&& parts.len() >= 2
    &&& exists|i: int|
        0 <= i < parts.len() - 1 && #[trigger] is_pipe_source(first_word(parts[i]))
            && is_pipe_sink(first_word(parts[i + 1]))
}

// ----- what each event does -----

/// A command finished: activity, streak, the reaction to the kind of command and its exit
/// code, then a bonus on every tenth command of the streak.
pub open spec fn after_finished(
    e: EngineView,
    exit_code: i32,
    command: Option<String>,
    now: Timestamp,
) -> EngineView {
    let streak: u32 = if e.state.streak == u32::MAX {
        0
    } else {
        (e.state.streak + 1) as u32
    };
    let e = EngineView {
        state: CreatureState { last_active: now, streak: streak, ..e.state },
        ..e
    };
    let e = match kind_of_command(command) {
        CommandKind::Test => if exit_code == 0 {
            with_xp(with_mood(e, Mood::Smug, now), 15)
        } else {
            drained(with_mood(e, Mood::Sad, now), 5)
        },
        CommandKind::Build => if exit_code == 0 {
            with_xp(with_mood(e, Mood::Happy, now), 10)
        } else {
            drained(with_mood(e, Mood::Sad, now), 5)
        },
        CommandKind::Push => if exit_code == 0 {
            with_xp(with_mood(e, Mood::Smug, now), 20)
        } else {
            with_mood(e, Mood::Nervous, now)
        },
        CommandKind::Other => if exit_code == 127 || exit_code == 9009 {
            drained(with_mood(e, Mood::Nervous, now), 1)
        } else if exit_code == 0 {
            let e = with_xp(e, 1);
            if e.state.mood == Mood::Idle || e.state.mood == Mood::Sleeping {
                with_mood(e, Mood::Happy, now)
            } else {
                e
            }
        } else {
            drained(with_mood(e, Mood::Sad, now), 2)
        },
    };
    if e.state.streak > 0 && e.state.streak % 10 == 0 {
        with_xp(e, 5)
    } else {
        e
    }
}

/// A command is about to run: piping a download into a shell makes the creature furious,
/// otherwise a destructive command makes it nervous.
pub open spec fn after_pending(e: EngineView, command: Seq<char>, now: Timestamp) -> EngineView {
    let e = touched(e, now);
    let l = lower(command);
    if pipes_to_shell(l) {
        with_mood(e, Mood::Furious, now)
    } else if is_dangerous(l) {
        with_mood(e, Mood::Nervous, now)
    } else {
        e
    }
}

/// The periodic tick: a mood other than `Idle` or `Sleeping` wears off to `Idle` after more
/// than 30 seconds; more than 1800 seconds without activity puts the creature to sleep,
/// at the cost of one health point.
pub open spec fn after_tick(e: EngineView, now: Timestamp) -> EngineView {
    let e = if e.state.mood != Mood::Idle && e.state.mood != Mood::Sleeping
        && whole_seconds_between(now, e.mood_set_at) > 30 {
        with_mood(e, Mood::Idle, now)
    } else {
        e
    };
    if whole_seconds_between(now, e.state.last_active) > 1800 && e.state.mood != Mood::Sleeping {
        drained(with_mood(e, Mood::Sleeping, now), 1)
    } else {
        e
    }
}

/// What `event` at time `now` makes of the engine `e`.
pub open spec fn step(e: EngineView, event: CreatureEvent, now: Timestamp) -> EngineView {
    match event {
        CreatureEvent::CommandFinished { exit_code, command, .. } => after_finished(
            e,
            exit_code,
            command,
            now,
        ),
        CreatureEvent::CommandPending { command } => after_pending(e, command@, now),
        CreatureEvent::GitCommit => with_xp(with_mood(touched(e, now), Mood::Happy, now), 10),
        CreatureEvent::UnstagedChanges => if e.state.mood == Mood::Idle || e.state.mood
            == Mood::Sleeping {
            with_mood(e, Mood::Nervous, now)
        } else {
            e
        },
        CreatureEvent::Inactivity => drained(with_mood(e, Mood::Sleeping, now), 1),
        CreatureEvent::MoodDecayTick => after_tick(e, now),
    }
}

// ----- the veto -----

/// The (lowercased) command is one the creature may refuse: one of the veto list's
/// commands, each lowercased.
pub open spec fn is_vetoable(l: Seq<char>) -> bool {
    ||| l == "rm"@
    ||| l == "rd"@
    ||| l == "del"@
    ||| l == "format"@
    ||| l == "diskpart"@
    ||| l == "remove-item"@
}

/// Some argument is exactly `--yolo`.
pub open spec fn has_yolo(args: Seq<String>) -> bool {
    exists|i: int| 0 <= i < args.len() && #[trigger] args[i]@ == "--yolo"@
}

/// A (lowercased) argument asks for recursion or force.
pub open spec fn is_recursive_flag(a: Seq<char>) -> bool {
    ||| a == "-r"@
    ||| a == "-rf"@
    ||| a == "-fr"@
    ||| a == "--recursive"@
    ||| a == "/s"@
    ||| has_sub(a, "-recurse"@)
    ||| has_sub(a, "-force"@)
}

/// Some of the (lowercased) arguments asks for recursion or force.
pub open spec fn any_recursive_flag(lower_args: Seq<Seq<char>>) -> bool {
    exists|i: int| 0 <= i < lower_args.len() && #[trigger] is_recursive_flag(lower_args[i])
}

/// The arguments, each lowercased.
pub open spec fn lowered_args(args: Seq<String>) -> Seq<Seq<char>> {
    args.map_values(|a: String| lower(a@))
}

/// Some argument, lowercased, asks for recursion or force.
pub open spec fn has_recursive_flag(args: Seq<String>) -> bool {
    any_recursive_flag(lowered_args(args))
}

/// Whether `command` with `args` may run, and why, given the command lowercased
/// (`lower_command`) and the arguments lowercased (`lower_args`): only a vetoable command
/// with a recursive or force flag and without `--yolo` is refused.
pub open spec fn veto_verdict_lowered(
    command: Seq<char>,
    lower_command: Seq<char>,
    args: Seq<String>,
    lower_args: Seq<Seq<char>>,
) -> (bool, Seq<char>) {
    if !is_vetoable(lower_command) {
        (true, "command not in veto list"@)
    } else if has_yolo(args) {
        (true, "yolo bypass accepted"@)
    } else if any_recursive_flag(lower_args) {
        (
            false,
            "\u{1f6a8} "@ + command + " with recursive/force flags blocked! Use --yolo to override."@,
        )
    } else {
        (true, "non-recursive command allowed"@)
    }
}

/// Whether the command may run, and why, lowercasing the command and the arguments.
pub open spec fn veto_verdict(command: Seq<char>, args: Seq<String>) -> (bool, Seq<char>) {
    veto_verdict_lowered(command, lower(command), args, lowered_args(args))
}

/// The command and every argument are ASCII text.
pub open spec fn all_ascii(command: Seq<char>, args: Seq<String>) -> bool {
    &&& is_ascii_chars(command)
    &&& forall|i: int| 0 <= i < args.len() ==> #[trigger] is_ascii_chars(args[i]@)
}

// ----- executable recognisers -----

/// Whether `hay` contains the string `needle`.
fn holds(hay: &Vec<char>, needle: &str) -> (r: bool)
    ensures
        r == has_sub(hay@, needle@),
{
    contains_chars(hay, &char_vec(needle))
}

/// Whether `hay` contains `needle` lowercased.
fn holds_lowered(hay: &Vec<char>, needle: &str) -> (r: bool)
    ensures
        r == has_sub(hay@, lower(needle@)),
        is_ascii_chars(needle@) ==> r == has_sub(hay@, ascii_lower(needle@)),
{
    let l = to_lower(needle);
    contains_chars(hay, &char_vec(l.as_str()))
}

/// The dangerous patterns and the veto list are ASCII, and lowercased they read as follows.
proof fn lemma_pattern_lowercase()
    ensures
        is_ascii_chars("rm -rf"@) && ascii_lower("rm -rf"@) == "rm -rf"@,
        is_ascii_chars("rm -r"@) && ascii_lower("rm -r"@) == "rm -r"@,
        is_ascii_chars("rd /s"@) && ascii_lower("rd /s"@) == "rd /s"@,
        is_ascii_chars("del /s"@) && ascii_lower("del /s"@) == "del /s"@,
        is_ascii_chars("Remove-Item -Recurse -Force"@) && ascii_lower(
            "Remove-Item -Recurse -Force"@,
        ) == "remove-item -recurse -force"@,
        is_ascii_chars("format"@) && ascii_lower("format"@) == "format"@,
        is_ascii_chars("diskpart"@) && ascii_lower("diskpart"@) == "diskpart"@,
        is_ascii_chars("rm"@) && ascii_lower("rm"@) == "rm"@,
        is_ascii_chars("rd"@) && ascii_lower("rd"@) == "rd"@,
        is_ascii_chars("del"@) && ascii_lower("del"@) == "del"@,
        is_ascii_chars("Remove-Item"@) && ascii_lower("Remove-Item"@) == "remove-item"@,
{
    reveal_strlit("rm -rf");
    reveal_strlit("rm -r");
    reveal_strlit("rd /s");
    reveal_strlit("del /s");
    reveal_strlit("Remove-Item -Recurse -Force");
    reveal_strlit("remove-item -recurse -force");
    reveal_strlit("format");
    reveal_strlit("diskpart");
    reveal_strlit("rm");
    reveal_strlit("rd");
    reveal_strlit("del");
    reveal_strlit("Remove-Item");
    reveal_strlit("remove-item");
    assert(ascii_lower("rm -rf"@) =~= "rm -rf"@);
    assert(ascii_lower("rm -r"@) =~= "rm -r"@);
    assert(ascii_lower("rd /s"@) =~= "rd /s"@);
    assert(ascii_lower("del /s"@) =~= "del /s"@);
    assert(ascii_lower("Remove-Item -Recurse -Force"@) =~= "remove-item -recurse -force"@);
    assert(ascii_lower("format"@) =~= "format"@);
    assert(ascii_lower("diskpart"@) =~= "diskpart"@);
    assert(ascii_lower("rm"@) =~= "rm"@);
    assert(ascii_lower("rd"@) =~= "rd"@);
    assert(ascii_lower("del"@) =~= "del"@);
    assert(ascii_lower("Remove-Item"@) =~= "remove-item"@);
}

/// Whether the word `w` is exactly `s`.
fn is_word(w: &Vec<char>, s: &str) -> (r: bool)
    ensures
        r == (w@ == s@),
{
    chars_eq(w, &char_vec(s))
}

/// The kind of a lowercased command line.
pub fn classify_command(lower_cmd: &str) -> (k: CommandKind)
    ensures
        k == kind_of(lower_cmd@),
{
    let l = char_vec(lower_cmd);
    let is_test = holds(&l, "cargo test") || holds(&l, "npm test") || holds(&l, "pytest")
        || holds(&l, "python -m pytest") || holds(&l, "go test") || holds(&l, "dotnet test")
        || holds(&l, "jest") || holds(&l, "vitest") || holds(&l, "mocha");
    if is_test {
        return CommandKind::Test;
    }
    if holds(&l, "build") || holds(&l, "install") || holds(&l, "docker") {
        return CommandKind::Build;
    }
    if holds(&l, "git push") {
        return CommandKind::Push;
    }
    CommandKind::Other
}

/// Whether a lowercased command line holds one of the dangerous patterns.
pub fn is_dangerous_command(lower_cmd: &str) -> (r: bool)
    ensures
        r == is_dangerous(lower_cmd@),
{
    let l = char_vec(lower_cmd);
    proof {
        lemma_pattern_lowercase();
    }
    holds_lowered(&l, "rm -rf") || holds_lowered(&l, "rm -r") || holds_lowered(&l, "rd /s")
        || holds_lowered(&l, "del /s") || holds_lowered(&l, "Remove-Item -Recurse -Force")
        || holds_lowered(&l, "format") || holds_lowered(&l, "diskpart")
}

fn is_source_word(w: &Vec<char>) -> (r: bool)
    ensures
        r == is_pipe_source(w@),
{
    is_word(w, "curl") || is_word(w, "wget") || is_word(w, "irm") || is_word(
        w,
        "invoke-restmethod",
    ) || is_word(w, "invoke-webrequest") || is_word(w, "iwr")
}

fn is_sink_word(w: &Vec<char>) -> (r: bool)
    ensures
        r == is_pipe_sink(w@),
{
    is_word(w, "bash") || is_word(w, "sh") || is_word(w, "iex") || is_word(w, "invoke-expression")
}

/// Whether a lowercased command line pipes a download straight into a shell.
pub fn detect_pipe_exec(command: &str) -> (r: bool)
    ensures
        r == pipes_to_shell(command@),
{
    let chars = char_vec(command);
    let parts = split_chars(&chars, '|');
    let ghost model = split_on(command@, '|');
    if parts.len() < 2 {
        return false;
    }
    let mut i: usize = 0;
    while i < parts.len() - 1
        invariant
            model == split_on(command@, '|'),
            parts@.len() == model.len(),
            model.len() >= 2,
            forall|k: int| 0 <= k < parts@.len() ==> #[trigger] parts@[k]@ == model[k],
            i <= model.len() - 1,
            forall|k: int|
                0 <= k < i ==> !(#[trigger] is_pipe_source(first_word(model[k])) && is_pipe_sink(
                    first_word(model[k + 1]),
                )),
        decreases parts.len() - 1 - i,
    {
        let left = first_word_of(&parts[i]);
        let right = first_word_of(&parts[i + 1]);
        assert(parts@[i as int]@ == model[i as int]);
        assert(parts@[i + 1]@ == model[i + 1]);
        if is_source_word(&left) && is_sink_word(&right) {
            assert(is_pipe_source(first_word(model[i as int])) && is_pipe_sink(
                first_word(model[i + 1]),
            ));
            return true;
        }
        i = i + 1;
    }
    false
}

/// Whether some argument is exactly `--yolo`.
fn any_yolo(args: &[String]) -> (r: bool)
    ensures
        r == has_yolo(args@),
{
    let mut i: usize = 0;
    while i < args.len()
        invariant
            i <= args@.len(),
            forall|k: int| 0 <= k < i ==> #[trigger] args@[k]@ != "--yolo"@,
        decreases args.len() - i,
    {
        if str_eq(args[i].as_str(), "--yolo") {
            assert(args@[i as int]@ == "--yolo"@);
            return true;
        }
        i = i + 1;
    }
    false
}

/// Whether a lowercased argument asks for recursion or force.
pub fn is_recursive_arg(lower_arg: &str) -> (r: bool)
    ensures
        r == is_recursive_flag(lower_arg@),
{
    let a = char_vec(lower_arg);
    is_word(&a, "-r") || is_word(&a, "-rf") || is_word(&a, "-fr") || is_word(&a, "--recursive")
        || is_word(&a, "/s") || holds(&a, "-recurse") || holds(&a, "-force")
}

/// Whether some of the lowercased arguments asks for recursion or force.
fn any_recursive(lower_args: &[String]) -> (r: bool)
    ensures
        r == any_recursive_flag(lower_args@.map_values(|a: String| a@)),
{
    let ghost la = lower_args@.map_values(|a: String| a@);
    let mut i: usize = 0;
    while i < lower_args.len()
        invariant
            i <= lower_args@.len(),
            la == lower_args@.map_values(|a: String| a@),
            forall|k: int| 0 <= k < i ==> !#[trigger] is_recursive_flag(la[k]),
        decreases lower_args.len() - i,
    {
        if is_recursive_arg(lower_args[i].as_str()) {
            assert(is_recursive_flag(la[i as int]));
            return true;
        }
        i = i + 1;
    }
    false
}

/// Whether a lowercased command is one the creature may refuse: it equals one of the veto
/// list's commands, each lowercased.
pub fn is_vetoable_command(lower_cmd: &str) -> (r: bool)
    ensures
        r == is_vetoable(lower_cmd@),
{
    let lv = char_vec(lower_cmd);
    let mut r = false;
    let choices = ["rm", "rd", "del", "format", "diskpart", "Remove-Item"];
    let ghost spec_choices = seq!["rm"@, "rd"@, "del"@, "format"@, "diskpart"@, "Remove-Item"@];
    let ghost lowered = seq!["rm"@, "rd"@, "del"@, "format"@, "diskpart"@, "remove-item"@];
    proof {
        lemma_pattern_lowercase();
    }
    assert(forall|k: int| 0 <= k < 6 ==> #[trigger] choices@[k]@ == spec_choices[k]);
    assert(forall|k: int|
        0 <= k < 6 ==> is_ascii_chars(spec_choices[k]) && #[trigger] ascii_lower(spec_choices[k])
            == lowered[k]);
    let mut i: usize = 0;
    while i < 6
        invariant
            i <= 6,
            choices@.len() == 6,
            lv@ == lower_cmd@,
            forall|k: int| 0 <= k < 6 ==> #[trigger] choices@[k]@ == spec_choices[k],
            forall|k: int|
                0 <= k < 6 ==> is_ascii_chars(spec_choices[k]) && #[trigger] ascii_lower(
                    spec_choices[k],
                ) == lowered[k],
            r == exists|k: int| 0 <= k < i && lv@ == #[trigger] lowered[k],
        decreases 6 - i,
    {
        let v = to_lower(choices[i]);
        assert(choices@[i as int]@ == spec_choices[i as int]);
        assert(ascii_lower(spec_choices[i as int]) == lowered[i as int]);
        assert(v@ == lowered[i as int]);
        if chars_eq(&lv, &char_vec(v.as_str())) {
            r = true;
        }
        i = i + 1;
    }
    assert(r == is_vetoable(lower_cmd@)) by {
        if is_vetoable(lower_cmd@) {
            if lv@ == "rm"@ {
                assert(lv@ == lowered[0]);
            } else if lv@ == "rd"@ {
                assert(lv@ == lowered[1]);
            } else if lv@ == "del"@ {
                assert(lv@ == lowered[2]);
            } else if lv@ == "format"@ {
                assert(lv@ == lowered[3]);
            } else if lv@ == "diskpart"@ {
                assert(lv@ == lowered[4]);
            } else {
                assert(lv@ == lowered[5]);
            }
        }
    }
    r
}

/// Whether `command` with `args` may run, and the reason given, from the command lowercased
/// (`lower_command`) and the arguments lowercased (`lower_args`).
pub fn veto_from_lowered(
    command: &str,
    lower_command: &str,
    args: &[String],
    lower_args: &[String],
) -> (r: (bool, String))
    ensures
        r.0 == veto_verdict_lowered(
            command@,
            lower_command@,
            args@,
            lower_args@.map_values(|a: String| a@),
        ).0,
        r.1@ == veto_verdict_lowered(
            command@,
            lower_command@,
            args@,
            lower_args@.map_values(|a: String| a@),
        ).1,
{
    if !is_vetoable_command(lower_command) {
        return (true, String::from_str("command not in veto list"));
    }
    if any_yolo(args) {
        return (true, String::from_str("yolo bypass accepted"));
    }
    if any_recursive(lower_args) {
        let mut reason = String::from_str("\u{1f6a8} ");
        reason.append(command);
        reason.append(" with recursive/force flags blocked! Use --yolo to override.");
        return (false, reason);
    }
    (true, String::from_str("non-recursive command allowed"))
}

impl CreatureEngine {
    /// An engine for `state` whose current mood was set at `now`.
    pub fn new_at(state: CreatureState, now: Timestamp) -> (e: CreatureEngine)
        ensures
            e@.state == state,
            e@.mood_set_at == now,
    {
        CreatureEngine { state, mood_set_at: now }
    }

    /// An engine for `state` whose current mood was set just now.
    pub fn new(state: CreatureState) -> (e: CreatureEngine)
        ensures
            e@.state == state,
    {
        Self::new_at(state, now())
    }

    /// The creature as it stands.
    pub fn state(&self) -> (s: &CreatureState)
        ensures
            *s == self@.state,
    {
        &self.state
    }

    /// Switches the mood, restarting the mood clock only when the mood changes.
    fn set_mood(&mut self, mood: Mood, now: Timestamp)
        ensures
            final(self)@ == with_mood(old(self)@, mood, now),
    {
        if self.state.mood != mood {
            self.state.mood = mood;
            self.mood_set_at = now;
        }
    }

    /// Adds experience (stopping at `u32::MAX`) and recomputes the level.
    pub fn add_xp(&mut self, amount: u32)
        ensures
            final(self)@ == with_xp(old(self)@, amount),
    {
        self.state.xp = self.state.xp.saturating_add(amount);
        self.state.recalculate_level();
    }

    /// Takes health away, stopping at zero.
    pub fn drain_hp(&mut self, amount: u32)
        ensures
            final(self)@ == drained(old(self)@, amount),
    {
        self.state.hp = self.state.hp.saturating_sub(amount);
    }

    fn on_finished(&mut self, exit_code: i32, command: &Option<String>, now: Timestamp)
        ensures
            final(self)@ == after_finished(old(self)@, exit_code, *command, now),
    {
        self.state.last_active = now;
        self.state.streak = self.state.streak.wrapping_add(1);
        let kind = match command {
            Some(cmd) => {
                let l = to_lower(cmd.as_str());
                classify_command(l.as_str())
            },
            None => CommandKind::Other,
        };
        match kind {
            CommandKind::Test => {
                if exit_code == 0 {
                    self.set_mood(Mood::Smug, now);
                    self.add_xp(15);
                } else {
                    self.set_mood(Mood::Sad, now);
                    self.drain_hp(5);
                }
            },
            CommandKind::Build => {
                if exit_code == 0 {
                    self.set_mood(Mood::Happy, now);
                    self.add_xp(10);
                } else {
                    self.set_mood(Mood::Sad, now);
                    self.drain_hp(5);
                }
            },
            CommandKind::Push => {
                if exit_code == 0 {
                    self.set_mood(Mood::Smug, now);
                    self.add_xp(20);
                } else {
                    self.set_mood(Mood::Nervous, now);
                }
            },
            CommandKind::Other => {
                if exit_code == 127 || exit_code == 9009 {
                    self.set_mood(Mood::Nervous, now);
                    self.drain_hp(1);
                } else if exit_code == 0 {
                    self.add_xp(1);
                    if self.state.mood == Mood::Idle || self.state.mood == Mood::Sleeping {
                        self.set_mood(Mood::Happy, now);
                    }
                } else {
                    self.set_mood(Mood::Sad, now);
                    self.drain_hp(2);
                }
            },
        }
        if self.state.streak > 0 && self.state.streak % 10 == 0 {
            self.add_xp(5);
        }
    }

    fn on_pending(&mut self, command: &String, now: Timestamp)
        ensures
            final(self)@ == after_pending(old(self)@, command@, now),
    {
        self.state.last_active = now;
        let lowered = to_lower(command.as_str());
        if detect_pipe_exec(lowered.as_str()) {
            self.set_mood(Mood::Furious, now);
            return;
        }
        if is_dangerous_command(lowered.as_str()) {
            self.set_mood(Mood::Nervous, now);
        }
    }

    fn on_tick(&mut self, now: Timestamp)
        ensures
            final(self)@ == after_tick(old(self)@, now),
    {
        let elapsed = seconds_between(now, self.mood_set_at);
        if self.state.mood != Mood::Idle && self.state.mood != Mood::Sleeping && elapsed > 30 {
            self.set_mood(Mood::Idle, now);
        }
        let inactive = seconds_between(now, self.state.last_active);
        if inactive > 1800 && self.state.mood != Mood::Sleeping {
            self.set_mood(Mood::Sleeping, now);
            self.drain_hp(1);
        }
    }

    /// Reacts to `event`, taking `now` as the time at which it happens.
    pub fn process_event_at(&mut self, event: &CreatureEvent, now: Timestamp)
        ensures
            final(self)@ == step(old(self)@, *event, now),
    {
        match event {
            CreatureEvent::CommandFinished { exit_code, command, .. } => {
                self.on_finished(*exit_code, command, now);
            },
            CreatureEvent::CommandPending { command } => {
                self.on_pending(command, now);
            },
            CreatureEvent::GitCommit => {
                self.state.last_active = now;
                self.set_mood(Mood::Happy, now);
                self.add_xp(10);
            },
            CreatureEvent::UnstagedChanges => {
                if self.state.mood == Mood::Idle || self.state.mood == Mood::Sleeping {
                    self.set_mood(Mood::Nervous, now);
                }
            },
            CreatureEvent::Inactivity => {
                self.set_mood(Mood::Sleeping, now);
                self.drain_hp(1);
            },
            CreatureEvent::MoodDecayTick => {
                self.on_tick(now);
            },
        }
    }

    /// Reacts to `event` as it happens now; the outcome is `step` at the time read from
    /// the clock.
    pub fn process_event(&mut self, event: &CreatureEvent)
        ensures
            exists|t: Timestamp| final(self)@ == step(old(self)@, *event, t),
    {
        let t = now();
        self.process_event_at(event, t);
    }

    /// Whether `command` with `args` may run, and the reason given. For ASCII text the
    /// verdict is the one on the ASCII-lowercased command and arguments.
    pub fn evaluate_veto(&self, command: &str, args: &[String]) -> (r: (bool, String))
        ensures
            r.0 == veto_verdict(command@, args@).0,
            r.1@ == veto_verdict(command@, args@).1,
            all_ascii(command@, args@) ==> veto_verdict(command@, args@) == veto_verdict_lowered(
                command@,
                ascii_lower(command@),
                args@,
                args@.map_values(|a: String| ascii_lower(a@)),
            ),
    {
        let lower_cmd = to_lower(command);
        let mut lower_args: Vec<String> = Vec::new();
        let mut i: usize = 0;
        while i < args.len()
            invariant
                i <= args@.len(),
                lower_args@.len() == i,
                forall|k: int| 0 <= k < i ==> #[trigger] lower_args@[k]@ == lower(args@[k]@),
                forall|k: int|
                    0 <= k < i && is_ascii_chars(args@[k]@) ==> #[trigger] lower_args@[k]@
                        == ascii_lower(args@[k]@),
            decreases args.len() - i,
        {
            lower_args.push(to_lower(args[i].as_str()));
            i = i + 1;
        }
        assert(lower_args@.map_values(|a: String| a@) =~= lowered_args(args@));
        proof {
            if all_ascii(command@, args@) {
                assert(lowered_args(args@) =~= args@.map_values(|a: String| ascii_lower(a@)));
            }
        }
        veto_from_lowered(command, lower_cmd.as_str(), args, lower_args.as_slice())
    }
}

// ----- laws -----

/// Every event leaves the level matching the experience, if it matched before.
pub proof fn lemma_step_keeps_level(e: EngineView, event: CreatureEvent, now: Timestamp)
    requires
        e.state.level == level_for(e.state.xp),
    ensures
        step(e, event, now).state.level == level_for(step(e, event, now).state.xp),
{
}

/// No event raises the creature's health.
pub proof fn lemma_step_never_heals(e: EngineView, event: CreatureEvent, now: Timestamp)
    ensures
        step(e, event, now).state.hp <= e.state.hp,
{
}

/// No event takes experience away.
pub proof fn lemma_step_never_loses_xp(e: EngineView, event: CreatureEvent, now: Timestamp)
    ensures
        step(e, event, now).state.xp >= e.state.xp,
{
}

/// The mood clock restarts exactly when an event changes the mood.
pub proof fn lemma_mood_clock(e: EngineView, event: CreatureEvent, now: Timestamp)
    ensures
        step(e, event, now).mood_set_at == if step(e, event, now).state.mood != e.state.mood {
            now
        } else {
            e.mood_set_at
        },
{
}

/// Only a finished command moves the streak, by one (wrapping at `u32::MAX`).
pub proof fn lemma_streak_counts_commands(e: EngineView, event: CreatureEvent, now: Timestamp)
    ensures
        step(e, event, now).state.streak == if event is CommandFinished {
            if e.state.streak == u32::MAX {
                0u32
            } else {
                (e.state.streak + 1) as u32
            }
        } else {
            e.state.streak
        },
{
}

/// Commands (finished or pending) and commits mark the creature active at the event's
/// time; the other events leave the last activity alone.
pub proof fn lemma_activity(e: EngineView, event: CreatureEvent, now: Timestamp)
    ensures
        step(e, event, now).state.last_active == match event {
            CreatureEvent::CommandFinished { .. } => now,
            CreatureEvent::CommandPending { .. } => now,
            CreatureEvent::GitCommit => now,
            _ => e.state.last_active,
        },
{
}

/// `--yolo` among the arguments always lets the command through.
pub proof fn lemma_yolo_allows(command: Seq<char>, args: Seq<String>)
    requires
        has_yolo(args),
    ensures
        veto_verdict(command, args).0,
{
}

/// A command is refused exactly when it is vetoable, carries a recursive or force flag, and
/// has no `--yolo`.
pub proof fn lemma_refusal(command: Seq<char>, args: Seq<String>)
    ensures
        !veto_verdict(command, args).0 <==> (is_vetoable(lower(command)) && !has_yolo(args)
            && has_recursive_flag(args)),
{
}

/// The kind of a lowercased command line, by the patterns it contains: any of `cargo test`,
/// `npm test`, `pytest`, `python -m pytest`, `go test`, `dotnet test`, `jest`, `vitest` or
/// `mocha` makes it a test run; otherwise any of `build`, `install` or `docker` a build;
/// otherwise `git push` a push; anything else is some other command.
pub proof fn lemma_command_patterns(l: Seq<char>)
    ensures
        ({
            let test = has_sub(l, "cargo test"@) || has_sub(l, "npm test"@) || has_sub(l, "pytest"@)
                || has_sub(l, "python -m pytest"@) || has_sub(l, "go test"@) || has_sub(
                l,
                "dotnet test"@,
            ) || has_sub(l, "jest"@) || has_sub(l, "vitest"@) || has_sub(l, "mocha"@);
            let build = has_sub(l, "build"@) || has_sub(l, "install"@) || has_sub(l, "docker"@);
            let push = has_sub(l, "git push"@);
            &&& test ==> kind_of(l) == CommandKind::Test
            &&& !test && build ==> kind_of(l) == CommandKind::Build
            &&& !test && !build && push ==> kind_of(l) == CommandKind::Push
            &&& !test && !build && !push ==> kind_of(l) == CommandKind::Other
        }),
{
}

/// A test run that passes (exit code 0) makes the creature smug and earns it at least 15
/// experience (up to the maximum).
pub proof fn lemma_passing_tests_make_smug(
    e: EngineView,
    command: String,
    cwd: Option<String>,
    now: Timestamp,
)
    requires
        has_sub(lower(command@), "cargo test"@) || has_sub(lower(command@), "npm test"@)
            || has_sub(lower(command@), "pytest"@) || has_sub(lower(command@), "go test"@)
            || has_sub(lower(command@), "dotnet test"@) || has_sub(lower(command@), "jest"@)
            || has_sub(lower(command@), "vitest"@) || has_sub(lower(command@), "mocha"@),
    ensures
        ({
            let after = step(
                e,
                CreatureEvent::CommandFinished { exit_code: 0, command: Some(command), cwd },
                now,
            );
            &&& after.state.mood == Mood::Smug
            &&& after.state.xp >= if e.state.xp + 15 > u32::MAX {
                u32::MAX as int
            } else {
                e.state.xp + 15
            }
        }),
{
}

/// A pipeline of two stages, the first starting with a downloader (`curl`, `wget`, `irm`,
/// `invoke-restmethod`, `invoke-webrequest` or `iwr`) and the second with a program that runs
/// what it reads (`bash`, `sh`, `iex` or `invoke-expression`), pipes a download into a shell.
pub proof fn lemma_download_into_shell(a: Seq<char>, b: Seq<char>)
    requires
        !a.contains('|'),
        !b.contains('|'),
        first_word(a) == "curl"@ || first_word(a) == "wget"@ || first_word(a) == "irm"@
            || first_word(a) == "invoke-restmethod"@ || first_word(a) == "invoke-webrequest"@
            || first_word(a) == "iwr"@,
        first_word(b) == "bash"@ || first_word(b) == "sh"@ || first_word(b) == "iex"@
            || first_word(b) == "invoke-expression"@,
    ensures
        pipes_to_shell(a + seq!['|'] + b),
{
    lemma_split_without_sep(a, '|');
    lemma_split_then_piece(a, '|', b);
    let parts = split_on(a + seq!['|'] + b, '|');
    assert(parts =~= seq![a, b]);
    assert(is_pipe_source(first_word(parts[0])) && is_pipe_sink(first_word(parts[0int + 1])));
}

/// A command whose lowercased text is `rm`, `rd`, `del`, `format`, `diskpart` or
/// `remove-item`, without an argument `--yolo`, is refused exactly when one of its
/// lowercased arguments is `-r`, `-rf`, `-fr`, `--recursive` or `/s`, or contains `-recurse`
/// or `-force`; any other arguments let it through as a non-recursive command.
pub proof fn lemma_recursive_flags_decide(
    command: Seq<char>,
    lower_command: Seq<char>,
    args: Seq<String>,
    lower_args: Seq<Seq<char>>,
)
    requires
        lower_command == "rm"@ || lower_command == "rd"@ || lower_command == "del"@
            || lower_command == "format"@ || lower_command == "diskpart"@ || lower_command
            == "remove-item"@,
        forall|i: int| 0 <= i < args.len() ==> #[trigger] args[i]@ != "--yolo"@,
    ensures
        ({
            let flagged = exists|i: int|
                0 <= i < lower_args.len() && (#[trigger] lower_args[i] == "-r"@ || lower_args[i]
                    == "-rf"@ || lower_args[i] == "-fr"@ || lower_args[i] == "--recursive"@
                    || lower_args[i] == "/s"@ || has_sub(lower_args[i], "-recurse"@) || has_sub(
                    lower_args[i],
                    "-force"@,
                ));
            let verdict = veto_verdict_lowered(command, lower_command, args, lower_args);
            &&& !verdict.0 <==> flagged
            &&& !flagged ==> verdict == (true, "non-recursive command allowed"@)
        }),
{
    let flagged = exists|i: int|
        0 <= i < lower_args.len() && (#[trigger] lower_args[i] == "-r"@ || lower_args[i] == "-rf"@
            || lower_args[i] == "-fr"@ || lower_args[i] == "--recursive"@ || lower_args[i] == "/s"@
            || has_sub(lower_args[i], "-recurse"@) || has_sub(lower_args[i], "-force"@));
    if any_recursive_flag(lower_args) {
        let i = choose|i: int|
            0 <= i < lower_args.len() && #[trigger] is_recursive_flag(lower_args[i]);
        assert(is_recursive_flag(lower_args[i]));
        assert(flagged);
    }
    if flagged {
        let i = choose|i: int|
            0 <= i < lower_args.len() && (#[trigger] lower_args[i] == "-r"@ || lower_args[i]
                == "-rf"@ || lower_args[i] == "-fr"@ || lower_args[i] == "--recursive"@
                || lower_args[i] == "/s"@ || has_sub(lower_args[i], "-recurse"@) || has_sub(
                lower_args[i],
                "-force"@,
            ));
        assert(is_recursive_flag(lower_args[i]));
        assert(any_recursive_flag(lower_args));
    }
}

/// Any command whose lowercased text is not `rm`, `rd`, `del`, `format`, `diskpart` or
/// `remove-item` runs, whatever its arguments; `--yolo` among the arguments lets every
/// command run.
pub proof fn lemma_veto_list(
    command: Seq<char>,
    lower_command: Seq<char>,
    args: Seq<String>,
    lower_args: Seq<Seq<char>>,
)
    ensures
        !(lower_command == "rm"@ || lower_command == "rd"@ || lower_command == "del"@
            || lower_command == "format"@ || lower_command == "diskpart"@ || lower_command
            == "remove-item"@) ==> veto_verdict_lowered(command, lower_command, args, lower_args)
            == (true, "command not in veto list"@),
        (exists|i: int| 0 <= i < args.len() && #[trigger] args[i]@ == "--yolo"@)
            ==> veto_verdict_lowered(command, lower_command, args, lower_args).0,
{
}

/// How a finished command moves the creature, by its kind and exit code: a passing test run
/// makes it smug for 15 experience and a failing one sad for 5 health; a passing build makes
/// it happy for 10 experience and a failing one sad for 5 health; a successful push makes it
/// smug for 20 experience and a failed one nervous; a command not found (exit code 127 or
/// 9009) makes it nervous for 1 health; any other success earns 1 experience and wakes an
/// idle or sleeping creature to happy, any other failure makes it sad for 2 health. Every
/// tenth command of the streak earns 5 experience more; experience stops at `u32::MAX` and
/// health at zero.
#[verifier::rlimit(30)]
pub proof fn lemma_finished_reactions(
    e: EngineView,
    exit_code: i32,
    command: Option<String>,
    cwd: Option<String>,
    now: Timestamp,
)
    ensures
        ({
            let after = step(e, CreatureEvent::CommandFinished { exit_code, command, cwd }, now);
            let kind = kind_of_command(command);
            let ok = exit_code == 0;
            let not_found = exit_code == 127 || exit_code == 9009;
            let streak: int = if e.state.streak == u32::MAX {
                0
            } else {
                e.state.streak + 1
            };
            let bonus: int = if streak > 0 && streak % 10 == 0 {
                5
            } else {
                0
            };
            let gain: int = match kind {
                CommandKind::Test => if ok { 15 } else { 0 },
                CommandKind::Build => if ok { 10 } else { 0 },
                CommandKind::Push => if ok { 20 } else { 0 },
                CommandKind::Other => if ok && !not_found { 1 } else { 0 },
            };
            let loss: int = match kind {
                CommandKind::Test => if ok { 0 } else { 5 },
                CommandKind::Build => if ok { 0 } else { 5 },
                CommandKind::Push => 0,
                CommandKind::Other => if not_found { 1 } else if ok { 0 } else { 2 },
            };
            let mood = match kind {
                CommandKind::Test => if ok { Mood::Smug } else { Mood::Sad },
                CommandKind::Build => if ok { Mood::Happy } else { Mood::Sad },
                CommandKind::Push => if ok { Mood::Smug } else { Mood::Nervous },
                CommandKind::Other => if not_found {
                    Mood::Nervous
                } else if ok {
                    if e.state.mood == Mood::Idle || e.state.mood == Mood::Sleeping {
                        Mood::Happy
                    } else {
                        e.state.mood
                    }
                } else {
                    Mood::Sad
                },
            };
            &&& after.state.mood == mood
            &&& after.state.streak == streak
            &&& after.state.last_active == now
            &&& after.state.xp == if e.state.xp + gain + bonus > u32::MAX {
                u32::MAX as int
            } else {
                e.state.xp + gain + bonus
            }
            &&& after.state.hp == if e.state.hp >= loss {
                e.state.hp - loss
            } else {
                0
            }
        }),
{
}

/// A command about to run marks the creature active; piping a download into a shell makes
/// it furious; otherwise a command line holding, lowercased, `rm -rf`, `rm -r`, `rd /s`,
/// `del /s`, `remove-item -recurse -force`, `format` or `diskpart` makes it nervous; any
/// other command leaves the mood alone. Experience and health do not change.
pub proof fn lemma_pending_reactions(e: EngineView, command: String, now: Timestamp)
    ensures
        ({
            let after = step(e, CreatureEvent::CommandPending { command }, now);
            let l = lower(command@);
            let dangerous = has_sub(l, "rm -rf"@) || has_sub(l, "rm -r"@) || has_sub(l, "rd /s"@)
                || has_sub(l, "del /s"@) || has_sub(l, "remove-item -recurse -force"@) || has_sub(
                l,
                "format"@,
            ) || has_sub(l, "diskpart"@);
            &&& after.state.last_active == now
            &&& after.state.xp == e.state.xp
            &&& after.state.hp == e.state.hp
            &&& after.state.mood == if pipes_to_shell(l) {
                Mood::Furious
            } else if dangerous {
                Mood::Nervous
            } else {
                e.state.mood
            }
        }),
{
}

/// A commit makes the creature happy for 10 experience and marks it active; unstaged
/// changes make an idle or sleeping creature nervous and leave any other mood; inactivity
/// puts it to sleep for 1 health; on the periodic tick a mood other than idle or sleeping
/// set more than 30 seconds ago wears off to idle, and more than 1800 seconds without
/// activity puts a creature that is not asleep to sleep for 1 health.
pub proof fn lemma_other_reactions(e: EngineView, now: Timestamp)
    ensures
        ({
            let after = step(e, CreatureEvent::GitCommit, now);
            &&& after.state.mood == Mood::Happy
            &&& after.state.last_active == now
            &&& after.state.xp == if e.state.xp + 10 > u32::MAX {
                u32::MAX as int
            } else {
                e.state.xp + 10
            }
            &&& after.state.hp == e.state.hp
        }),
        ({
            let after = step(e, CreatureEvent::UnstagedChanges, now);
            &&& after.state.mood == if e.state.mood == Mood::Idle || e.state.mood
                == Mood::Sleeping {
                Mood::Nervous
            } else {
                e.state.mood
            }
            &&& after.state.xp == e.state.xp && after.state.hp == e.state.hp
        }),
        ({
            let after = step(e, CreatureEvent::Inactivity, now);
            &&& after.state.mood == Mood::Sleeping
            &&& after.state.hp == if e.state.hp >= 1 {
                e.state.hp - 1
            } else {
                0
            }
            &&& after.state.xp == e.state.xp
        }),
        ({
            let after = step(e, CreatureEvent::MoodDecayTick, now);
            let decayed = if e.state.mood != Mood::Idle && e.state.mood != Mood::Sleeping
                && whole_seconds_between(now, e.mood_set_at) > 30 {
                Mood::Idle
            } else {
                e.state.mood
            };
            let asleep = whole_seconds_between(now, e.state.last_active) > 1800 && decayed
                != Mood::Sleeping;
            &&& after.state.mood == if asleep {
                Mood::Sleeping
            } else {
                decayed
            }
            &&& after.state.hp == if asleep && e.state.hp >= 1 {
                e.state.hp - 1
            } else if asleep {
                0
            } else {
                e.state.hp as int
            }
            &&& after.state.xp == e.state.xp
        }),
{
}

} // verus!
