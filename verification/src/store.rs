//! What the state database holds, in plain values: the creature's row, the command log, and
//! the weekly roast that is written from the log.
use vstd::prelude::*;

use crate::clock::{format_rfc3339, four_digit_year, now, parse_rfc3339, rfc3339_instant, rfc3339_text, Timestamp};
use crate::model::{lemma_mood_name_round_trip, mood_from_name, mood_name, CreatureState, Mood};
use crate::text::{char_vec, contains_chars, decimal, has_sub, lower, push_decimal, to_lower};

verus! {

/// The creature's row in the database: the mood by name, the counters, and the last
/// activity as RFC 3339 text.
#[derive(Clone, Debug)]
pub struct CreatureRow {
    pub mood: String,
    pub xp: u32,
    pub hp: u32,
    pub level: u32,
    pub streak: u32,
    pub last_active: String,
}

/// One entry of the command log, as read back.
#[derive(Clone, Debug)]
pub struct CommandLogEntry {
    pub timestamp: String,
    pub command: Option<String>,
    pub exit_code: Option<i32>,
    pub cwd: Option<String>,
    pub shell: Option<String>,
}

/// `row` is what saving `s` writes.
pub open spec fn row_of(s: CreatureState, row: CreatureRow) -> bool {
    &&& row.mood@ == mood_name(s.mood)
    &&& row.xp == s.xp
    &&& row.hp == s.hp
    &&& row.level == s.level
    &&& row.streak == s.streak
    &&& rfc3339_text(s.last_active.secs, s.last_active.nanos) == Some(row.last_active@)
}

/// The creature that loading `row` gives, where `now` stands in for a last activity
/// that does not read as RFC 3339.
pub open spec fn state_of_row(row: CreatureRow, now: Timestamp) -> CreatureState {
    CreatureState {
        mood: mood_from_name(row.mood@),
        xp: row.xp,
        hp: row.hp,
        level: row.level,
        streak: row.streak,
        last_active: match rfc3339_instant(row.last_active@) {
            Some(t) => t,
            None => now,
        },
    }
}

/// The row that saving `state` writes, or `None` when its last activity is not a point in
/// time that chrono can write. For a last activity in the years 0000 to 9999, loading the
/// row gives `state` back, whatever time stands in for an unreadable date; there, with fewer
/// than 10^9 nanoseconds, the row is always written.
pub fn creature_to_row(state: &CreatureState) -> (r: Option<CreatureRow>)
    ensures
        r matches Some(row) ==> row_of(*state, row),
        r matches Some(row) ==> row.xp == state.xp && row.hp == state.hp && row.level
            == state.level && row.streak == state.streak && row.mood@ == mood_name(state.mood),
        r is None <==> rfc3339_text(state.last_active.secs, state.last_active.nanos) is None,
        four_digit_year(state.last_active) && state.last_active.nanos < 1_000_000_000 ==> r is Some,
        four_digit_year(state.last_active) ==> (r matches Some(row) ==> forall|now: Timestamp|
            #[trigger] state_of_row(row, now) == *state),
{
    proof {
        lemma_mood_name_round_trip(state.mood);
    }
    match format_rfc3339(state.last_active) {
        Some(text) => Some(
            CreatureRow {
                mood: String::from_str(state.mood.name()),
                xp: state.xp,
                hp: state.hp,
                level: state.level,
                streak: state.streak,
                last_active: text,
            },
        ),
        None => None,
    }
}

/// The creature stored in `row`; an unknown mood reads as `Idle` and a last activity that is
/// not RFC 3339 text reads as `now`.
pub fn creature_from_row_at(row: &CreatureRow, now: Timestamp) -> (s: CreatureState)
    ensures
        s == state_of_row(*row, now),
        s.xp == row.xp && s.hp == row.hp && s.level == row.level && s.streak == row.streak,
        s.mood == mood_from_name(row.mood@),
{
    let last_active = match parse_rfc3339(row.last_active.as_str()) {
        Some(t) => t,
        None => now,
    };
    CreatureState {
        mood: Mood::from_name(row.mood.as_str()),
        xp: row.xp,
        hp: row.hp,
        level: row.level,
        streak: row.streak,
        last_active,
    }
}

/// The creature stored in `row`, with the present time standing in for an unreadable last
/// activity.
pub fn creature_from_row(row: &CreatureRow) -> (s: CreatureState)
    ensures
        exists|t: Timestamp| s == state_of_row(*row, t),
        s.xp == row.xp && s.hp == row.hp && s.level == row.level && s.streak == row.streak,
        s.mood == mood_from_name(row.mood@),
{
    creature_from_row_at(row, now())
}

/// Each column of a row holds the field of the same name: loading copies the experience,
/// health, level and streak columns into those fields, and a saved row holds the state's
/// experience, health, level and streak in those columns.
pub proof fn lemma_columns_match_fields(s: CreatureState, row: CreatureRow, now: Timestamp)
    ensures
        state_of_row(row, now).xp == row.xp,
        state_of_row(row, now).hp == row.hp,
        state_of_row(row, now).level == row.level,
        state_of_row(row, now).streak == row.streak,
        row_of(s, row) ==> row.xp == s.xp && row.hp == s.hp && row.level == s.level
            && row.streak == s.streak,
{
}

/// Loading what was saved gives back the mood and the counters, and the last activity as
/// chrono reads the text it wrote.
pub proof fn lemma_row_round_trip(s: CreatureState, row: CreatureRow, now: Timestamp)
    requires
        row_of(s, row),
    ensures
        state_of_row(row, now).mood == s.mood,
        state_of_row(row, now).xp == s.xp,
        state_of_row(row, now).hp == s.hp,
        state_of_row(row, now).level == s.level,
        state_of_row(row, now).streak == s.streak,
        state_of_row(row, now).last_active == match rfc3339_instant(row.last_active@) {
            Some(t) => t,
            None => now,
        },
{
    lemma_mood_name_round_trip(s.mood);
}

// ----- the weekly roast -----

/// A command from the log, as the roast sees it.
#[derive(Clone, Debug)]
pub struct LoggedCommand {
    pub command: Option<String>,
    pub exit_code: Option<i32>,
}

/// The number of entries of `rows` that satisfy `f`.
pub open spec fn count_where(rows: Seq<LoggedCommand>, f: spec_fn(LoggedCommand) -> bool) -> nat
    decreases rows.len(),
{
    if rows.len() == 0 {
        0
    } else {
        count_where(rows.drop_last(), f) + if f(rows.last()) {
            1nat
        } else {
            0nat
        }
    }
}

/// The command failed (a known, nonzero exit code).
pub open spec fn failed(r: LoggedCommand) -> bool {
    r.exit_code matches Some(c) && c != 0
}

/// The command was not found (exit code 127, or 9009 on Windows).
pub open spec fn not_found(r: LoggedCommand) -> bool {
    r.exit_code matches Some(c) && (c == 127 || c == 9009)
}

/// The lowercased command line deletes recursively.
pub open spec fn text_deletes_recursively(l: Seq<char>) -> bool {
    has_sub(l, "rm -rf"@) || has_sub(l, "rd /s"@) || has_sub(l, "remove-item -recurse -force"@)
}

/// The lowercased command line mentions a downloader and a shell.
pub open spec fn text_pipes_download(l: Seq<char>) -> bool {
    (has_sub(l, "curl"@) || has_sub(l, "irm"@)) && (has_sub(l, "bash"@) || has_sub(l, "iex"@))
}

/// The lowercased command line makes a commit.
pub open spec fn text_commits(l: Seq<char>) -> bool {
    has_sub(l, "git commit"@)
}

/// What the roast remarks on in one lowercased command line.
#[derive(Clone, Copy, Debug, PartialEq, Eq, Structural)]
pub struct CommandMarks {
    pub deletes_recursively: bool,
    pub pipes_download: bool,
    pub commits: bool,
}

/// The marks of the lowercased command line `l`.
pub open spec fn marks_of(l: Seq<char>) -> CommandMarks {
    CommandMarks {
        deletes_recursively: text_deletes_recursively(l),
        pipes_download: text_pipes_download(l),
        commits: text_commits(l),
    }
}

/// The command, lowercased, deleted recursively.
pub open spec fn deletes_recursively(r: LoggedCommand) -> bool {
    r.command matches Some(c) && text_deletes_recursively(lower(c@))
}

/// The command, lowercased, mentions a downloader and a shell.
pub open spec fn pipes_download(r: LoggedCommand) -> bool {
    r.command matches Some(c) && text_pipes_download(lower(c@))
}

/// The command, lowercased, made a commit.
pub open spec fn commits(r: LoggedCommand) -> bool {
    r.command matches Some(c) && text_commits(lower(c@))
}

/// What the roast remarks on in a lowercased command line.
pub fn command_marks(lower_cmd: &str) -> (m: CommandMarks)
    ensures
        m == marks_of(lower_cmd@),
{
    let l = char_vec(lower_cmd);
    let deletes = contains_chars(&l, &char_vec("rm -rf")) || contains_chars(&l, &char_vec("rd /s"))
        || contains_chars(&l, &char_vec("remove-item -recurse -force"));
    let pipes = (contains_chars(&l, &char_vec("curl")) || contains_chars(&l, &char_vec("irm")))
        && (contains_chars(&l, &char_vec("bash")) || contains_chars(&l, &char_vec("iex")));
    let commits = contains_chars(&l, &char_vec("git commit"));
    CommandMarks { deletes_recursively: deletes, pipes_download: pipes, commits }
}

/// The counts that the roast is written from.
#[derive(Clone, Copy, Debug)]
pub struct RoastTally {
    pub total: u64,
    pub fails: u64,
    pub typos: u64,
    pub recursive_deletes: u64,
    pub piped_downloads: u64,
    pub commits: u64,
}

/// `t` counts the commands of `rows`.
pub open spec fn tally_of(rows: Seq<LoggedCommand>, t: RoastTally) -> bool {
    &&& t.total == rows.len()
    &&& t.fails == count_where(rows, |r: LoggedCommand| failed(r))
    &&& t.typos == count_where(rows, |r: LoggedCommand| not_found(r))
    &&& t.recursive_deletes == count_where(rows, |r: LoggedCommand| deletes_recursively(r))
    &&& t.piped_downloads == count_where(rows, |r: LoggedCommand| pipes_download(r))
    &&& t.commits == count_where(rows, |r: LoggedCommand| commits(r))
}

proof fn lemma_count_bound(rows: Seq<LoggedCommand>, f: spec_fn(LoggedCommand) -> bool)
    ensures
        count_where(rows, f) <= rows.len(),
    decreases rows.len(),
{
    if rows.len() > 0 {
        lemma_count_bound(rows.drop_last(), f);
    }
}

/// Counts the commands of the log that the roast remarks on.
pub fn tally_commands(rows: &[LoggedCommand]) -> (t: RoastTally)
    ensures
        tally_of(rows@, t),
{
    let mut t = RoastTally {
        total: 0,
        fails: 0,
        typos: 0,
        recursive_deletes: 0,
        piped_downloads: 0,
        commits: 0,
    };
    let mut i: usize = 0;
    assert(rows@.take(0) =~= Seq::<LoggedCommand>::empty());
    while i < rows.len()
        invariant
            i <= rows@.len(),
            tally_of(rows@.take(i as int), t),
        decreases rows.len() - i,
    {
        let ghost prefix = rows@.take(i as int);
        let ghost next = rows@.take(i + 1);
        assert(next.drop_last() =~= prefix);
        proof {
            lemma_count_bound(prefix, |r: LoggedCommand| failed(r));
            lemma_count_bound(prefix, |r: LoggedCommand| not_found(r));
            lemma_count_bound(prefix, |r: LoggedCommand| deletes_recursively(r));
            lemma_count_bound(prefix, |r: LoggedCommand| pipes_download(r));
            lemma_count_bound(prefix, |r: LoggedCommand| commits(r));
        }
        let row = &rows[i];
        t.total = t.total + 1;
        if let Some(code) = row.exit_code {
            if code != 0 {
                t.fails = t.fails + 1;
                if code == 127 || code == 9009 {
                    t.typos = t.typos + 1;
                }
            }
        }
        if let Some(c) = &row.command {
            let lowered = to_lower(c.as_str());
            let marks = command_marks(lowered.as_str());
            if marks.deletes_recursively {
                t.recursive_deletes = t.recursive_deletes + 1;
            }
            if marks.pipes_download {
                t.piped_downloads = t.piped_downloads + 1;
            }
            if marks.commits {
                t.commits = t.commits + 1;
            }
        }
        i = i + 1;
    }
    assert(rows@.take(rows@.len() as int) =~= rows@);
    t
}

/// The roast for a week without any command.
pub open spec fn idle_roast() -> Seq<char> {
    "You literally haven't done anything. Do you even code?"@
}

/// The remark on many typos.
pub open spec fn typo_remark(t: RoastTally) -> Seq<char> {
    if t.typos > 5 {
        "You had "@ + decimal(t.typos as nat)
            + " typos (command not found). Slow down and use tab completion.\n"@
    } else {
        Seq::empty()
    }
}

/// The remark on recursive deletes.
pub open spec fn delete_remark(t: RoastTally) -> Seq<char> {
    if t.recursive_deletes > 0 {
        "You tried to recursively delete things "@ + decimal(t.recursive_deletes as nat)
            + " times. Living dangerously.\n"@
    } else {
        Seq::empty()
    }
}

/// The remark on piping downloads into a shell.
pub open spec fn pipe_remark(t: RoastTally) -> Seq<char> {
    if t.piped_downloads > 0 {
        "You piped an internet URL straight into bash/iex. I am calling the police.\n"@
    } else {
        Seq::empty()
    }
}

/// The remark on too few or too many commits.
pub open spec fn commit_remark(t: RoastTally) -> Seq<char> {
    if t.commits < 2 && t.total > 50 {
        "Over 50 commands and barely any commits. What exactly are you doing all day?\n"@
    } else if t.commits > 20 {
        "Calm down with the git commits. Squash your history, weirdo.\n"@
    } else {
        Seq::empty()
    }
}

/// The remarks after the failure rate, each on its own line, in this order: many typos,
/// recursive deletes, piping downloads into a shell, and too few or too many commits.
pub open spec fn roast_remarks(t: RoastTally) -> Seq<char> {
    typo_remark(t) + delete_remark(t) + pipe_remark(t) + commit_remark(t)
}

fn push_typo_remark(r: &mut String, t: &RoastTally)
    ensures
        final(r)@ == old(r)@ + typo_remark(*t),
{
    if t.typos > 5 {
        r.append("You had ");
        push_decimal(r, t.typos);
        r.append(" typos (command not found). Slow down and use tab completion.\n");
    }
    assert(r@ =~= old(r)@ + typo_remark(*t));
}

fn push_delete_remark(r: &mut String, t: &RoastTally)
    ensures
        final(r)@ == old(r)@ + delete_remark(*t),
{
    if t.recursive_deletes > 0 {
        r.append("You tried to recursively delete things ");
        push_decimal(r, t.recursive_deletes);
        r.append(" times. Living dangerously.\n");
    }
    assert(r@ =~= old(r)@ + delete_remark(*t));
}

fn push_pipe_remark(r: &mut String, t: &RoastTally)
    ensures
        final(r)@ == old(r)@ + pipe_remark(*t),
{
    if t.piped_downloads > 0 {
        r.append("You piped an internet URL straight into bash/iex. I am calling the police.\n");
    }
    assert(r@ =~= old(r)@ + pipe_remark(*t));
}

fn push_commit_remark(r: &mut String, t: &RoastTally)
    ensures
        final(r)@ == old(r)@ + commit_remark(*t),
{
    if t.commits < 2 && t.total > 50 {
        r.append("Over 50 commands and barely any commits. What exactly are you doing all day?\n");
    } else if t.commits > 20 {
        r.append("Calm down with the git commits. Squash your history, weirdo.\n");
    }
    assert(r@ =~= old(r)@ + commit_remark(*t));
}

/// The weekly roast: for an empty week a fixed line; otherwise a heading with the number of
/// commands, then `rate_line` (the remark on the failure rate), then the other remarks.
pub open spec fn roast(t: RoastTally, rate_line: Seq<char>) -> Seq<char> {
    if t.total == 0 {
        idle_roast()
    } else {
        "\u{1f43e} Tomodachi's Weekly Roast \u{1f43e}\n\nYou ran "@ + decimal(t.total as nat)
            + " commands this week.\n"@ + rate_line + roast_remarks(t)
    }
}

/// Writes the weekly roast from the counts and the line on the failure rate.
pub fn roast_text(t: &RoastTally, rate_line: &str) -> (r: String)
    ensures
        r@ == roast(*t, rate_line@),
{
    if t.total == 0 {
        return String::from_str("You literally haven't done anything. Do you even code?");
    }
    let mut r = String::from_str("\u{1f43e} Tomodachi's Weekly Roast \u{1f43e}\n\nYou ran ");
    push_decimal(&mut r, t.total);
    r.append(" commands this week.\n");
    r.append(rate_line);
    let ghost head = r@;
    push_typo_remark(&mut r, t);
    push_delete_remark(&mut r, t);
    push_pipe_remark(&mut r, t);
    push_commit_remark(&mut r, t);
    assert(r@ =~= head + roast_remarks(*t));
    r
}

/// What the roast counts in a logged command: a failure is a known nonzero exit code, a typo
/// the exit code 127 or 9009; a recursive delete is a command holding, lowercased, `rm -rf`,
/// `rd /s` or `remove-item -recurse -force`; a piped download one holding `curl` or `irm`
/// together with `bash` or `iex`; a commit one holding `git commit`.
pub proof fn lemma_counted_commands(r: LoggedCommand)
    ensures
        failed(r) <==> (r.exit_code is Some && r.exit_code != Some(0i32)),
        not_found(r) <==> (r.exit_code == Some(127i32) || r.exit_code == Some(9009i32)),
        not_found(r) ==> failed(r),
        deletes_recursively(r) <==> (r.command matches Some(c) && (has_sub(lower(c@), "rm -rf"@)
            || has_sub(lower(c@), "rd /s"@) || has_sub(lower(c@), "remove-item -recurse -force"@))),
        pipes_download(r) <==> (r.command matches Some(c) && (has_sub(lower(c@), "curl"@)
            || has_sub(lower(c@), "irm"@)) && (has_sub(lower(c@), "bash"@) || has_sub(
            lower(c@),
            "iex"@,
        ))),
        commits(r) <==> (r.command matches Some(c) && has_sub(lower(c@), "git commit"@)),
{
}

/// The roast adds no remark after the failure rate exactly when there were at most 5 typos,
/// no recursive delete, no piped download, and neither fewer than 2 commits among more than
/// 50 commands nor more than 20 commits; the remark on commits is never both.
pub proof fn lemma_quiet_roast(t: RoastTally)
    ensures
        roast_remarks(t).len() == 0 <==> (t.typos <= 5 && t.recursive_deletes == 0
            && t.piped_downloads == 0 && !(t.commits < 2 && t.total > 50) && t.commits <= 20),
{
    reveal_strlit("You piped an internet URL straight into bash/iex. I am calling the police.\n");
    reveal_strlit(
        "Over 50 commands and barely any commits. What exactly are you doing all day?\n",
    );
    reveal_strlit("Calm down with the git commits. Squash your history, weirdo.\n");
    reveal_strlit("You had ");
    reveal_strlit("You tried to recursively delete things ");
}

} // verus!
