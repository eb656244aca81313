//! The data that the daemon, its clients and its store share: the creature's mood and
//! state, the events that change it, and the messages of the client protocol.
use vstd::prelude::*;

use crate::clock::Timestamp;
use crate::text::str_eq;

verus! {

/// The creature's current mood.
#[derive(Clone, Copy, Debug, PartialEq, Eq, Structural)]
pub enum Mood {
    Idle,
    Happy,
    Smug,
    Sad,
    Nervous,
    Furious,
    Sleeping,
}

/// The name under which a mood is shown and stored.
pub open spec fn mood_name(m: Mood) -> Seq<char> {
    match m {
        Mood::Idle => "Idle"@,
        Mood::Happy => "Happy"@,
        Mood::Smug => "Smug"@,
        Mood::Sad => "Sad"@,
        Mood::Nervous => "Nervous"@,
        Mood::Furious => "Furious"@,
        Mood::Sleeping => "Sleeping"@,
    }
}

/// The mood a stored name stands for; a name that is not one of the others reads as `Idle`.
pub open spec fn mood_from_name(s: Seq<char>) -> Mood {
    if s == "Happy"@ {
        Mood::Happy
    } else if s == "Smug"@ {
        Mood::Smug
    } else if s == "Sad"@ {
        Mood::Sad
    } else if s == "Nervous"@ {
        Mood::Nervous
    } else if s == "Furious"@ {
        Mood::Furious
    } else if s == "Sleeping"@ {
        Mood::Sleeping
    } else {
        Mood::Idle
    }
}

impl Mood {
    /// The mood's name, as it is displayed and stored.
    pub fn name(&self) -> (r: &'static str)
        ensures
            r@ == mood_name(*self),
    {
        match self {
            Mood::Idle => "Idle",
            Mood::Happy => "Happy",
            Mood::Smug => "Smug",
            Mood::Sad => "Sad",
            Mood::Nervous => "Nervous",
            Mood::Furious => "Furious",
            Mood::Sleeping => "Sleeping",
        }
    }

    /// The mood a stored name stands for (`Idle` for any unknown name).
    pub fn from_name(s: &str) -> (m: Mood)
        ensures
            m == mood_from_name(s@),
    {
        if str_eq(s, "Happy") {
            Mood::Happy
        } else if str_eq(s, "Smug") {
            Mood::Smug
        } else if str_eq(s, "Sad") {
            Mood::Sad
        } else if str_eq(s, "Nervous") {
            Mood::Nervous
        } else if str_eq(s, "Furious") {
            Mood::Furious
        } else if str_eq(s, "Sleeping") {
            Mood::Sleeping
        } else {
            Mood::Idle
        }
    }
}

impl Default for Mood {
    fn default() -> (m: Mood)
        ensures
            m == Mood::Idle,
    {
        Mood::Idle
    }
}

/// Reading back the name of a mood gives that mood.
pub proof fn lemma_mood_name_round_trip(m: Mood)
    ensures
        mood_from_name(mood_name(m)) == m,
{
    reveal_strlit("Idle");
    reveal_strlit("Happy");
    reveal_strlit("Smug");
    reveal_strlit("Sad");
    reveal_strlit("Nervous");
    reveal_strlit("Furious");
    reveal_strlit("Sleeping");
    assert("Idle"@ != "Happy"@) by {
        assert("Idle"@[0] != "Happy"@[0]);
    }
    assert("Idle"@ != "Smug"@) by {
        assert("Idle"@[0] != "Smug"@[0]);
    }
    assert("Idle"@ != "Sad"@) by {
        assert("Idle"@[0] != "Sad"@[0]);
    }
    assert("Idle"@ != "Nervous"@) by {
        assert("Idle"@[0] != "Nervous"@[0]);
    }
    assert("Idle"@ != "Furious"@) by {
        assert("Idle"@[0] != "Furious"@[0]);
    }
    assert("Idle"@ != "Sleeping"@) by {
        assert("Idle"@[0] != "Sleeping"@[0]);
    }
    assert("Happy"@ != "Smug"@) by {
        assert("Happy"@[0] != "Smug"@[0]);
    }
    assert("Happy"@ != "Sad"@) by {
        assert("Happy"@[0] != "Sad"@[0]);
    }
    assert("Happy"@ != "Nervous"@) by {
        assert("Happy"@[0] != "Nervous"@[0]);
    }
    assert("Happy"@ != "Furious"@) by {
        assert("Happy"@[0] != "Furious"@[0]);
    }
    assert("Happy"@ != "Sleeping"@) by {
        assert("Happy"@[0] != "Sleeping"@[0]);
    }
    assert("Smug"@ != "Sad"@) by {
        assert("Smug"@[1] != "Sad"@[1]);
    }
    assert("Smug"@ != "Nervous"@) by {
        assert("Smug"@[0] != "Nervous"@[0]);
    }
    assert("Smug"@ != "Furious"@) by {
        assert("Smug"@[0] != "Furious"@[0]);
    }
    assert("Smug"@ != "Sleeping"@) by {
        assert("Smug"@[1] != "Sleeping"@[1]);
    }
    assert("Sad"@ != "Nervous"@) by {
        assert("Sad"@[0] != "Nervous"@[0]);
    }
    assert("Sad"@ != "Furious"@) by {
        assert("Sad"@[0] != "Furious"@[0]);
    }
    assert("Sad"@ != "Sleeping"@) by {
        assert("Sad"@[1] != "Sleeping"@[1]);
    }
    assert("Nervous"@ != "Furious"@) by {
        assert("Nervous"@[0] != "Furious"@[0]);
    }
    assert("Nervous"@ != "Sleeping"@) by {
        assert("Nervous"@[0] != "Sleeping"@[0]);
    }
    assert("Furious"@ != "Sleeping"@) by {
        assert("Furious"@[0] != "Sleeping"@[0]);
    }
}

/// Everything that is known and kept about the creature.
#[derive(Clone, Copy, Debug)]
pub struct CreatureState {
    pub mood: Mood,
    pub xp: u32,
    pub hp: u32,
    pub level: u32,
    pub streak: u32,
    pub last_active: Timestamp,
}

/// The level that an amount of experience earns: one level per full hundred points,
/// starting at level 1.
pub open spec fn level_for(xp: u32) -> u32 {
    (1 + xp / 100) as u32
}

impl CreatureState {
    /// A fresh creature, last active at `now`.
    pub fn fresh(now: Timestamp) -> (s: CreatureState)
        ensures
            s.mood == Mood::Idle,
            s.xp == 0,
            s.hp == 100,
            s.level == 1,
            s.streak == 0,
            s.last_active == now,
    {
        CreatureState { mood: Mood::Idle, xp: 0, hp: 100, level: 1, streak: 0, last_active: now }
    }

    /// Sets the level to the one that the current experience earns.
    pub fn recalculate_level(&mut self)
        ensures
            final(self).level == level_for(old(self).xp),
            final(self).mood == old(self).mood,
            final(self).xp == old(self).xp,
            final(self).hp == old(self).hp,
            final(self).streak == old(self).streak,
            final(self).last_active == old(self).last_active,
    {
        self.level = 1 + (self.xp / 100);
    }
}

impl Default for CreatureState {
    /// A fresh creature, last active now.
    fn default() -> (s: CreatureState)
        ensures
            s.mood == Mood::Idle,
            s.xp == 0,
            s.hp == 100,
            s.level == 1,
            s.streak == 0,
    {
        CreatureState::fresh(crate::clock::now())
    }
}

/// Something that happened and that the creature reacts to.
#[derive(Clone, Debug)]
pub enum CreatureEvent {
    /// A shell command finished with this exit code.
    CommandFinished { exit_code: i32, command: Option<String>, cwd: Option<String> },
    /// A shell command is about to run.
    CommandPending { command: String },
    /// A commit was made in a watched repository.
    GitCommit,
    /// The index of a watched repository changed.
    UnstagedChanges,
    /// Nothing has happened for a long time.
    Inactivity,
    /// The periodic tick on which moods wear off.
    MoodDecayTick,
}

/// A request from a shell client to the daemon.
#[derive(Clone, Debug)]
pub enum ClientMessage {
    /// Report of a command: about to run (`pending_cmd`) and/or finished (`exit_code`).
    Notify {
        exit_code: Option<i32>,
        cwd: Option<String>,
        pending_cmd: Option<String>,
        shell: Option<String>,
    },
    /// Ask whether `command` with `args` may run.
    Veto { command: String, args: Vec<String> },
    Status,
    Ping,
    Roast,
}

/// The daemon's answer to a client request.
#[derive(Clone, Debug)]
pub enum DaemonResponse {
    /// The request was taken (sent over the wire as `Ok`).
    Ack,
    VetoResult { allowed: bool, reason: String },
    State { creature: CreatureState },
    Error { message: String },
    RoastText { text: String },
}

/// Level 1 covers experience 0 to 99, level 2 covers 100 to 199, and so on: each level
/// spans exactly one hundred points.
pub proof fn lemma_level_spans_hundred(xp: u32)
    ensures
        100 * (level_for(xp) - 1) <= xp < 100 * level_for(xp),
        level_for(xp) >= 1,
{
}

/// The moods are stored under their English names, `Idle`, `Happy`, `Smug`, `Sad`,
/// `Nervous`, `Furious` and `Sleeping`, and those names read back as the moods.
pub proof fn lemma_mood_names()
    ensures
        mood_name(Mood::Idle) == "Idle"@ && mood_from_name("Idle"@) == Mood::Idle,
        mood_name(Mood::Happy) == "Happy"@ && mood_from_name("Happy"@) == Mood::Happy,
        mood_name(Mood::Smug) == "Smug"@ && mood_from_name("Smug"@) == Mood::Smug,
        mood_name(Mood::Sad) == "Sad"@ && mood_from_name("Sad"@) == Mood::Sad,
        mood_name(Mood::Nervous) == "Nervous"@ && mood_from_name("Nervous"@) == Mood::Nervous,
        mood_name(Mood::Furious) == "Furious"@ && mood_from_name("Furious"@) == Mood::Furious,
        mood_name(Mood::Sleeping) == "Sleeping"@ && mood_from_name("Sleeping"@)
            == Mood::Sleeping,
{
    lemma_mood_name_round_trip(Mood::Idle);
    lemma_mood_name_round_trip(Mood::Happy);
    lemma_mood_name_round_trip(Mood::Smug);
    lemma_mood_name_round_trip(Mood::Sad);
    lemma_mood_name_round_trip(Mood::Nervous);
    lemma_mood_name_round_trip(Mood::Furious);
    lemma_mood_name_round_trip(Mood::Sleeping);
}

} // verus!
