//! What the repository watcher decides: which file changes are commits or index changes,
//! which directories to search for repositories, and the set of repositories known.
use vstd::prelude::*;

use crate::model::CreatureEvent;
use crate::text::{char_vec, has_sub, str_eq, contains_str};

verus! {

/// The kinds of file-system change that matter here.
#[derive(Clone, Copy, Debug, PartialEq, Eq, Structural)]
pub enum FsChangeKind {
    Create,
    Modify,
    Other,
}

/// `t` ends `s` (what `str::ends_with` decides).
pub open spec fn ends_with(s: Seq<char>, t: Seq<char>) -> bool {
    t.len() <= s.len() && s.skip(s.len() - t.len()) == t
}

/// The path is a repository's reference log of `HEAD`, which a commit appends to.
pub open spec fn is_head_log(path: Seq<char>) -> bool {
    has_sub(path, ".git"@) && (ends_with(path, "logs/HEAD"@) || ends_with(path, "logs\\HEAD"@))
}

/// The path is a repository's index or its lock.
pub open spec fn is_index(path: Seq<char>) -> bool {
    has_sub(path, ".git"@) && (ends_with(path, "index"@) || ends_with(path, "index.lock"@))
}

/// The events for a change of kind `kind` to `path`: a created or modified `HEAD` log is a
/// commit, a modified index is an unstaged change.
pub open spec fn fs_events(path: Seq<char>, kind: FsChangeKind) -> Seq<CreatureEvent> {
    (if is_head_log(path) && (kind == FsChangeKind::Modify || kind == FsChangeKind::Create) {
        seq![CreatureEvent::GitCommit]
    } else {
        Seq::empty()
    }) + (if is_index(path) && kind == FsChangeKind::Modify {
        seq![CreatureEvent::UnstagedChanges]
    } else {
        Seq::empty()
    })
}

/// Whether `s` ends with `t`.
pub fn str_ends_with(s: &str, t: &str) -> (r: bool)
    ensures
        r == ends_with(s@, t@),
{
    let a = char_vec(s);
    let b = char_vec(t);
    if b.len() > a.len() {
        return false;
    }
    let off = a.len() - b.len();
    let mut i: usize = 0;
    while i < b.len()
        invariant
            a@ == s@,
            b@ == t@,
            off + b@.len() == a@.len(),
            a@.len() <= usize::MAX,
            i <= b@.len(),
            forall|k: int| 0 <= k < i ==> a@[off + k] == b@[k],
        decreases b.len() - i,
    {
        if a[off + i] != b[i] {
            assert(a@.skip(off as int)[i as int] != b@[i as int]);
            return false;
        }
        i = i + 1;
    }
    assert(a@.skip(off as int) =~= b@);
    true
}

/// The events that a change of kind `kind` to the file at `path` stands for.
pub fn fs_change_events(path: &str, kind: FsChangeKind) -> (events: Vec<CreatureEvent>)
    ensures
        events@ == fs_events(path@, kind),
{
    let mut events: Vec<CreatureEvent> = Vec::new();
    let in_git = contains_str(path, ".git");
    if in_git && (str_ends_with(path, "logs/HEAD") || str_ends_with(path, "logs\\HEAD")) {
        if kind == FsChangeKind::Modify || kind == FsChangeKind::Create {
            events.push(CreatureEvent::GitCommit);
        }
    }
    let ghost first = events@;
    if in_git && (str_ends_with(path, "index") || str_ends_with(path, "index.lock")) {
        if kind == FsChangeKind::Modify {
            events.push(CreatureEvent::UnstagedChanges);
        }
    }
    assert(events@ =~= fs_events(path@, kind));
    events
}

/// A directory to search for repositories: not hidden and not a dependency or build
/// output directory.
pub open spec fn worth_searching(name: Seq<char>) -> bool {
    &&& !(name.len() > 0 && name[0] == '.')
    &&& name != "node_modules"@
    &&& name != "target"@
    &&& name != "__pycache__"@
    &&& name != ".git"@
}

/// Whether the directory called `name` is searched for repositories.
pub fn should_descend(name: &str) -> (r: bool)
    ensures
        r == worth_searching(name@),
{
    let chars = char_vec(name);
    let hidden = chars.len() > 0 && chars[0] == '.';
    !hidden && !str_eq(name, "node_modules") && !str_eq(name, "target") && !str_eq(
        name,
        "__pycache__",
    ) && !str_eq(name, ".git")
}

/// What the repository search does at one directory.
#[derive(Clone, Copy, Debug, PartialEq, Eq, Structural)]
pub enum WalkAction {
    /// Deeper than the search goes: stop here.
    TooDeep,
    /// A repository with a reference log: watch the log, and search no deeper.
    WatchLogs,
    /// A repository without a reference log: search no deeper.
    SkipRepository,
    /// Not a repository: search the subdirectories, one level deeper.
    SearchChildren,
}

/// The search's step at a directory `depth` levels below where it began: past `max_depth`
/// it stops; in a repository (a `.git` directory) it watches the reference log if there is
/// one and goes no deeper; anywhere else it searches the subdirectories.
pub fn walk_step(depth: usize, max_depth: usize, is_repository: bool, has_logs: bool) -> (a:
    WalkAction)
    ensures
        a == if depth > max_depth {
            WalkAction::TooDeep
        } else if is_repository {
            if has_logs {
                WalkAction::WatchLogs
            } else {
                WalkAction::SkipRepository
            }
        } else {
            WalkAction::SearchChildren
        },
{
    if depth > max_depth {
        return WalkAction::TooDeep;
    }
    if is_repository {
        if has_logs {
            WalkAction::WatchLogs
        } else {
            WalkAction::SkipRepository
        }
    } else {
        WalkAction::SearchChildren
    }
}

/// The repositories discovered so far, each once.
pub struct RepoRegistry {
    repos: Vec<String>,
}

impl View for RepoRegistry {
    type V = Set<Seq<char>>;

    closed spec fn view(&self) -> Set<Seq<char>> {
        Set::new(|p: Seq<char>| exists|i: int| 0 <= i < self.repos@.len() && #[trigger] self.repos@[i]@ == p)
    }
}

impl RepoRegistry {
    /// Each repository is held once.
    #[verifier::type_invariant]
    spec fn each_once(self) -> bool {
        forall|i: int, j: int|
            0 <= i < j < self.repos@.len() ==> #[trigger] self.repos@[i]@ != #[trigger] self.repos@[j]@
    }

    /// No repository yet.
    pub fn new() -> (r: RepoRegistry)
        ensures
            r@ == Set::<Seq<char>>::empty(),
    {
        let r = RepoRegistry { repos: Vec::new() };
        assert(r@ =~= Set::<Seq<char>>::empty());
        r
    }

    /// Whether `repo` is known.
    pub fn contains(&self, repo: &str) -> (b: bool)
        ensures
            b == self@.contains(repo@),
    {
        let mut i: usize = 0;
        while i < self.repos.len()
            invariant
                i <= self.repos@.len(),
                forall|k: int| 0 <= k < i ==> #[trigger] self.repos@[k]@ != repo@,
            decreases self.repos.len() - i,
        {
            if str_eq(self.repos[i].as_str(), repo) {
                assert(self@.contains(repo@)) by {
                    assert(self.repos@[i as int]@ == repo@);
                }
                return true;
            }
            i = i + 1;
        }
        false
    }

    /// Adds `repo`; the result tells whether it was new.
    pub fn insert(&mut self, repo: String) -> (added: bool)
        ensures
            added == !old(self)@.contains(repo@),
            final(self)@ == old(self)@.insert(repo@),
    {
        proof {
            use_type_invariant(&*self);
        }
        if self.contains(repo.as_str()) {
            assert(self@ =~= old(self)@.insert(repo@));
            return false;
        }
        let ghost p = repo@;
        assert forall|k: int| 0 <= k < self.repos@.len() implies self.repos@[k]@ != p by {
            if self.repos@[k]@ == p {
                assert(self@.contains(p));
            }
        }
        let mut repos: Vec<String> = Vec::new();
        std::mem::swap(&mut repos, &mut self.repos);
        repos.push(repo);
        self.repos = repos;
        assert(self@ =~= old(self)@.insert(p)) by {
            assert(self.repos@[self.repos@.len() - 1]@ == p);
            assert forall|q: Seq<char>| old(self)@.contains(q) implies self@.contains(q) by {
                let i = choose|i: int| 0 <= i < old(self).repos@.len() && #[trigger] old(self).repos@[i]@ == q;
                assert(self.repos@[i]@ == q);
            }
            assert forall|q: Seq<char>| self@.contains(q) implies old(self)@.insert(p).contains(q) by {
                let i = choose|i: int| 0 <= i < self.repos@.len() && #[trigger] self.repos@[i]@ == q;
                if i < old(self).repos@.len() {
                    assert(old(self).repos@[i]@ == q);
                }
            }
        }
        true
    }
}

/// Registers the repository that holds a working directory: `ancestors` are the directory
/// and its ancestors, nearest first, and `is_repo[i]` tells whether `ancestors[i]` holds a
/// `.git` entry. The nearest such ancestor is added; the result tells whether it was new.
pub fn register_cwd(registry: &mut RepoRegistry, ancestors: &[String], is_repo: &[bool]) -> (added:
    bool)
    requires
        ancestors@.len() == is_repo@.len(),
    ensures
        (forall|k: int| 0 <= k < is_repo@.len() ==> !is_repo@[k]) ==> final(registry)@ == old(
            registry,
        )@ && !added,
        forall|k: int|
            0 <= k < is_repo@.len() && #[trigger] is_repo@[k] && (forall|j: int|
                0 <= j < k ==> !is_repo@[j]) ==> final(registry)@ == old(registry)@.insert(
                ancestors@[k]@,
            ) && added == !old(registry)@.contains(ancestors@[k]@),
{
    let mut i: usize = 0;
    while i < is_repo.len()
        invariant
            ancestors@.len() == is_repo@.len(),
            i <= is_repo@.len(),
            registry@ == old(registry)@,
            forall|j: int| 0 <= j < i ==> !is_repo@[j],
        decreases is_repo.len() - i,
    {
        if is_repo[i] {
            let repo = ancestors[i].clone();
            return registry.insert(repo);
        }
        i = i + 1;
    }
    false
}

/// A change to a `.git/logs/HEAD` path (either slash) that creates or modifies it is one
/// commit; a modified `.git/index` or `.git/index.lock` is one unstaged change; a change to
/// a path without `.git` in it means nothing.
pub proof fn lemma_repository_changes(path: Seq<char>, kind: FsChangeKind)
    ensures
        has_sub(path, ".git"@) && (ends_with(path, "logs/HEAD"@) || ends_with(
            path,
            "logs\\HEAD"@,
        )) && (kind == FsChangeKind::Modify || kind == FsChangeKind::Create) ==> fs_events(
            path,
            kind,
        )[0] == CreatureEvent::GitCommit,
        has_sub(path, ".git"@) && (ends_with(path, "index"@) || ends_with(path, "index.lock"@))
            && kind == FsChangeKind::Modify ==> fs_events(path, kind).last()
            == CreatureEvent::UnstagedChanges,
        !has_sub(path, ".git"@) ==> fs_events(path, kind).len() == 0,
{
}

/// The search skips hidden directories and `node_modules`, `target`, `__pycache__` and
/// `.git`, and enters every other directory.
pub proof fn lemma_searched_directories(name: Seq<char>)
    ensures
        worth_searching(name) <==> !(name.len() > 0 && name[0] == '.') && name
            != "node_modules"@ && name != "target"@ && name != "__pycache__"@,
{
    reveal_strlit(".git");
}

} // verus!
