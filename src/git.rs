use vstd::prelude::*;
use crate::mapping::KeyValues;

verus! {

/// The key whose value is the source to clone.
pub open spec fn repo_key() -> Seq<char> {
    "repo"@
}

/// The key whose value is the ref to check out.
pub open spec fn branch_key() -> Seq<char> {
    "branch"@
}

/// A key that the git section may hold.
pub open spec fn recognized_git_key(k: Seq<char>) -> bool {
    k == repo_key() || k == branch_key()
}

/// A git section is accepted when it holds some key and every key is recognized.
pub open spec fn git_config_valid(g: Map<Seq<char>, Seq<char>>) -> bool {
    &&& exists|k: Seq<char>| g.contains_key(k)
    &&& forall|k: Seq<char>| #[trigger] g.contains_key(k) ==> recognized_git_key(k)
}

/// The commands that a git section asks for: a clone of `repo`, then a
/// checkout of `branch`, each only where its key is present. Other keys give
/// no command.
pub open spec fn git_plan(g: Map<Seq<char>, Seq<char>>) -> Seq<Seq<char>> {
    (if g.contains_key(repo_key()) {
        seq!["git clone "@ + g[repo_key()]]
    } else {
        Seq::empty()
    }) + (if g.contains_key(branch_key()) {
        seq!["git checkout "@ + g[branch_key()]]
    } else {
        Seq::empty()
    })
}

/// The command that succeeds exactly when `dir` lies inside a git work tree.
pub open spec fn repo_check_command(dir: Seq<char>) -> Seq<char> {
    "cd "@ + dir + " && git rev-parse --is-inside-work-tree"@
}

/// Each string taken by its characters.
pub open spec fn string_views(v: Seq<String>) -> Seq<Seq<char>> {
    v.map_values(|s: String| s@)
}

/// The git section of a configuration: `repo` and `branch` settings.
pub struct GitOptions {
    settings: KeyValues,
}

impl View for GitOptions {
    type V = Map<Seq<char>, Seq<char>>;

    closed spec fn view(&self) -> Map<Seq<char>, Seq<char>> {
        self.settings@
    }
}

impl GitOptions {
    /// Each key is held once.
    pub closed spec fn wf(&self) -> bool {
        self.settings.wf()
    }

    /// A section with no settings.
    pub fn new() -> (g: GitOptions)
        ensures
            g.wf(),
            g@ == Map::<Seq<char>, Seq<char>>::empty(),
    {
        GitOptions { settings: KeyValues::new() }
    }

    /// Sets `key` to `value`, replacing an earlier value.
    pub fn insert(&mut self, key: String, value: String)
        requires
            old(self).wf(),
        ensures
            final(self).wf(),
            final(self)@ == old(self)@.insert(key@, value@),
    {
        self.settings.insert(key, value);
    }

    /// The value of `key`, if set.
    pub fn get(&self, key: &String) -> (r: Option<&String>)
        requires
            self.wf(),
        ensures
            match r {
                Some(v) => self@.contains_key(key@) && self@[key@] == v@,
                None => !self@.contains_key(key@),
            },
    {
        self.settings.get(key)
    }

    /// The keys, in the order they were first set.
    pub fn keys(&self) -> (r: Vec<String>)
        requires
            self.wf(),
        ensures
            forall|i: int| 0 <= i < r.len() ==> self@.contains_key(#[trigger] r[i]@),
            forall|k: Seq<char>|
                #[trigger] self@.contains_key(k) ==> exists|i: int| 0 <= i < r.len() && r[i]@ == k,
    {
        self.settings.keys()
    }
}

/// The shell command that tells whether `possible_repo_dir` is inside a git
/// checkout: it succeeds exactly then.
pub fn check_if_in_repo(possible_repo_dir: &str) -> (cmd: String)
    ensures
        cmd@ == repo_check_command(possible_repo_dir@),
{
    let mut cmd = String::from_str("cd ");
    cmd.append(possible_repo_dir);
    cmd.append(" && git rev-parse --is-inside-work-tree");
    cmd
}

/// Turns the git section into console commands: the clone comes before the
/// checkout whatever order the keys were written in, and unrecognized keys
/// give no command.
pub fn process_git_cmds(git_conf: &GitOptions) -> (cmds: Vec<String>)
    requires
        git_conf.wf(),
    ensures
        string_views(cmds@) == git_plan(git_conf@),
{
    let mut cmds: Vec<String> = Vec::new();
    let repo = String::from_str("repo");
    let branch = String::from_str("branch");
    if let Some(source) = git_conf.get(&repo) {
        let mut cmd = String::from_str("git clone ");
        cmd.append(source.as_str());
        cmds.push(cmd);
    }
    let ghost first = string_views(cmds@);
    if let Some(target) = git_conf.get(&branch) {
        let mut cmd = String::from_str("git checkout ");
        cmd.append(target.as_str());
        cmds.push(cmd);
    }
    assert(string_views(cmds@) =~= git_plan(git_conf@));
    cmds
}

/// Whether the git section is one this program supports: it must hold at
/// least one setting, and only `repo` and `branch`.
pub fn validate_git_conf(git_conf: &GitOptions) -> (r: bool)
    requires
        git_conf.wf(),
    ensures
        r == git_config_valid(git_conf@),
{
    let keys = git_conf.keys();
    if keys.len() == 0 {
        return false;
    }
    assert(git_conf@.contains_key(keys[0]@));
    let repo = String::from_str("repo");
    let branch = String::from_str("branch");
    let mut i: usize = 0;
    while i < keys.len()
        invariant
            i <= keys.len(),
            repo@ == repo_key(),
            branch@ == branch_key(),
            forall|j: int| 0 <= j < keys.len() ==> git_conf@.contains_key(#[trigger] keys[j]@),
            forall|j: int| 0 <= j < i ==> recognized_git_key(#[trigger] keys[j]@),
        decreases keys.len() - i,
    {
        if keys[i] != repo && keys[i] != branch {
            assert(git_conf@.contains_key(keys[i as int]@));
            return false;
        }
        i = i + 1;
    }
    true
}

} // verus!
