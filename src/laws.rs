//! Properties that hold across the validators, the git planner and a run.
use vstd::prelude::*;
use crate::config::EnvSetupConfig;
use crate::git::{branch_key, git_config_valid, git_plan, recognized_git_key, repo_key, GitOptions};
use crate::session::{after_repository_check, setup_stage, Stage};
use crate::toolchains::{language_of, language_valid};

verus! {

/// A git section that holds any key other than `repo` and `branch` is refused.
pub proof fn unrecognized_git_key_rejected(g: GitOptions, k: Seq<char>)
    requires
        g@.contains_key(k),
        !recognized_git_key(k),
    ensures
        !git_config_valid(g@),
{
}

/// An empty git section is refused; one that holds `repo`, `branch` or both
/// is accepted.
pub proof fn git_section_verdicts(repo: Seq<char>, branch: Seq<char>)
    ensures
        !git_config_valid(Map::<Seq<char>, Seq<char>>::empty()),
        git_config_valid(Map::<Seq<char>, Seq<char>>::empty().insert(repo_key(), repo)),
        git_config_valid(Map::<Seq<char>, Seq<char>>::empty().insert(branch_key(), branch)),
        git_config_valid(
            Map::<Seq<char>, Seq<char>>::empty().insert(repo_key(), repo).insert(
                branch_key(),
                branch,
            ),
        ),
{
    let e = Map::<Seq<char>, Seq<char>>::empty();
    assert(e.insert(repo_key(), repo).contains_key(repo_key()));
    assert(e.insert(branch_key(), branch).contains_key(branch_key()));
    assert(e.insert(repo_key(), repo).insert(branch_key(), branch).contains_key(branch_key()));
}

/// Whichever order `repo` and `branch` were written in, their commands are
/// the clone of `repo` followed by the checkout of `branch`.
pub proof fn clone_before_checkout(g: GitOptions, repo: Seq<char>, branch: Seq<char>)
    requires
        g@ == Map::<Seq<char>, Seq<char>>::empty().insert(repo_key(), repo).insert(
            branch_key(),
            branch,
        ) || g@ == Map::<Seq<char>, Seq<char>>::empty().insert(branch_key(), branch).insert(
            repo_key(),
            repo,
        ),
    ensures
        git_plan(g@) == seq!["git clone "@ + repo, "git checkout "@ + branch],
{
    reveal_strlit("repo");
    reveal_strlit("branch");
    assert(repo_key() != branch_key()) by {
        assert(repo_key().len() != branch_key().len());
    }
    assert(git_plan(g@) =~= seq!["git clone "@ + repo, "git checkout "@ + branch]);
}

/// An empty git section gives no commands.
pub proof fn empty_git_section_plans_nothing(g: GitOptions)
    requires
        g@ == Map::<Seq<char>, Seq<char>>::empty(),
    ensures
        git_plan(g@) == Seq::<Seq<char>>::empty(),
{
    assert(git_plan(g@) =~= Seq::<Seq<char>>::empty());
}

/// An unsupported language tag is refused whatever the probe reports; for a
/// supported one the verdict is what the probe of its toolchain reports.
pub proof fn language_verdict_follows_probe(tag: Seq<char>, toolchain_present: bool)
    ensures
        language_of(tag) is None ==> !language_valid(tag, toolchain_present),
        language_of(tag) is Some ==> language_valid(tag, toolchain_present) == toolchain_present,
{
}

/// The git verdict depends on the section's settings alone: two sections
/// with the same settings, whatever order their keys were written in, get the
/// same verdict, as the language and container verdicts are fixed by their
/// tag and probe report.
pub proof fn git_verdict_ignores_key_order(g1: GitOptions, g2: GitOptions)
    requires
        g1@ == g2@,
    ensures
        git_config_valid(g1@) == git_config_valid(g2@),
        git_plan(g1@) == git_plan(g2@),
{
}

/// Inside an existing checkout no git command runs and the setup commands
/// still do; outside one, a section with commands has them run first.
pub proof fn checkout_decides_git_only(cfg: EnvSetupConfig)
    ensures
        after_repository_check(cfg, true) == setup_stage(cfg),
        after_repository_check(cfg, true) != Stage::GitCommands,
        git_plan(cfg.git@).len() > 0 ==> after_repository_check(cfg, false) == Stage::GitCommands,
{
}

} // verus!
