use vstd::prelude::*;

use crate::eureka::{
    clear_spec, run_spec, spec_notes_path, spec_other_label, step_spec, Eureka, Phase,
};
use crate::types::{spec_run_state, Action, ConfigFile, Event, RunState};

verus! {

/// Whether the setting `key` is present in `e`.
pub open spec fn has_setting(e: Eureka, key: ConfigFile) -> bool {
    match key {
        ConfigFile::Repo => e.repo is Some,
        ConfigFile::Editor => e.editor is Some,
    }
}

/// The four run states follow the two presence checks one to one.
pub proof fn law_run_state_table(repo_present: bool, editor_present: bool)
    ensures
        spec_run_state(false, false) == RunState::BothMissing,
        spec_run_state(false, true) == RunState::RepoMissing,
        spec_run_state(true, false) == RunState::EditorMissing,
        spec_run_state(true, true) == RunState::BothPresent,
        (spec_run_state(repo_present, editor_present) == RunState::RepoMissing) <==> (
        !repo_present && editor_present),
        (spec_run_state(repo_present, editor_present) == RunState::EditorMissing) <==> (
        repo_present && !editor_present),
{
}

/// A run captures an idea exactly when both settings are present, takes the
/// first-run path (directory, then banner) exactly when both are missing, and
/// otherwise goes straight to asking for what is missing, repository first.
pub proof fn law_dispatch(pre: Eureka, post: Eureka, r: Action)
    requires
        run_spec(pre, post, r),
    ensures
        (r == Action::PromptIdea) <==> (pre.repo is Some && pre.editor is Some),
        (r == Action::CreateConfigDir || r == Action::PrintBanner) <==> (pre.repo is None
            && pre.editor is None),
        r == Action::CreateConfigDir <==> (pre.repo is None && pre.editor is None
            && !pre.config_dir_exists),
        (pre.repo is None && pre.editor is Some) ==> r == Action::PromptRepoPath,
        (pre.repo is Some && pre.editor is None) ==> r is Locate,
{
}

/// The first-run path is taken at most once in a run: no step asks for the
/// configuration directory, and a step prints the banner only right after
/// the directory was created, moving on to a phase that never prints it.
pub proof fn law_first_run_path_once(pre: Eureka, ev: Event, post: Eureka, r: Action)
    requires
        step_spec(pre, ev, post, r),
    ensures
        r != Action::CreateConfigDir,
        r == Action::PrintBanner ==> pre.phase == Phase::CreatingDir && post.phase
            == Phase::ShowingBanner,
        pre.phase == Phase::ShowingBanner ==> r != Action::PrintBanner,
{
}

/// Clearing an absent setting ends the run at once and changes nothing.
pub proof fn law_clear_absent(pre: Eureka, key: ConfigFile, post: Eureka, r: Action)
    requires
        clear_spec(pre, key, post, r),
        !has_setting(pre, key),
    ensures
        r == Action::Finish,
        post.repo == pre.repo,
        post.editor == pre.editor,
{
}

/// Clearing a present setting asks to remove it; once removed, the setting
/// is absent, the other one is untouched, and the run state no longer counts
/// the configuration as complete.
pub proof fn law_clear_present(
    pre: Eureka,
    key: ConfigFile,
    mid: Eureka,
    r1: Action,
    post: Eureka,
    r2: Action,
)
    requires
        clear_spec(pre, key, mid, r1),
        has_setting(pre, key),
        step_spec(mid, Event::Done, post, r2),
    ensures
        r1 == Action::RemoveSetting(key),
        !has_setting(post, key),
        key == ConfigFile::Repo ==> post.editor == pre.editor,
        key == ConfigFile::Editor ==> post.repo == pre.repo,
        spec_run_state(post.repo is Some, post.editor is Some) != RunState::BothPresent,
        r2 == Action::Finish,
{
}

/// When the last default editor is not found and none was found before,
/// the menu offered holds one entry only, the one for another editor.
pub proof fn law_menu_without_editors(pre: Eureka, post: Eureka, r: Action)
    requires
        pre.phase == Phase::Probing(2),
        pre.candidates@.len() == 0,
        step_spec(pre, Event::Located(None), post, r),
    ensures
        r matches Action::SelectEditor(labels) && labels@.len() == 1 && labels@[0]@
            == spec_other_label(),
{
}

/// With both settings present, a run asks for the summary, opens the notes
/// file of the repository in the stored editor, and once the editor has run
/// commits and pushes that repository with the summary as message.
pub proof fn law_capture(
    pre: Eureka,
    s1: Eureka,
    r1: Action,
    summary: String,
    s2: Eureka,
    r2: Action,
    s3: Eureka,
    r3: Action,
)
    requires
        pre.repo is Some,
        pre.editor is Some,
        run_spec(pre, s1, r1),
        step_spec(s1, Event::Line(summary), s2, r2),
        step_spec(s2, Event::Done, s3, r3),
    ensures
        r1 == Action::PromptIdea,
        r2 matches Action::RunProcess(bin, arg) && bin == pre.editor->0 && arg@ == spec_notes_path(
            pre.repo->0@,
        ),
        r3 == Action::CommitAndPush(pre.repo->0, summary),
{
}

} // verus!
