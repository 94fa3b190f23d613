use vstd::prelude::*;

use crate::types::{
    spec_run_state, Action, ConfigFile, EditorCandidate, Event, Failure, RunState,
};

verus! {

/// How many editors are probed for before the menu is offered.
pub const DEFAULT_EDITOR_COUNT: usize = 3;

/// The editors probed for, in order.
pub open spec fn spec_default_editor(i: int) -> Seq<char> {
    if i == 0 {
        "vim"@
    } else if i == 1 {
        "nano"@
    } else {
        "micro"@
    }
}

/// The menu entry that asks for another editor by name.
pub open spec fn spec_other_label() -> Seq<char> {
    "Other (provide name, e.g. 'emacs')"@
}

/// The pager used to view the notes file.
pub open spec fn spec_pager() -> Seq<char> {
    "less"@
}

/// The notes file inside a repository.
pub open spec fn spec_notes_path(repo: Seq<char>) -> Seq<char> {
    repo + "/README.md"@
}

/// The menu offered for a list of found editors: their names in order, then
/// the entry for another editor.
pub open spec fn is_menu_of(labels: Seq<String>, cands: Seq<EditorCandidate>) -> bool {
    &&& labels.len() == cands.len() + 1
    &&& forall|i: int| 0 <= i < cands.len() ==> #[trigger] labels[i]@ == cands[i].name@
    &&& labels[cands.len() as int]@ == spec_other_label()
}

/// Where a run stands between two actions.
#[derive(Debug)]
pub enum Phase {
    /// Nothing started yet.
    Idle,
    /// Waiting for the configuration directory to be created.
    CreatingDir,
    /// Waiting for the welcome banner to be printed.
    ShowingBanner,
    /// Waiting for a repository path.
    AwaitRepo,
    /// Waiting for this repository path to be stored.
    WritingRepo(String),
    /// Waiting for the default editor of this index to be resolved.
    Probing(usize),
    /// Waiting for a menu choice.
    Selecting,
    /// Waiting for the name of another editor.
    AwaitEditorName,
    /// Waiting for the editor of this name to be resolved.
    LocatingEditor(String),
    /// Waiting for this editor path to be stored.
    WritingEditor(String),
    /// Waiting for the completion message to be printed.
    Completing,
    /// Waiting for the idea summary.
    AwaitIdea,
    /// Waiting for the editor to exit; the summary is kept for the commit.
    Editing(String),
    /// Waiting for the commit and push.
    Committing,
    /// Waiting for the pager to be resolved.
    LocatingPager,
    /// Waiting for the pager to exit.
    Paging,
    /// Waiting for a setting to be removed.
    Removing(ConfigFile),
    /// The run is over.
    Finished,
}

/// One run of the tool, driven by the program around it: each call returns
/// the next action, and `step` takes the outcome of that action.
///
/// `repo` and `editor` hold the settings as read at the start of the run,
/// each by its own read, and are kept up to date as the run writes or
/// removes them.
pub struct Eureka {
    pub repo: Option<String>,
    pub editor: Option<String>,
    pub config_dir_exists: bool,
    pub phase: Phase,
    pub candidates: Vec<EditorCandidate>,
}

/// The settings and the directory flag are the same in both states.
pub open spec fn same_config(pre: Eureka, post: Eureka) -> bool {
    &&& post.repo == pre.repo
    &&& post.editor == pre.editor
    &&& post.config_dir_exists == pre.config_dir_exists
}

/// The run stops with `f`, leaving the settings as they were.
pub open spec fn aborts_with(pre: Eureka, post: Eureka, r: Action, f: Failure) -> bool {
    &&& same_config(pre, post)
    &&& post.phase == Phase::Finished
    &&& r == Action::Abort(f)
}

/// The run ends normally with the given settings.
pub open spec fn finishes(post: Eureka, r: Action) -> bool {
    &&& post.phase == Phase::Finished
    &&& r == Action::Finish
}

/// Setup goes on from the given settings: the repository path is asked for
/// first, then the editor is looked for, and once both are present the
/// completion message is printed.
pub open spec fn continues_setup(
    repo: Option<String>,
    editor: Option<String>,
    post: Eureka,
    r: Action,
) -> bool {
    &&& post.repo == repo
    &&& post.editor == editor
    &&& if repo is None {
        r == Action::PromptRepoPath && post.phase == Phase::AwaitRepo
    } else if editor is None {
        &&& r matches Action::Locate(n) && n@ == spec_default_editor(0)
        &&& post.phase == Phase::Probing(0)
        &&& post.candidates@.len() == 0
    } else {
        r == Action::PrintSetupComplete && post.phase == Phase::Completing
    }
}

/// What `step` does from state `pre` on event `ev`: the next state `post`
/// and the action `r`. An event that the phase does not wait for aborts.
pub open spec fn step_spec(pre: Eureka, ev: Event, post: Eureka, r: Action) -> bool {
    match pre.phase {
        Phase::CreatingDir => match ev {
            Event::Done => {
                &&& post.repo == pre.repo && post.editor == pre.editor
                &&& post.config_dir_exists
                &&& post.phase == Phase::ShowingBanner
                &&& r == Action::PrintBanner
            },
            Event::Failed(e) => aborts_with(pre, post, r, Failure::ConfigDir(e)),
            _ => aborts_with(pre, post, r, Failure::UnexpectedEvent),
        },
        Phase::ShowingBanner => match ev {
            Event::Done => post.config_dir_exists == pre.config_dir_exists
                && continues_setup(pre.repo, pre.editor, post, r),
            _ => aborts_with(pre, post, r, Failure::UnexpectedEvent),
        },
        Phase::AwaitRepo => match ev {
            Event::Line(s) => if s@.len() == 0 {
                same_config(pre, post) && post.phase == Phase::AwaitRepo
                    && r == Action::PromptRepoPath
            } else {
                &&& same_config(pre, post)
                &&& post.phase == Phase::WritingRepo(s)
                &&& r == Action::WriteSetting(ConfigFile::Repo, s)
            },
            _ => aborts_with(pre, post, r, Failure::UnexpectedEvent),
        },
        Phase::WritingRepo(s) => match ev {
            Event::Done => post.config_dir_exists == pre.config_dir_exists
                && continues_setup(Some(s), pre.editor, post, r),
            Event::Failed(e) => aborts_with(pre, post, r, Failure::WriteSetting(ConfigFile::Repo, e)),
            _ => aborts_with(pre, post, r, Failure::UnexpectedEvent),
        },
        Phase::Probing(i) => match ev {
            Event::Located(found) => {
                &&& same_config(pre, post)
                &&& if i < DEFAULT_EDITOR_COUNT {
                    &&& match found {
                        Some(p) => {
                            &&& post.candidates@.len() == pre.candidates@.len() + 1
                            &&& post.candidates@.drop_last() == pre.candidates@
                            &&& post.candidates@.last().name@ == spec_default_editor(i as int)
                            &&& post.candidates@.last().path == p
                        },
                        None => post.candidates@ == pre.candidates@,
                    }
                    &&& if i + 1 < DEFAULT_EDITOR_COUNT {
                        &&& post.phase == Phase::Probing((i + 1) as usize)
                        &&& r matches Action::Locate(n) && n@ == spec_default_editor(i + 1)
                    } else {
                        &&& post.phase == Phase::Selecting
                        &&& r matches Action::SelectEditor(labels)
                            && is_menu_of(labels@, post.candidates@)
                    }
                } else {
                    post.phase == Phase::Finished && r == Action::Abort(Failure::UnexpectedEvent)
                }
            },
            _ => aborts_with(pre, post, r, Failure::UnexpectedEvent),
        },
        Phase::Selecting => match ev {
            Event::Selected(k) => if k == pre.candidates@.len() {
                same_config(pre, post) && post.phase == Phase::AwaitEditorName
                    && r == Action::PromptEditorName
            } else if k < pre.candidates@.len() {
                &&& same_config(pre, post)
                &&& post.phase == Phase::WritingEditor(pre.candidates@[k as int].path)
                &&& r == Action::WriteSetting(ConfigFile::Editor, pre.candidates@[k as int].path)
            } else {
                aborts_with(pre, post, r, Failure::InvalidSelection)
            },
            _ => aborts_with(pre, post, r, Failure::UnexpectedEvent),
        },
        Phase::AwaitEditorName => match ev {
            Event::Line(name) => {
                &&& same_config(pre, post)
                &&& post.phase == Phase::LocatingEditor(name)
                &&& r == Action::Locate(name)
            },
            _ => aborts_with(pre, post, r, Failure::UnexpectedEvent),
        },
        Phase::LocatingEditor(name) => match ev {
            Event::Located(Some(p)) => {
                &&& same_config(pre, post)
                &&& post.phase == Phase::WritingEditor(p)
                &&& r == Action::WriteSetting(ConfigFile::Editor, p)
            },
            Event::Located(None) => aborts_with(pre, post, r, Failure::EditorNotFound(name)),
            _ => aborts_with(pre, post, r, Failure::UnexpectedEvent),
        },
        Phase::WritingEditor(p) => match ev {
            Event::Done => post.config_dir_exists == pre.config_dir_exists
                && continues_setup(pre.repo, Some(p), post, r),
            Event::Failed(e) => aborts_with(pre, post, r, Failure::WriteSetting(ConfigFile::Editor, e)),
            _ => aborts_with(pre, post, r, Failure::UnexpectedEvent),
        },
        Phase::Completing => match ev {
            Event::Done => same_config(pre, post) && finishes(post, r),
            _ => aborts_with(pre, post, r, Failure::UnexpectedEvent),
        },
        Phase::AwaitIdea => match ev {
            Event::Line(summary) => match (pre.repo, pre.editor) {
                (Some(repo), Some(editor)) => {
                    &&& same_config(pre, post)
                    &&& post.phase == Phase::Editing(summary)
                    &&& r matches Action::RunProcess(bin, arg)
                        && bin == editor && arg@ == spec_notes_path(repo@)
                },
                (None, _) => aborts_with(pre, post, r, Failure::MissingSetting(ConfigFile::Repo)),
                (_, None) => aborts_with(pre, post, r, Failure::MissingSetting(ConfigFile::Editor)),
            },
            _ => aborts_with(pre, post, r, Failure::UnexpectedEvent),
        },
        Phase::Editing(summary) => match (pre.repo, pre.editor) {
            (Some(repo), Some(editor)) => match ev {
                Event::Done => {
                    &&& same_config(pre, post)
                    &&& post.phase == Phase::Committing
                    &&& r == Action::CommitAndPush(repo, summary)
                },
                Event::Failed(e) => {
                    &&& same_config(pre, post)
                    &&& post.phase == Phase::Finished
                    &&& r matches Action::Abort(Failure::EditorLaunch(file, bin, cause))
                        && file@ == spec_notes_path(repo@) && bin == editor && cause == e
                },
                _ => aborts_with(pre, post, r, Failure::UnexpectedEvent),
            },
            (None, _) => aborts_with(pre, post, r, Failure::MissingSetting(ConfigFile::Repo)),
            (_, None) => aborts_with(pre, post, r, Failure::MissingSetting(ConfigFile::Editor)),
        },
        Phase::Committing => match ev {
            Event::Done => same_config(pre, post) && finishes(post, r),
            Event::Failed(e) => aborts_with(pre, post, r, Failure::CommitPush(e)),
            _ => aborts_with(pre, post, r, Failure::UnexpectedEvent),
        },
        Phase::LocatingPager => match pre.repo {
            Some(repo) => match ev {
                Event::Located(Some(pager)) => {
                    &&& same_config(pre, post)
                    &&& post.phase == Phase::Paging
                    &&& r matches Action::RunProcess(bin, arg)
                        && bin == pager && arg@ == spec_notes_path(repo@)
                },
                Event::Located(None) => aborts_with(pre, post, r, Failure::PagerNotFound),
                _ => aborts_with(pre, post, r, Failure::UnexpectedEvent),
            },
            None => aborts_with(pre, post, r, Failure::MissingSetting(ConfigFile::Repo)),
        },
        Phase::Paging => match pre.repo {
            Some(repo) => match ev {
                Event::Done => same_config(pre, post) && finishes(post, r),
                Event::Failed(e) => {
                    &&& same_config(pre, post)
                    &&& post.phase == Phase::Finished
                    &&& r matches Action::Abort(Failure::PagerLaunch(file, cause))
                        && file@ == spec_notes_path(repo@) && cause == e
                },
                _ => aborts_with(pre, post, r, Failure::UnexpectedEvent),
            },
            None => aborts_with(pre, post, r, Failure::MissingSetting(ConfigFile::Repo)),
        },
        Phase::Removing(key) => match ev {
            Event::Done => {
                &&& post.config_dir_exists == pre.config_dir_exists
                &&& post.repo == (if key == ConfigFile::Repo { None } else { pre.repo })
                &&& post.editor == (if key == ConfigFile::Editor { None } else { pre.editor })
                &&& finishes(post, r)
            },
            Event::Failed(e) => aborts_with(pre, post, r, Failure::RemoveSetting(key, e)),
            _ => aborts_with(pre, post, r, Failure::UnexpectedEvent),
        },
        Phase::Idle | Phase::Finished => aborts_with(pre, post, r, Failure::UnexpectedEvent),
    }
}

/// What `run` does from state `pre`: capture an idea when both settings are
/// present, otherwise set up what is missing, starting on the very first run
/// with the configuration directory (when it is missing) and the banner.
pub open spec fn run_spec(pre: Eureka, post: Eureka, r: Action) -> bool {
    match spec_run_state(pre.repo is Some, pre.editor is Some) {
        RunState::BothPresent => {
            &&& same_config(pre, post)
            &&& post.phase == Phase::AwaitIdea
            &&& r == Action::PromptIdea
        },
        RunState::BothMissing => {
            &&& same_config(pre, post)
            &&& if pre.config_dir_exists {
                r == Action::PrintBanner && post.phase == Phase::ShowingBanner
            } else {
                r == Action::CreateConfigDir && post.phase == Phase::CreatingDir
            }
        },
        _ => post.config_dir_exists == pre.config_dir_exists
            && continues_setup(pre.repo, pre.editor, post, r),
    }
}

/// What clearing a setting does: remove it when present, else nothing.
pub open spec fn clear_spec(pre: Eureka, key: ConfigFile, post: Eureka, r: Action) -> bool {
    let present = if key == ConfigFile::Repo { pre.repo is Some } else { pre.editor is Some };
    &&& same_config(pre, post)
    &&& if present {
        r == Action::RemoveSetting(key) && post.phase == Phase::Removing(key)
    } else {
        finishes(post, r)
    }
}

/// What viewing the notes does: look for the pager when the repository path
/// is present, else stop without running anything.
pub open spec fn view_spec(pre: Eureka, post: Eureka, r: Action) -> bool {
    &&& same_config(pre, post)
    &&& if pre.repo is Some {
        &&& r matches Action::Locate(n) && n@ == spec_pager()
        &&& post.phase == Phase::LocatingPager
    } else {
        aborts_with(pre, post, r, Failure::MissingSetting(ConfigFile::Repo))
    }
}

fn default_editor(i: usize) -> (r: String)
    requires
        i < DEFAULT_EDITOR_COUNT,
    ensures
        r@ == spec_default_editor(i as int),
{
    if i == 0 {
        String::from_str("vim")
    } else if i == 1 {
        String::from_str("nano")
    } else {
        String::from_str("micro")
    }
}

/// The path of the notes file inside `repo`.
pub fn notes_path(repo: &String) -> (r: String)
    ensures
        r@ == spec_notes_path(repo@),
{
    repo.clone().concat("/README.md")
}

/// The menu for the found editors: their names in probe order, then the
/// entry for another editor, last.
pub fn editor_menu(cands: &Vec<EditorCandidate>) -> (labels: Vec<String>)
    ensures
        is_menu_of(labels@, cands@),
{
    let mut labels: Vec<String> = Vec::new();
    let mut i: usize = 0;
    while i < cands.len()
        invariant
            i <= cands@.len(),
            labels@.len() == i,
            forall|j: int| 0 <= j < i ==> #[trigger] labels@[j]@ == cands@[j].name@,
        decreases cands@.len() - i,
    {
        labels.push(cands[i].name.clone());
        i = i + 1;
    }
    labels.push(String::from_str("Other (provide name, e.g. 'emacs')"));
    labels
}

impl Eureka {
    /// A run over the settings as read from the configuration store.
    pub fn new(repo: Option<String>, editor: Option<String>, config_dir_exists: bool) -> (e: Eureka)
        ensures
            e.repo == repo,
            e.editor == editor,
            e.config_dir_exists == config_dir_exists,
            e.phase == Phase::Idle,
            e.candidates@.len() == 0,
    {
        Eureka { repo, editor, config_dir_exists, phase: Phase::Idle, candidates: Vec::new() }
    }

    /// The classification of this run from the two settings.
    pub fn run_state(&self) -> (r: RunState)
        ensures
            r == spec_run_state(self.repo is Some, self.editor is Some),
    {
        RunState::classify(self.repo.is_some(), self.editor.is_some())
    }

    fn continue_setup(&mut self) -> (r: Action)
        ensures
            final(self).config_dir_exists == old(self).config_dir_exists,
            continues_setup(old(self).repo, old(self).editor, *final(self), r),
    {
        if self.repo.is_none() {
            self.phase = Phase::AwaitRepo;
            Action::PromptRepoPath
        } else if self.editor.is_none() {
            self.candidates = Vec::new();
            self.phase = Phase::Probing(0);
            Action::Locate(default_editor(0))
        } else {
            self.phase = Phase::Completing;
            Action::PrintSetupComplete
        }
    }

    /// Starts a default run.
    pub fn run(&mut self) -> (r: Action)
        ensures
            run_spec(*old(self), *final(self), r),
    {
        let state = self.run_state();
        if !state.is_config_missing() {
            self.phase = Phase::AwaitIdea;
            Action::PromptIdea
        } else if state.is_first_time_run() {
            if !self.config_dir_exists {
                self.phase = Phase::CreatingDir;
                Action::CreateConfigDir
            } else {
                self.phase = Phase::ShowingBanner;
                Action::PrintBanner
            }
        } else {
            self.continue_setup()
        }
    }

    fn clear(&mut self, key: ConfigFile) -> (r: Action)
        ensures
            clear_spec(*old(self), key, *final(self), r),
    {
        let present = match key {
            ConfigFile::Repo => self.repo.is_some(),
            ConfigFile::Editor => self.editor.is_some(),
        };
        if present {
            self.phase = Phase::Removing(key);
            Action::RemoveSetting(key)
        } else {
            self.phase = Phase::Finished;
            Action::Finish
        }
    }

    /// Starts clearing the repository path.
    pub fn clear_repo(&mut self) -> (r: Action)
        ensures
            clear_spec(*old(self), ConfigFile::Repo, *final(self), r),
    {
        self.clear(ConfigFile::Repo)
    }

    /// Starts clearing the editor path.
    pub fn clear_editor(&mut self) -> (r: Action)
        ensures
            clear_spec(*old(self), ConfigFile::Editor, *final(self), r),
    {
        self.clear(ConfigFile::Editor)
    }

    /// Starts viewing the notes file through the pager.
    pub fn open_idea_file(&mut self) -> (r: Action)
        ensures
            view_spec(*old(self), *final(self), r),
    {
        if self.repo.is_some() {
            self.phase = Phase::LocatingPager;
            Action::Locate(String::from_str("less"))
        } else {
            self.phase = Phase::Finished;
            Action::Abort(Failure::MissingSetting(ConfigFile::Repo))
        }
    }

    fn abort(&mut self, f: Failure) -> (r: Action)
        ensures
            aborts_with(*old(self), *final(self), r, f),
    {
        self.phase = Phase::Finished;
        Action::Abort(f)
    }

    fn finish(&mut self) -> (r: Action)
        ensures
            same_config(*old(self), *final(self)),
            finishes(*final(self), r),
    {
        self.phase = Phase::Finished;
        Action::Finish
    }

    /// Takes the outcome of the last action and returns the next one.
    pub fn step(&mut self, ev: Event) -> (r: Action)
        ensures
            step_spec(*old(self), ev, *final(self), r),
    {
        let mut phase = Phase::Finished;
        std::mem::swap(&mut phase, &mut self.phase);
        match phase {
            Phase::CreatingDir => match ev {
                Event::Done => {
                    self.config_dir_exists = true;
                    self.phase = Phase::ShowingBanner;
                    Action::PrintBanner
                },
                Event::Failed(e) => self.abort(Failure::ConfigDir(e)),
                _ => self.abort(Failure::UnexpectedEvent),
            },
            Phase::ShowingBanner => match ev {
                Event::Done => self.continue_setup(),
                _ => self.abort(Failure::UnexpectedEvent),
            },
            Phase::AwaitRepo | Phase::WritingRepo(_) => self.setup_repo_path(phase, ev),
            Phase::Probing(_)
            | Phase::Selecting
            | Phase::AwaitEditorName
            | Phase::LocatingEditor(_)
            | Phase::WritingEditor(_) => self.setup_editor_path(phase, ev),
            Phase::Completing => match ev {
                Event::Done => self.finish(),
                _ => self.abort(Failure::UnexpectedEvent),
            },
            Phase::AwaitIdea => match ev {
                Event::Line(summary) => self.input_idea(summary),
                _ => self.abort(Failure::UnexpectedEvent),
            },
            Phase::Editing(summary) => self.open_editor(summary, ev),
            Phase::Committing => match ev {
                Event::Done => self.finish(),
                Event::Failed(e) => self.abort(Failure::CommitPush(e)),
                _ => self.abort(Failure::UnexpectedEvent),
            },
            Phase::LocatingPager | Phase::Paging => self.open_pager_less(phase, ev),
            Phase::Removing(key) => match ev {
                Event::Done => {
                    match key {
                        ConfigFile::Repo => self.repo = None,
                        ConfigFile::Editor => self.editor = None,
                    }
                    self.finish()
                },
                Event::Failed(e) => self.abort(Failure::RemoveSetting(key, e)),
                _ => self.abort(Failure::UnexpectedEvent),
            },
            Phase::Idle | Phase::Finished => self.abort(Failure::UnexpectedEvent),
        }
    }

    /// Asks for the repository path until a non-empty one comes, then stores it.
    fn setup_repo_path(&mut self, phase: Phase, ev: Event) -> (r: Action)
        requires
            phase is AwaitRepo || phase is WritingRepo,
        ensures
            step_spec((Eureka { phase: phase, ..*old(self) }), ev, *final(self), r),
    {
        match phase {
            Phase::WritingRepo(s) => match ev {
                Event::Done => {
                    self.repo = Some(s);
                    self.continue_setup()
                },
                Event::Failed(e) => self.abort(Failure::WriteSetting(ConfigFile::Repo, e)),
                _ => self.abort(Failure::UnexpectedEvent),
            },
            _ => match ev {
                Event::Line(s) => {
                    if s.as_str().is_empty() {
                        self.phase = Phase::AwaitRepo;
                        Action::PromptRepoPath
                    } else {
                        let value = s.clone();
                        self.phase = Phase::WritingRepo(s);
                        Action::WriteSetting(ConfigFile::Repo, value)
                    }
                },
                _ => self.abort(Failure::UnexpectedEvent),
            },
        }
    }

    /// Probes the default editors in order, offers the ones found and an
    /// entry for another editor, and stores the path of the one chosen.
    fn setup_editor_path(&mut self, phase: Phase, ev: Event) -> (r: Action)
        requires
            phase is Probing || phase is Selecting || phase is AwaitEditorName
                || phase is LocatingEditor || phase is WritingEditor,
        ensures
            step_spec((Eureka { phase: phase, ..*old(self) }), ev, *final(self), r),
    {
        match phase {
            Phase::Probing(i) => match ev {
                Event::Located(found) => {
                    if i < DEFAULT_EDITOR_COUNT {
                        match found {
                            Some(p) => {
                                let name = default_editor(i);
                                self.candidates.push(EditorCandidate { name, path: p });
                                assert(self.candidates@.drop_last() =~= old(self).candidates@);
                            },
                            None => {},
                        }
                        if i + 1 < DEFAULT_EDITOR_COUNT {
                            self.phase = Phase::Probing(i + 1);
                            Action::Locate(default_editor(i + 1))
                        } else {
                            self.phase = Phase::Selecting;
                            Action::SelectEditor(editor_menu(&self.candidates))
                        }
                    } else {
                        self.abort(Failure::UnexpectedEvent)
                    }
                },
                _ => self.abort(Failure::UnexpectedEvent),
            },
            Phase::Selecting => match ev {
                Event::Selected(k) => {
                    if k == self.candidates.len() {
                        self.phase = Phase::AwaitEditorName;
                        Action::PromptEditorName
                    } else if k < self.candidates.len() {
                        let path = self.candidates[k].path.clone();
                        self.phase = Phase::WritingEditor(path.clone());
                        Action::WriteSetting(ConfigFile::Editor, path)
                    } else {
                        self.abort(Failure::InvalidSelection)
                    }
                },
                _ => self.abort(Failure::UnexpectedEvent),
            },
            Phase::AwaitEditorName => match ev {
                Event::Line(name) => {
                    self.phase = Phase::LocatingEditor(name.clone());
                    Action::Locate(name)
                },
                _ => self.abort(Failure::UnexpectedEvent),
            },
            Phase::LocatingEditor(name) => match ev {
                Event::Located(Some(p)) => {
                    self.phase = Phase::WritingEditor(p.clone());
                    Action::WriteSetting(ConfigFile::Editor, p)
                },
                Event::Located(None) => self.abort(Failure::EditorNotFound(name)),
                _ => self.abort(Failure::UnexpectedEvent),
            },
            Phase::WritingEditor(p) => match ev {
                Event::Done => {
                    self.editor = Some(p);
                    self.continue_setup()
                },
                Event::Failed(e) => self.abort(Failure::WriteSetting(ConfigFile::Editor, e)),
                _ => self.abort(Failure::UnexpectedEvent),
            },
            _ => self.abort(Failure::UnexpectedEvent),
        }
    }

    /// Takes the idea summary and opens the notes file in the editor.
    fn input_idea(&mut self, summary: String) -> (r: Action)
        ensures
            step_spec(
                (Eureka { phase: Phase::AwaitIdea, ..*old(self) }),
                Event::Line(summary),
                *final(self),
                r,
            ),
    {
        match (&self.repo, &self.editor) {
            (Some(repo), Some(editor)) => {
                let bin = editor.clone();
                let file = notes_path(repo);
                self.phase = Phase::Editing(summary);
                Action::RunProcess(bin, file)
            },
            (None, _) => self.abort(Failure::MissingSetting(ConfigFile::Repo)),
            (_, None) => self.abort(Failure::MissingSetting(ConfigFile::Editor)),
        }
    }

    /// Once the editor has run, whatever its exit status, commits and pushes
    /// with the summary as message; if it could not run, stops.
    fn open_editor(&mut self, summary: String, ev: Event) -> (r: Action)
        ensures
            step_spec((Eureka { phase: Phase::Editing(summary), ..*old(self) }), ev, *final(self), r),
    {
        match (&self.repo, &self.editor) {
            (Some(repo), Some(editor)) => match ev {
                Event::Done => {
                    let repo = repo.clone();
                    self.phase = Phase::Committing;
                    Action::CommitAndPush(repo, summary)
                },
                Event::Failed(e) => {
                    let file = notes_path(repo);
                    let bin = editor.clone();
                    self.abort(Failure::EditorLaunch(file, bin, e))
                },
                _ => self.abort(Failure::UnexpectedEvent),
            },
            (None, _) => self.abort(Failure::MissingSetting(ConfigFile::Repo)),
            (_, None) => self.abort(Failure::MissingSetting(ConfigFile::Editor)),
        }
    }

    /// Runs the pager, once found, on the notes file, and ends when it exits.
    fn open_pager_less(&mut self, phase: Phase, ev: Event) -> (r: Action)
        requires
            phase is LocatingPager || phase is Paging,
        ensures
            step_spec((Eureka { phase: phase, ..*old(self) }), ev, *final(self), r),
    {
        match &self.repo {
            Some(repo) => match (phase, ev) {
                (Phase::LocatingPager, Event::Located(Some(pager))) => {
                    let file = notes_path(repo);
                    self.phase = Phase::Paging;
                    Action::RunProcess(pager, file)
                },
                (Phase::LocatingPager, Event::Located(None)) => self.abort(Failure::PagerNotFound),
                (Phase::Paging, Event::Done) => self.finish(),
                (Phase::Paging, Event::Failed(e)) => {
                    let file = notes_path(repo);
                    self.abort(Failure::PagerLaunch(file, e))
                },
                _ => self.abort(Failure::UnexpectedEvent),
            },
            None => self.abort(Failure::MissingSetting(ConfigFile::Repo)),
        }
    }
}

} // verus!
