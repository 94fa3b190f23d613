use vstd::prelude::*;

verus! {

/// The two persisted settings.
#[derive(Clone, Copy, Debug, PartialEq, Eq, Structural)]
pub enum ConfigFile {
    /// Absolute path of the repository that holds the notes file.
    Repo,
    /// Absolute path of the editor binary.
    Editor,
}

/// Which settings were present when a run started.
#[derive(Clone, Copy, Debug, PartialEq, Eq, Structural)]
pub enum RunState {
    BothMissing,
    RepoMissing,
    EditorMissing,
    BothPresent,
}

/// The classification of a run, from the presence of each setting.
pub open spec fn spec_run_state(repo_present: bool, editor_present: bool) -> RunState {
    if !repo_present && !editor_present {
        RunState::BothMissing
    } else if !repo_present {
        RunState::RepoMissing
    } else if !editor_present {
        RunState::EditorMissing
    } else {
        RunState::BothPresent
    }
}

impl RunState {
    /// Classifies a run from two independent presence checks.
    pub fn classify(repo_present: bool, editor_present: bool) -> (r: RunState)
        ensures
            r == spec_run_state(repo_present, editor_present),
            (r == RunState::BothPresent) <==> (repo_present && editor_present),
            (r == RunState::BothMissing) <==> (!repo_present && !editor_present),
    {
        match (repo_present, editor_present) {
            (false, false) => RunState::BothMissing,
            (false, true) => RunState::RepoMissing,
            (true, false) => RunState::EditorMissing,
            (true, true) => RunState::BothPresent,
        }
    }

    /// Whether setup has to run.
    pub fn is_config_missing(&self) -> (r: bool)
        ensures
            r == (*self != RunState::BothPresent),
    {
        !matches!(self, RunState::BothPresent)
    }

    /// Whether this is the very first run (no setting at all).
    pub fn is_first_time_run(&self) -> (r: bool)
        ensures
            r == (*self == RunState::BothMissing),
    {
        matches!(self, RunState::BothMissing)
    }
}

} // verus!

verus! {

/// An editor found on the host while setting up: its name and resolved path.
#[derive(Debug)]
pub struct EditorCandidate {
    pub name: String,
    pub path: String,
}

/// Why a run stops early. Each variant carries the details to report.
#[derive(Debug)]
pub enum Failure {
    /// The configuration directory could not be created: the cause.
    ConfigDir(String),
    /// A setting could not be written: which one, and the cause.
    WriteSetting(ConfigFile, String),
    /// A setting could not be removed: which one, and the cause.
    RemoveSetting(ConfigFile, String),
    /// A setting that this flow needs is absent.
    MissingSetting(ConfigFile),
    /// The editor named by the user is not installed: its name.
    EditorNotFound(String),
    /// The pager is not installed.
    PagerNotFound,
    /// The editor could not be run: notes file, editor path, cause.
    EditorLaunch(String, String, String),
    /// The pager could not be run: notes file, cause.
    PagerLaunch(String, String),
    /// Commit and push failed: the cause.
    CommitPush(String),
    /// The menu answer lies outside the menu offered.
    InvalidSelection,
    /// An event came that the current phase does not wait for.
    UnexpectedEvent,
}

/// What the surrounding program is asked to do next.
#[derive(Debug)]
pub enum Action {
    /// Create the configuration directory; answer `Done` or `Failed`.
    CreateConfigDir,
    /// Print the first-run welcome banner; answer `Done`.
    PrintBanner,
    /// Ask for the repository path; answer `Line`.
    PromptRepoPath,
    /// Persist a setting; answer `Done` or `Failed`.
    WriteSetting(ConfigFile, String),
    /// Remove a persisted setting; answer `Done` or `Failed`.
    RemoveSetting(ConfigFile),
    /// Resolve an executable name on the host; answer `Located`.
    Locate(String),
    /// Offer a single-choice menu, first item preselected; answer `Selected`.
    SelectEditor(Vec<String>),
    /// Ask for the name of another editor; answer `Line`.
    PromptEditorName,
    /// Print that setup is complete; answer `Done`.
    PrintSetupComplete,
    /// Ask for the idea summary; answer `Line`.
    PromptIdea,
    /// Run a program with one argument and wait for it, whatever its exit
    /// status; answer `Done`, or `Failed` when it could not be run.
    RunProcess(String, String),
    /// Commit and push the repository with a message; answer `Done` or `Failed`.
    CommitAndPush(String, String),
    /// The run is over.
    Finish,
    /// The run stops with an error.
    Abort(Failure),
}

/// The outcome of an action, handed back to the machine.
#[derive(Debug)]
pub enum Event {
    /// The action was carried out.
    Done,
    /// The action failed, with the cause.
    Failed(String),
    /// A line typed by the user, without its line end.
    Line(String),
    /// The result of resolving an executable.
    Located(Option<String>),
    /// The index chosen in a menu.
    Selected(usize),
}

} // verus!
