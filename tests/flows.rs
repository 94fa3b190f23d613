use eureka::eureka::{editor_menu, notes_path};
use eureka::{Action, ConfigFile, EditorCandidate, Event, Eureka, Failure, Phase, RunState};

fn s(text: &str) -> String {
    text.to_string()
}

fn both_present() -> Eureka {
    Eureka::new(Some(s("/home/user/ideas")), Some(s("/usr/bin/vim")), true)
}

#[test]
fn run_state_truth_table() {
    assert_eq!(RunState::classify(false, false), RunState::BothMissing);
    assert_eq!(RunState::classify(false, true), RunState::RepoMissing);
    assert_eq!(RunState::classify(true, false), RunState::EditorMissing);
    assert_eq!(RunState::classify(true, true), RunState::BothPresent);
    assert!(RunState::BothMissing.is_first_time_run());
    assert!(!RunState::RepoMissing.is_first_time_run());
    assert!(RunState::EditorMissing.is_config_missing());
    assert!(!RunState::BothPresent.is_config_missing());
}

#[test]
fn run_dispatches_on_each_state() {
    let mut e = Eureka::new(None, None, false);
    assert!(matches!(e.run(), Action::CreateConfigDir));
    let mut e = Eureka::new(None, None, true);
    assert!(matches!(e.run(), Action::PrintBanner));
    let mut e = Eureka::new(None, Some(s("/usr/bin/vim")), true);
    assert!(matches!(e.run(), Action::PromptRepoPath));
    let mut e = Eureka::new(Some(s("/r")), None, true);
    assert!(matches!(e.run(), Action::Locate(ref n) if n == "vim"));
    let mut e = both_present();
    assert!(matches!(e.run(), Action::PromptIdea));
    assert!(matches!(e.phase, Phase::AwaitIdea));
}

#[test]
fn first_run_creates_dir_and_prints_banner_once() {
    let mut e = Eureka::new(None, None, false);
    let mut actions = vec![e.run()];
    let events = vec![
        Event::Done,
        Event::Done,
        Event::Line(s("/home/user/ideas")),
        Event::Done,
        Event::Located(Some(s("/usr/bin/vim"))),
        Event::Located(None),
        Event::Located(Some(s("/usr/bin/micro"))),
        Event::Selected(1),
        Event::Done,
        Event::Done,
    ];
    for ev in events {
        actions.push(e.step(ev));
    }
    let created = actions.iter().filter(|a| matches!(a, Action::CreateConfigDir)).count();
    let banners = actions.iter().filter(|a| matches!(a, Action::PrintBanner)).count();
    assert_eq!(created, 1);
    assert_eq!(banners, 1);
    assert!(e.config_dir_exists);
    assert_eq!(e.repo, Some(s("/home/user/ideas")));
    assert_eq!(e.editor, Some(s("/usr/bin/micro")));
    assert!(matches!(actions[9], Action::PrintSetupComplete));
    assert!(matches!(actions[10], Action::Finish));
}

#[test]
fn repo_prompt_retries_on_empty_input() {
    let mut e = Eureka::new(None, Some(s("/usr/bin/vim")), true);
    assert!(matches!(e.run(), Action::PromptRepoPath));
    let mut reprompts = 0;
    let mut last = Action::Finish;
    for line in ["", "", "/home/user/ideas"] {
        last = e.step(Event::Line(s(line)));
        if matches!(last, Action::PromptRepoPath) {
            reprompts += 1;
        }
    }
    assert_eq!(reprompts, 2);
    assert!(
        matches!(last, Action::WriteSetting(ConfigFile::Repo, ref v) if v == "/home/user/ideas")
    );
    assert!(matches!(e.step(Event::Done), Action::PrintSetupComplete));
    assert_eq!(e.repo, Some(s("/home/user/ideas")));
}

#[test]
fn no_default_editor_offers_only_other() {
    let mut e = Eureka::new(Some(s("/r")), None, true);
    assert!(matches!(e.run(), Action::Locate(ref n) if n == "vim"));
    assert!(matches!(e.step(Event::Located(None)), Action::Locate(ref n) if n == "nano"));
    assert!(matches!(e.step(Event::Located(None)), Action::Locate(ref n) if n == "micro"));
    match e.step(Event::Located(None)) {
        Action::SelectEditor(labels) => {
            assert_eq!(labels, vec![s("Other (provide name, e.g. 'emacs')")]);
        }
        other => panic!("unexpected action {:?}", other),
    }
    assert!(matches!(e.step(Event::Selected(0)), Action::PromptEditorName));
    assert!(matches!(e.step(Event::Line(s("emacs"))), Action::Locate(ref n) if n == "emacs"));
    assert!(matches!(
        e.step(Event::Located(Some(s("/usr/bin/emacs")))),
        Action::WriteSetting(ConfigFile::Editor, ref p) if p == "/usr/bin/emacs"
    ));
    assert!(matches!(e.step(Event::Done), Action::PrintSetupComplete));
    assert_eq!(e.editor, Some(s("/usr/bin/emacs")));
}

#[test]
fn found_editor_is_written_with_its_path() {
    let mut e = Eureka::new(Some(s("/r")), None, true);
    e.run();
    e.step(Event::Located(None));
    e.step(Event::Located(Some(s("/bin/nano"))));
    match e.step(Event::Located(Some(s("/opt/micro")))) {
        Action::SelectEditor(labels) => {
            assert_eq!(labels, vec![s("nano"), s("micro"), s("Other (provide name, e.g. 'emacs')")]);
        }
        other => panic!("unexpected action {:?}", other),
    }
    assert!(matches!(
        e.step(Event::Selected(0)),
        Action::WriteSetting(ConfigFile::Editor, ref p) if p == "/bin/nano"
    ));
}

#[test]
fn other_editor_not_found_aborts() {
    let mut e = Eureka::new(Some(s("/r")), None, true);
    e.run();
    e.step(Event::Located(None));
    e.step(Event::Located(None));
    e.step(Event::Located(None));
    e.step(Event::Selected(0));
    e.step(Event::Line(s("ed")));
    assert!(matches!(
        e.step(Event::Located(None)),
        Action::Abort(Failure::EditorNotFound(ref n)) if n == "ed"
    ));
    assert!(e.editor.is_none());
}

#[test]
fn selection_out_of_menu_aborts() {
    let mut e = Eureka::new(Some(s("/r")), None, true);
    e.run();
    e.step(Event::Located(None));
    e.step(Event::Located(None));
    e.step(Event::Located(None));
    assert!(matches!(e.step(Event::Selected(1)), Action::Abort(Failure::InvalidSelection)));
}

#[test]
fn capture_runs_editor_then_commits_summary() {
    let mut e = both_present();
    assert!(matches!(e.run(), Action::PromptIdea));
    assert!(matches!(
        e.step(Event::Line(s("Build a thing"))),
        Action::RunProcess(ref bin, ref arg)
            if bin == "/usr/bin/vim" && arg == "/home/user/ideas/README.md"
    ));
    assert!(matches!(
        e.step(Event::Done),
        Action::CommitAndPush(ref repo, ref msg)
            if repo == "/home/user/ideas" && msg == "Build a thing"
    ));
    assert!(matches!(e.step(Event::Done), Action::Finish));
}

#[test]
fn capture_accepts_empty_summary() {
    let mut e = both_present();
    e.run();
    e.step(Event::Line(s("")));
    assert!(matches!(e.step(Event::Done), Action::CommitAndPush(_, ref msg) if msg.is_empty()));
}

#[test]
fn capture_editor_failure_aborts() {
    let mut e = both_present();
    e.run();
    e.step(Event::Line(s("x")));
    assert!(matches!(
        e.step(Event::Failed(s("no such file"))),
        Action::Abort(Failure::EditorLaunch(ref f, ref b, ref c))
            if f == "/home/user/ideas/README.md" && b == "/usr/bin/vim" && c == "no such file"
    ));
}

#[test]
fn capture_commit_failure_aborts() {
    let mut e = both_present();
    e.run();
    e.step(Event::Line(s("x")));
    e.step(Event::Done);
    assert!(matches!(
        e.step(Event::Failed(s("rejected"))),
        Action::Abort(Failure::CommitPush(ref c)) if c == "rejected"
    ));
}

#[test]
fn capture_without_settings_aborts() {
    let mut e = Eureka::new(None, Some(s("/usr/bin/vim")), true);
    e.phase = Phase::AwaitIdea;
    assert!(matches!(
        e.step(Event::Line(s("x"))),
        Action::Abort(Failure::MissingSetting(ConfigFile::Repo))
    ));
    let mut e = Eureka::new(Some(s("/r")), None, true);
    e.phase = Phase::AwaitIdea;
    assert!(matches!(
        e.step(Event::Line(s("x"))),
        Action::Abort(Failure::MissingSetting(ConfigFile::Editor))
    ));
}

#[test]
fn clear_absent_is_noop() {
    let mut e = Eureka::new(None, None, true);
    assert!(matches!(e.clear_repo(), Action::Finish));
    assert!(matches!(e.clear_editor(), Action::Finish));
    assert!(e.repo.is_none() && e.editor.is_none());
}

#[test]
fn clear_present_removes_setting() {
    let mut e = both_present();
    assert!(matches!(e.clear_repo(), Action::RemoveSetting(ConfigFile::Repo)));
    assert!(matches!(e.step(Event::Done), Action::Finish));
    assert!(e.repo.is_none());
    assert_eq!(e.editor, Some(s("/usr/bin/vim")));
    assert_eq!(e.run_state(), RunState::RepoMissing);
    assert!(matches!(e.clear_editor(), Action::RemoveSetting(ConfigFile::Editor)));
    assert!(matches!(e.step(Event::Done), Action::Finish));
    assert_eq!(e.run_state(), RunState::BothMissing);
}

#[test]
fn clear_remove_failure_aborts() {
    let mut e = both_present();
    e.clear_editor();
    assert!(matches!(
        e.step(Event::Failed(s("denied"))),
        Action::Abort(Failure::RemoveSetting(ConfigFile::Editor, ref c)) if c == "denied"
    ));
    assert!(e.editor.is_some());
}

#[test]
fn view_without_repo_aborts() {
    let mut e = Eureka::new(None, Some(s("/usr/bin/vim")), true);
    assert!(matches!(
        e.open_idea_file(),
        Action::Abort(Failure::MissingSetting(ConfigFile::Repo))
    ));
    assert!(matches!(e.phase, Phase::Finished));
}

#[test]
fn view_runs_pager_on_notes() {
    let mut e = both_present();
    assert!(matches!(e.open_idea_file(), Action::Locate(ref n) if n == "less"));
    assert!(matches!(
        e.step(Event::Located(Some(s("/usr/bin/less")))),
        Action::RunProcess(ref b, ref a) if b == "/usr/bin/less" && a == "/home/user/ideas/README.md"
    ));
    assert!(matches!(e.step(Event::Done), Action::Finish));
}

#[test]
fn view_pager_missing_or_failing_aborts() {
    let mut e = both_present();
    e.open_idea_file();
    assert!(matches!(e.step(Event::Located(None)), Action::Abort(Failure::PagerNotFound)));
    let mut e = both_present();
    e.open_idea_file();
    e.step(Event::Located(Some(s("/usr/bin/less"))));
    assert!(matches!(
        e.step(Event::Failed(s("boom"))),
        Action::Abort(Failure::PagerLaunch(ref f, ref c))
            if f == "/home/user/ideas/README.md" && c == "boom"
    ));
}

#[test]
fn setup_failures_abort() {
    let mut e = Eureka::new(None, None, false);
    e.run();
    assert!(matches!(
        e.step(Event::Failed(s("read-only"))),
        Action::Abort(Failure::ConfigDir(ref c)) if c == "read-only"
    ));
    let mut e = Eureka::new(None, Some(s("/usr/bin/vim")), true);
    e.run();
    e.step(Event::Line(s("/r")));
    assert!(matches!(
        e.step(Event::Failed(s("full"))),
        Action::Abort(Failure::WriteSetting(ConfigFile::Repo, ref c)) if c == "full"
    ));
    assert!(e.repo.is_none());
}

#[test]
fn unexpected_event_aborts() {
    let mut e = both_present();
    assert!(matches!(e.step(Event::Done), Action::Abort(Failure::UnexpectedEvent)));
    e.run();
    assert!(matches!(e.step(Event::Selected(0)), Action::Abort(Failure::UnexpectedEvent)));
}

#[test]
fn notes_path_and_menu() {
    assert_eq!(notes_path(&s("/a/b")), s("/a/b/README.md"));
    let cands = vec![EditorCandidate { name: s("vim"), path: s("/usr/bin/vim") }];
    assert_eq!(editor_menu(&cands), vec![s("vim"), s("Other (provide name, e.g. 'emacs')")]);
    assert_eq!(editor_menu(&vec![]), vec![s("Other (provide name, e.g. 'emacs')")]);
}
