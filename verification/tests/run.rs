use bz2gh::endpoint::{issue_path, issues_path, request_for, Method, Request};
use bz2gh::record::{SourceRecord, SyncAction, TargetRecord};
use bz2gh::run::{Command, Event, Failure, Outcome, Phase, Run};
use bz2gh::settings::Settings;

fn settings(preview: bool) -> Settings {
    let query = vec!["keywords=topcrash".to_string()];
    let labels = vec!["android".to_string()];
    Settings::from_args(Some("key"), Some("orgs/Example"), preview, Some(&query), Some(&labels))
        .unwrap()
}

fn bug(id: u32, summary: &str) -> SourceRecord {
    SourceRecord { id, summary: summary.to_string() }
}

fn issue(number: u32, title: &str) -> TargetRecord {
    TargetRecord { number, title: title.to_string(), body: String::new(), labels: Vec::new() }
}

fn create(title: &str) -> SyncAction {
    SyncAction::Create {
        new_title: title.to_string(),
        new_body: String::new(),
        new_labels: Vec::new(),
    }
}

fn update(number: u32, title: &str) -> SyncAction {
    SyncAction::Update {
        target_number: number,
        new_title: title.to_string(),
        new_body: String::new(),
        new_labels: Vec::new(),
    }
}

#[test]
fn paths_of_the_destination() {
    assert_eq!(issues_path("orgs/Example"), "repos/orgs/Example/issues");
    assert_eq!(issue_path("orgs/Example", 42), "repos/orgs/Example/issues/42");
    assert_eq!(issues_path(""), "repos//issues");
    assert_eq!(issue_path("a", 0), "repos/a/issues/0");
}

#[test]
fn create_is_posted_to_the_issues() {
    assert_eq!(
        request_for(&create("t [1]"), "o/r", false),
        Some(Request { method: Method::Post, path: "repos/o/r/issues".to_string() })
    );
}

#[test]
fn update_is_patched_to_the_issue() {
    assert_eq!(
        request_for(&update(42, "t [1]"), "o/r", false),
        Some(Request { method: Method::Patch, path: "repos/o/r/issues/42".to_string() })
    );
}

#[test]
fn preview_sends_nothing() {
    assert_eq!(request_for(&create("t [1]"), "o/r", true), None);
    assert_eq!(request_for(&update(42, "t [1]"), "o/r", true), None);
}

#[test]
fn run_starts_by_fetching_the_bugs() {
    let run = Run::start(settings(false));
    assert_eq!(run.phase, Phase::FetchingBugs);
    assert_eq!(
        run.command(),
        Command::FetchBugs {
            path: "rest/bug".to_string(),
            query: vec![("keywords".to_string(), "topcrash".to_string())],
        }
    );
}

#[test]
fn run_without_bugs_stops_before_the_issues() {
    let mut run = Run::start(settings(false)).advance(Event::Bugs(Vec::new()));
    assert_eq!(run.command(), Command::Finish { outcome: Outcome::NothingToSync });
    for event in [
        Event::Issues(vec![issue(1, "a [1]")]),
        Event::Applied,
        Event::Failed,
        Event::Bugs(vec![bug(1, "a")]),
    ] {
        run = run.advance(event);
        assert_eq!(run.command(), Command::Finish { outcome: Outcome::NothingToSync });
    }
}

#[test]
fn run_with_bugs_fetches_the_issues_once_and_applies_in_order() {
    let run = Run::start(settings(false)).advance(Event::Bugs(vec![bug(1, "one"), bug(2, "two")]));
    assert_eq!(run.command(), Command::FetchIssues { path: "repos/orgs/Example/issues".to_string() });
    let run = run.advance(Event::Issues(vec![issue(42, "two [2]")]));
    assert_eq!(
        run.command(),
        Command::Apply {
            action: SyncAction::Create {
                new_title: "one [1]".to_string(),
                new_body: "https://bugzilla.mozilla.org/show_bug.cgi?id=1".to_string(),
                new_labels: vec!["android".to_string()],
            },
            request: Some(Request {
                method: Method::Post,
                path: "repos/orgs/Example/issues".to_string(),
            }),
        }
    );
    let run = run.advance(Event::Applied);
    assert_eq!(
        run.command(),
        Command::Apply {
            action: SyncAction::Update {
                target_number: 42,
                new_title: "two [2]".to_string(),
                new_body: "https://bugzilla.mozilla.org/show_bug.cgi?id=2".to_string(),
                new_labels: vec!["android".to_string()],
            },
            request: Some(Request {
                method: Method::Patch,
                path: "repos/orgs/Example/issues/42".to_string(),
            }),
        }
    );
    let run = run.advance(Event::Applied);
    assert_eq!(run.command(), Command::Finish { outcome: Outcome::Completed });
    assert_eq!(run.phase, Phase::Done { outcome: Outcome::Completed });
}

#[test]
fn preview_run_reports_the_same_actions_without_requests() {
    let bugs = vec![bug(1, "one"), bug(2, "two")];
    let issues = vec![issue(42, "two [2]")];
    let mut dry = Run::start(settings(true))
        .advance(Event::Bugs(bugs.clone()))
        .advance(Event::Issues(issues.clone()));
    let mut wet =
        Run::start(settings(false)).advance(Event::Bugs(bugs)).advance(Event::Issues(issues));
    let mut seen = 0;
    loop {
        match (dry.command(), wet.command()) {
            (
                Command::Apply { action: reported, request: none },
                Command::Apply { action: sent, request: some },
            ) => {
                assert_eq!(reported, sent);
                assert_eq!(none, None);
                assert!(some.is_some());
                seen += 1;
            }
            (Command::Finish { outcome: a }, Command::Finish { outcome: b }) => {
                assert_eq!(a, Outcome::Completed);
                assert_eq!(b, Outcome::Completed);
                break;
            }
            other => panic!("the two runs differ: {:?}", other),
        }
        dry = dry.advance(Event::Applied);
        wet = wet.advance(Event::Applied);
    }
    assert_eq!(seen, 2);
}

#[test]
fn failed_fetch_of_bugs_ends_the_run() {
    let run = Run::start(settings(false)).advance(Event::Failed);
    assert_eq!(run.command(), Command::Finish { outcome: Outcome::Aborted(Failure::Fetch) });
    let run = run.advance(Event::Bugs(vec![bug(1, "one")]));
    assert_eq!(run.command(), Command::Finish { outcome: Outcome::Aborted(Failure::Fetch) });
}

#[test]
fn failed_fetch_of_issues_ends_the_run() {
    let run =
        Run::start(settings(false)).advance(Event::Bugs(vec![bug(1, "one")])).advance(Event::Failed);
    assert_eq!(run.command(), Command::Finish { outcome: Outcome::Aborted(Failure::Fetch) });
    let run = run.advance(Event::Issues(Vec::new()));
    assert_eq!(run.command(), Command::Finish { outcome: Outcome::Aborted(Failure::Fetch) });
}

#[test]
fn failed_action_ends_the_run() {
    let run = Run::start(settings(false))
        .advance(Event::Bugs(vec![bug(1, "one"), bug(2, "two")]))
        .advance(Event::Issues(Vec::new()))
        .advance(Event::Failed);
    assert_eq!(run.command(), Command::Finish { outcome: Outcome::Aborted(Failure::Mutation) });
    let run = run.advance(Event::Applied);
    assert_eq!(run.command(), Command::Finish { outcome: Outcome::Aborted(Failure::Mutation) });
}

#[test]
fn event_that_answers_nothing_changes_nothing() {
    let run = Run::start(settings(false));
    let same = run.clone().advance(Event::Applied);
    assert_eq!(same, run);
    let same = run.clone().advance(Event::Issues(Vec::new()));
    assert_eq!(same, run);
    let waiting = run.advance(Event::Bugs(vec![bug(1, "one")]));
    assert_eq!(waiting.clone().advance(Event::Applied), waiting);
    assert_eq!(waiting.clone().advance(Event::Bugs(Vec::new())), waiting);
    let applying = waiting.advance(Event::Issues(Vec::new()));
    assert_eq!(applying.clone().advance(Event::Bugs(Vec::new())), applying);
    assert_eq!(applying.clone().advance(Event::Issues(Vec::new())), applying);
}

#[test]
fn settings_stay_through_the_run() {
    let start = settings(true);
    let run = Run::start(start.clone())
        .advance(Event::Bugs(vec![bug(1, "one")]))
        .advance(Event::Issues(Vec::new()))
        .advance(Event::Applied);
    assert_eq!(run.settings, start);
}

#[test]
fn phase_without_an_action_left_is_complete() {
    let run = Run {
        settings: settings(false),
        phase: Phase::Applying { actions: vec![create("t [1]")], next: 1 },
    };
    assert_eq!(run.command(), Command::Finish { outcome: Outcome::Completed });
    let run = run.advance(Event::Applied);
    assert_eq!(run.phase, Phase::Done { outcome: Outcome::Completed });
}
