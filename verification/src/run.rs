//! A run, step by step. The run says what has to be done next; whoever
//! drives it does that and reports back what came of it.
//!
//! A run fetches the bugs, then the issues, once each, then hands out the
//! actions one by one, in the order of the bugs. A failure of any step ends
//! the run at once. Without bugs the run ends before the issues are
//! fetched.

use vstd::prelude::*;
use crate::endpoint::{
    issues_path, issues_path_of, planned_request, request_for, Request, RequestView, BUGS_PATH,
};
use crate::query::Param;
use crate::reconcile::{actions_for, reconcile};
use crate::record::{
    SourceRecord, SourceRecordView, SyncAction, SyncActionView, TargetRecord, TargetRecordView,
};
use crate::settings::{Settings, SettingsView};

verus! {

/// What went wrong in a run that was given up.
#[derive(Debug, Clone, Copy, PartialEq, Eq, Structural)]
pub enum Failure {
    /// The bugs or the issues could not be fetched.
    Fetch,
    /// An action could not be carried out.
    Mutation,
}

/// How a run ended.
#[derive(Debug, Clone, Copy, PartialEq, Eq, Structural)]
pub enum Outcome {
    /// Every action was handed out and carried out.
    Completed,
    /// The tracker had no bug for the query.
    NothingToSync,
    /// A step failed, and nothing was done after it.
    Aborted(Failure),
}

/// What the driver reports back.
#[derive(Debug, Clone, PartialEq, Eq)]
pub enum Event {
    /// The bugs that the tracker returned.
    Bugs(Vec<SourceRecord>),
    /// The issues that the destination holds.
    Issues(Vec<TargetRecord>),
    /// The action handed out was dealt with.
    Applied,
    /// The step handed out failed.
    Failed,
}

/// What an event is.
pub enum EventView {
    Bugs(Seq<SourceRecordView>),
    Issues(Seq<TargetRecordView>),
    Applied,
    Failed,
}

impl DeepView for Event {
    type V = EventView;

    open spec fn deep_view(&self) -> EventView {
        match self {
            Event::Bugs(bugs) => EventView::Bugs(bugs.deep_view()),
            Event::Issues(issues) => EventView::Issues(issues.deep_view()),
            Event::Applied => EventView::Applied,
            Event::Failed => EventView::Failed,
        }
    }
}

/// What the driver has to do next.
#[derive(Debug, Clone, PartialEq, Eq)]
pub enum Command {
    /// Fetch the bugs that the predicates select.
    FetchBugs { path: String, query: Vec<(String, String)> },
    /// Fetch all issues of the repository.
    FetchIssues { path: String },
    /// Report the action, and send the request where there is one.
    Apply { action: SyncAction, request: Option<Request> },
    /// Stop: the run is over.
    Finish { outcome: Outcome },
}

/// What a command is.
pub enum CommandView {
    FetchBugs { path: Seq<char>, query: Seq<Param> },
    FetchIssues { path: Seq<char> },
    Apply { action: SyncActionView, request: Option<RequestView> },
    Finish { outcome: Outcome },
}

impl DeepView for Command {
    type V = CommandView;

    open spec fn deep_view(&self) -> CommandView {
        match self {
            Command::FetchBugs { path, query } => CommandView::FetchBugs {
                path: path@,
                query: query.deep_view(),
            },
            Command::FetchIssues { path } => CommandView::FetchIssues { path: path@ },
            Command::Apply { action, request } => CommandView::Apply {
                action: action.deep_view(),
                request: request.deep_view(),
            },
            Command::Finish { outcome } => CommandView::Finish { outcome: *outcome },
        }
    }
}

/// How far a run has come.
#[derive(Debug, Clone, PartialEq, Eq)]
pub enum Phase {
    /// The bugs are being fetched.
    FetchingBugs,
    /// The issues are being fetched, for these bugs.
    FetchingIssues { bugs: Vec<SourceRecord> },
    /// The action at `next` is out; those before it are done.
    Applying { actions: Vec<SyncAction>, next: usize },
    /// The run is over.
    Done { outcome: Outcome },
}

/// What a phase is.
pub enum PhaseView {
    FetchingBugs,
    FetchingIssues { bugs: Seq<SourceRecordView> },
    Applying { actions: Seq<SyncActionView>, next: nat },
    Done { outcome: Outcome },
}

impl DeepView for Phase {
    type V = PhaseView;

    open spec fn deep_view(&self) -> PhaseView {
        match self {
            Phase::FetchingBugs => PhaseView::FetchingBugs,
            Phase::FetchingIssues { bugs } => PhaseView::FetchingIssues { bugs: bugs.deep_view() },
            Phase::Applying { actions, next } => PhaseView::Applying {
                actions: actions.deep_view(),
                next: *next as nat,
            },
            Phase::Done { outcome } => PhaseView::Done { outcome: *outcome },
        }
    }
}

/// A run: its settings and how far it has come.
#[derive(Debug, Clone, PartialEq, Eq)]
pub struct Run {
    pub settings: Settings,
    pub phase: Phase,
}

/// What a run is.
pub struct RunView {
    pub settings: SettingsView,
    pub phase: PhaseView,
}

impl DeepView for Run {
    type V = RunView;

    open spec fn deep_view(&self) -> RunView {
        RunView { settings: self.settings.deep_view(), phase: self.phase.deep_view() }
    }
}

/// The phase in which the action at `next` is out, or the end of the run
/// where no action is left.
pub open spec fn applying_from(actions: Seq<SyncActionView>, next: nat) -> PhaseView {
    if next < actions.len() {
        PhaseView::Applying { actions, next }
    } else {
        PhaseView::Done { outcome: Outcome::Completed }
    }
}

impl RunView {
    /// A run at its start.
    pub open spec fn start(settings: SettingsView) -> RunView {
        RunView { settings, phase: PhaseView::FetchingBugs }
    }

    /// What the driver has to do in this phase.
    pub open spec fn command(self) -> CommandView {
        match self.phase {
            PhaseView::FetchingBugs => CommandView::FetchBugs {
                path: BUGS_PATH@,
                query: self.settings.queryparams,
            },
            PhaseView::FetchingIssues { .. } => CommandView::FetchIssues {
                path: issues_path_of(self.settings.repopath),
            },
            PhaseView::Applying { actions, next } => if next < actions.len() {
                CommandView::Apply {
                    action: actions[next as int],
                    request: planned_request(
                        actions[next as int],
                        self.settings.repopath,
                        self.settings.preview,
                    ),
                }
            } else {
                CommandView::Finish { outcome: Outcome::Completed }
            },
            PhaseView::Done { outcome } => CommandView::Finish { outcome },
        }
    }

    /// The phase after an event. An event that does not answer the
    /// command that is out changes nothing.
    pub open spec fn next_phase(self, event: EventView) -> PhaseView {
        match (self.phase, event) {
            (PhaseView::FetchingBugs, EventView::Bugs(bugs)) => if bugs.len() == 0 {
                PhaseView::Done { outcome: Outcome::NothingToSync }
            } else {
                PhaseView::FetchingIssues { bugs }
            },
            (PhaseView::FetchingBugs, EventView::Failed) => PhaseView::Done {
                outcome: Outcome::Aborted(Failure::Fetch),
            },
            (PhaseView::FetchingIssues { bugs }, EventView::Issues(issues)) => applying_from(
                actions_for(bugs, issues, self.settings.labels),
                0,
            ),
            (PhaseView::FetchingIssues { .. }, EventView::Failed) => PhaseView::Done {
                outcome: Outcome::Aborted(Failure::Fetch),
            },
            (PhaseView::Applying { actions, next }, EventView::Applied) => applying_from(
                actions,
                next + 1,
            ),
            (PhaseView::Applying { .. }, EventView::Failed) => PhaseView::Done {
                outcome: Outcome::Aborted(Failure::Mutation),
            },
            _ => self.phase,
        }
    }

    /// The run after an event: the settings stay, the phase moves on.
    pub open spec fn advance(self, event: EventView) -> RunView {
        RunView { settings: self.settings, phase: self.next_phase(event) }
    }

    /// The run after a list of events, taken in order.
    pub open spec fn advance_all(self, events: Seq<EventView>) -> RunView
        decreases events.len(),
    {
        if events.len() == 0 {
            self
        } else {
            self.advance_all(events.drop_last()).advance(events.last())
        }
    }

    /// Whether the run is over.
    pub open spec fn is_done(self) -> bool {
        self.phase is Done
    }
}

/// `count` reports that an action was dealt with.
pub open spec fn all_applied(count: nat) -> Seq<EventView> {
    Seq::new(count, |i: int| EventView::Applied)
}

/// The settings with the preview switched to `preview`.
pub open spec fn with_preview(settings: SettingsView, preview: bool) -> SettingsView {
    SettingsView { preview, ..settings }
}

/// Taking in one event more is one more step.
pub proof fn lemma_advance_all_step(run: RunView, events: Seq<EventView>, k: int)
    requires
        0 <= k < events.len(),
    ensures
        run.advance_all(events.take(k + 1)) == run.advance_all(events.take(k)).advance(events[k]),
{
    assert(events.take(k + 1).drop_last() =~= events.take(k));
}

/// A run that is over stays as it is, whatever is reported to it.
pub proof fn lemma_done_is_final(run: RunView, events: Seq<EventView>)
    requires
        run.is_done(),
    ensures
        run.advance_all(events) == run,
    decreases events.len(),
{
    if events.len() > 0 {
        lemma_done_is_final(run, events.drop_last());
    }
}

/// Without bugs the run is over at once: the first command fetches the
/// bugs, and whatever is reported after an empty list of bugs, the command
/// is to stop. The issues are never fetched and nothing is ever sent.
pub proof fn lemma_no_bugs_no_destination_calls(settings: SettingsView, events: Seq<EventView>)
    requires
        events.len() >= 1,
        events[0] == EventView::Bugs(Seq::empty()),
    ensures
        RunView::start(settings).command() is FetchBugs,
        forall|k: int|
            1 <= k <= events.len() ==> #[trigger] RunView::start(settings).advance_all(
                events.take(k),
            ).command() == (CommandView::Finish { outcome: Outcome::NothingToSync }),
{
    let start = RunView::start(settings);
    let over = RunView { settings, phase: PhaseView::Done { outcome: Outcome::NothingToSync } };
    assert forall|k: int| 1 <= k <= events.len() implies start.advance_all(events.take(k))
        == over by {
        lemma_no_bugs_ends_run(settings, events, k);
    }
}

/// After an empty list of bugs the run is over and stays so.
proof fn lemma_no_bugs_ends_run(settings: SettingsView, events: Seq<EventView>, k: int)
    requires
        1 <= k <= events.len(),
        events[0] == EventView::Bugs(Seq::empty()),
    ensures
        RunView::start(settings).advance_all(events.take(k)) == (RunView {
            settings,
            phase: PhaseView::Done { outcome: Outcome::NothingToSync },
        }),
    decreases k,
{
    let start = RunView::start(settings);
    lemma_advance_all_step(start, events, k - 1);
    if k == 1 {
        assert(events.take(0) =~= Seq::<EventView>::empty());
        assert(start.advance_all(events.take(0)) == start);
    } else {
        lemma_no_bugs_ends_run(settings, events, k - 1);
    }
}

/// In a preview no command carries a request, whatever the phase and
/// whatever the action; outside a preview every action comes with one.
pub proof fn lemma_preview_sends_nothing(run: RunView)
    ensures
        run.command() matches CommandView::Apply { request, .. } ==> (request is None
            <==> run.settings.preview),
{
}

/// The preview changes nothing but the requests: the same events lead
/// through the same phases, and the same actions are handed out.
pub proof fn lemma_preview_keeps_actions(settings: SettingsView, events: Seq<EventView>)
    ensures
        RunView::start(with_preview(settings, true)).advance_all(events).phase == RunView::start(
            with_preview(settings, false),
        ).advance_all(events).phase,
        match RunView::start(with_preview(settings, false)).advance_all(events).command() {
            CommandView::Apply { action, .. } => RunView::start(
                with_preview(settings, true),
            ).advance_all(events).command() == (CommandView::Apply { action, request: None }),
            other => RunView::start(with_preview(settings, true)).advance_all(events).command()
                == other,
        },
    decreases events.len(),
{
    let dry = RunView::start(with_preview(settings, true));
    let wet = RunView::start(with_preview(settings, false));
    lemma_settings_stay(dry, events);
    lemma_settings_stay(wet, events);
    if events.len() > 0 {
        lemma_preview_keeps_actions(settings, events.drop_last());
    }
}

/// No event changes the settings.
pub proof fn lemma_settings_stay(run: RunView, events: Seq<EventView>)
    ensures
        run.advance_all(events).settings == run.settings,
    decreases events.len(),
{
    if events.len() > 0 {
        lemma_settings_stay(run, events.drop_last());
    }
}

/// A failure ends the run at once: a failed fetch as a fetch failure, a
/// failed action as a mutation failure, and whatever is reported after it,
/// the command is to stop.
pub proof fn lemma_failure_ends_run(run: RunView, later: Seq<EventView>)
    requires
        !run.is_done(),
    ensures
        run.advance(EventView::Failed).phase == (PhaseView::Done {
            outcome: Outcome::Aborted(
                if run.phase is Applying {
                    Failure::Mutation
                } else {
                    Failure::Fetch
                },
            ),
        }),
        run.advance(EventView::Failed).advance_all(later) == run.advance(EventView::Failed),
        run.advance(EventView::Failed).advance_all(later).command() is Finish,
{
    lemma_done_is_final(run.advance(EventView::Failed), later);
}

/// With bugs, the issues are fetched next, and once they are there the
/// actions are handed out one by one, in the order of the bugs: after
/// `done` of them the action of the bug at `done` is out, and after all of
/// them the run is complete.
pub proof fn lemma_actions_in_order(
    settings: SettingsView,
    bugs: Seq<SourceRecordView>,
    issues: Seq<TargetRecordView>,
    done: nat,
)
    requires
        bugs.len() > 0,
        done <= bugs.len(),
    ensures
        RunView::start(settings).advance(EventView::Bugs(bugs)).command()
            == (CommandView::FetchIssues { path: issues_path_of(settings.repopath) }),
        RunView::start(settings).advance(EventView::Bugs(bugs)).advance(
            EventView::Issues(issues),
        ).advance_all(all_applied(done)).command() == (if done < bugs.len() {
            CommandView::Apply {
                action: actions_for(bugs, issues, settings.labels)[done as int],
                request: planned_request(
                    actions_for(bugs, issues, settings.labels)[done as int],
                    settings.repopath,
                    settings.preview,
                ),
            }
        } else {
            CommandView::Finish { outcome: Outcome::Completed }
        }),
{
    lemma_applied_reaches(settings, bugs, issues, done);
}

/// The phase after `done` actions were dealt with.
proof fn lemma_applied_reaches(
    settings: SettingsView,
    bugs: Seq<SourceRecordView>,
    issues: Seq<TargetRecordView>,
    done: nat,
)
    requires
        bugs.len() > 0,
        done <= bugs.len(),
    ensures
        RunView::start(settings).advance(EventView::Bugs(bugs)).advance(
            EventView::Issues(issues),
        ).advance_all(all_applied(done)) == (RunView {
            settings,
            phase: applying_from(actions_for(bugs, issues, settings.labels), done),
        }),
    decreases done,
{
    let fetched = RunView::start(settings).advance(EventView::Bugs(bugs)).advance(
        EventView::Issues(issues),
    );
    if done > 0 {
        lemma_applied_reaches(settings, bugs, issues, (done - 1) as nat);
        assert(all_applied(done).drop_last() =~= all_applied((done - 1) as nat));
    }
}

impl Run {
    /// A run at its start: the bugs are to be fetched.
    pub fn start(settings: Settings) -> (run: Run)
        ensures
            run.deep_view() == RunView::start(settings.deep_view()),
    {
        Run { settings, phase: Phase::FetchingBugs }
    }

    /// What the driver has to do now.
    pub fn command(&self) -> (command: Command)
        ensures
            command.deep_view() == self.deep_view().command(),
    {
        match &self.phase {
            Phase::FetchingBugs => Command::FetchBugs {
                path: String::from_str(BUGS_PATH),
                query: copy_params(&self.settings.queryparams),
            },
            Phase::FetchingIssues { .. } => Command::FetchIssues {
                path: issues_path(self.settings.repopath.as_str()),
            },
            Phase::Applying { actions, next } => {
                if *next < actions.len() {
                    let action = actions[*next].duplicate();
                    let request = request_for(
                        &action,
                        self.settings.repopath.as_str(),
                        self.settings.preview,
                    );
                    assert(actions.deep_view()[*next as int] == actions@[*next as int].deep_view());
                    Command::Apply { action, request }
                } else {
                    Command::Finish { outcome: Outcome::Completed }
                }
            },
            Phase::Done { outcome } => Command::Finish { outcome: *outcome },
        }
    }

    /// Takes in what the driver reports and moves on.
    pub fn advance(self, event: Event) -> (run: Run)
        ensures
            run.deep_view() == self.deep_view().advance(event.deep_view()),
    {
        let Run { settings, phase } = self;
        let phase = match phase {
            Phase::FetchingBugs => match event {
                Event::Bugs(bugs) => if bugs.len() == 0 {
                    Phase::Done { outcome: Outcome::NothingToSync }
                } else {
                    Phase::FetchingIssues { bugs }
                },
                Event::Failed => Phase::Done { outcome: Outcome::Aborted(Failure::Fetch) },
                _ => Phase::FetchingBugs,
            },
            Phase::FetchingIssues { bugs } => match event {
                Event::Issues(issues) => {
                    let actions = reconcile(&bugs, &issues, &settings.labels);
                    applying(actions, 0)
                },
                Event::Failed => Phase::Done { outcome: Outcome::Aborted(Failure::Fetch) },
                _ => Phase::FetchingIssues { bugs },
            },
            Phase::Applying { actions, next } => match event {
                Event::Applied => if next < actions.len() {
                    applying(actions, next + 1)
                } else {
                    Phase::Done { outcome: Outcome::Completed }
                },
                Event::Failed => Phase::Done { outcome: Outcome::Aborted(Failure::Mutation) },
                _ => Phase::Applying { actions, next },
            },
            Phase::Done { outcome } => Phase::Done { outcome },
        };
        Run { settings, phase }
    }
}

/// The phase in which the action at `next` is out, or the end of the run.
fn applying(actions: Vec<SyncAction>, next: usize) -> (phase: Phase)
    ensures
        phase.deep_view() == applying_from(actions.deep_view(), next as nat),
{
    if next < actions.len() {
        Phase::Applying { actions, next }
    } else {
        Phase::Done { outcome: Outcome::Completed }
    }
}

/// A copy of a list of predicates.
fn copy_params(params: &Vec<(String, String)>) -> (copy: Vec<(String, String)>)
    ensures
        copy.deep_view() == params.deep_view(),
{
    let mut copy: Vec<(String, String)> = Vec::new();
    let mut i: usize = 0;
    while i < params.len()
        invariant
            i <= params.len(),
            copy.len() == i,
            forall|j: int| 0 <= j < i ==> copy@[j].deep_view() == params@[j].deep_view(),
        decreases params.len() - i,
    {
        let pair = (params[i].0.clone(), params[i].1.clone());
        copy.push(pair);
        i += 1;
    }
    assert(copy.deep_view() =~= params.deep_view());
    copy
}

} // verus!
