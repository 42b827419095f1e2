//! Reconciliation: which issue, if any, mirrors a bug, and what has to be
//! sent to the destination for it.

use vstd::prelude::*;
use crate::decimal::{decimal, push_decimal};
use crate::key::{correlation_key, embed, title_matches};
use crate::text::occurs_at;
use crate::record::{
    copy_labels, SourceRecord, SourceRecordView, SyncAction, SyncActionView, TargetRecord,
    TargetRecordView,
};

verus! {

/// Where the tracker is reached.
pub const TRACKER_URL: &'static str = "https://bugzilla.mozilla.org";

/// The path of a bug's page on the tracker, the bug's identifier left off.
pub const BUG_PAGE: &'static str = "/show_bug.cgi?id=";

/// The issue at `at` is the first one, in the order of `issues`, whose
/// title carries the key of the bug `id`.
pub open spec fn is_first_match(issues: Seq<TargetRecordView>, id: nat, at: int) -> bool {
    &&& 0 <= at < issues.len()
    &&& title_matches(issues[at].title, id)
    &&& forall|k: int| 0 <= k < at ==> !title_matches(#[trigger] issues[k].title, id)
}

/// The place of the issue that mirrors the bug `id`: the first whose
/// title carries the bug's key. Later issues with the key are not looked at.
pub open spec fn first_match(issues: Seq<TargetRecordView>, id: nat) -> Option<int> {
    if exists|at: int| is_first_match(issues, id, at) {
        Some(choose|at: int| is_first_match(issues, id, at))
    } else {
        None
    }
}

/// The title of the issue that mirrors `bug`: the summary, a blank, the key.
pub open spec fn issue_title(bug: SourceRecordView) -> Seq<char> {
    bug.summary + seq![' '] + correlation_key(bug.id)
}

/// The body of the issue that mirrors the bug `id`: the address of the
/// bug's page on the tracker.
pub open spec fn issue_body(id: nat) -> Seq<char> {
    TRACKER_URL@ + BUG_PAGE@ + decimal(id)
}

/// The action for one bug: amend the issue that mirrors it, or create one
/// where none does. Title, body and labels are the same either way.
pub open spec fn action_for(
    bug: SourceRecordView,
    issues: Seq<TargetRecordView>,
    labels: Seq<Seq<char>>,
) -> SyncActionView {
    match first_match(issues, bug.id) {
        Some(at) => SyncActionView::Update {
            target_number: issues[at].number,
            new_title: issue_title(bug),
            new_body: issue_body(bug.id),
            new_labels: labels,
        },
        None => SyncActionView::Create {
            new_title: issue_title(bug),
            new_body: issue_body(bug.id),
            new_labels: labels,
        },
    }
}

/// The actions for a list of bugs: one for each, in the order of the bugs.
pub open spec fn actions_for(
    bugs: Seq<SourceRecordView>,
    issues: Seq<TargetRecordView>,
    labels: Seq<Seq<char>>,
) -> Seq<SyncActionView> {
    Seq::new(bugs.len(), |i: int| action_for(bugs[i], issues, labels))
}

/// At most one place is the first match.
pub proof fn lemma_first_match_unique(issues: Seq<TargetRecordView>, id: nat, at: int)
    requires
        is_first_match(issues, id, at),
    ensures
        first_match(issues, id) == Some(at),
{
    let found = choose|k: int| is_first_match(issues, id, k);
    if found < at {
        assert(!title_matches(issues[found].title, id));
    } else if at < found {
        assert(!title_matches(issues[at].title, id));
    }
}

/// Where no title carries the key, there is no first match.
pub proof fn lemma_first_match_none(issues: Seq<TargetRecordView>, id: nat)
    requires
        forall|k: int| 0 <= k < issues.len() ==> !title_matches(#[trigger] issues[k].title, id),
    ensures
        first_match(issues, id) is None,
{
}

/// An issue is amended only where its title carries the bug's key, and it
/// is the first such issue; an issue is created only where no title does.
pub proof fn lemma_action_respects_matches(
    bug: SourceRecordView,
    issues: Seq<TargetRecordView>,
    labels: Seq<Seq<char>>,
)
    ensures
        match action_for(bug, issues, labels) {
            SyncActionView::Update { target_number, .. } => exists|at: int|
                is_first_match(issues, bug.id, at) && issues[at].number == target_number,
            SyncActionView::Create { .. } => forall|k: int|
                0 <= k < issues.len() ==> !title_matches(#[trigger] issues[k].title, bug.id),
        },
        action_for(bug, issues, labels).title() == issue_title(bug),
        action_for(bug, issues, labels).body() == issue_body(bug.id),
        action_for(bug, issues, labels).labels() == labels,
{
    if first_match(issues, bug.id) is None {
        assert forall|k: int| 0 <= k < issues.len() implies !title_matches(
            #[trigger] issues[k].title,
            bug.id,
        ) by {
            if title_matches(issues[k].title, bug.id) {
                lemma_some_match_has_first(issues, bug.id, k);
            }
        }
    }
}

/// Where some title carries the key, one of them is the first.
proof fn lemma_some_match_has_first(issues: Seq<TargetRecordView>, id: nat, k: int)
    requires
        0 <= k < issues.len(),
        title_matches(issues[k].title, id),
    ensures
        exists|at: int| is_first_match(issues, id, at),
    decreases k,
{
    if exists|j: int| 0 <= j < k && title_matches(#[trigger] issues[j].title, id) {
        let j = choose|j: int| 0 <= j < k && title_matches(#[trigger] issues[j].title, id);
        lemma_some_match_has_first(issues, id, j);
    } else {
        assert(is_first_match(issues, id, k));
    }
}

/// The title written for a bug carries the bug's key: an issue created
/// for a bug is found as the bug's mirror from then on.
pub proof fn lemma_title_carries_key(bug: SourceRecordView)
    ensures
        title_matches(issue_title(bug), bug.id),
{
    let title = issue_title(bug);
    let key = correlation_key(bug.id);
    let at = (bug.summary.len() + 1) as int;
    assert(title.subrange(at, at + key.len()) =~= key);
    assert(occurs_at(title, key, at));
}

/// Reconciling is repeatable: whatever two runs of `reconcile` return for
/// the same bugs, issues and labels, the two lists of actions are the same.
pub proof fn lemma_reconcile_repeatable(
    bugs: &Vec<SourceRecord>,
    issues: &Vec<TargetRecord>,
    labels: &Vec<String>,
    first: Vec<SyncAction>,
    second: Vec<SyncAction>,
)
    requires
        call_ensures(reconcile, (bugs, issues, labels), first),
        call_ensures(reconcile, (bugs, issues, labels), second),
    ensures
        first.deep_view() == second.deep_view(),
{
}

/// The issue that mirrors `bug`: the first of `issues` whose title carries
/// the bug's key, or none.
pub fn find_issue_from_bug<'a>(issues: &'a Vec<TargetRecord>, bug: &SourceRecord) -> (found:
    Option<&'a TargetRecord>)
    ensures
        match found {
            Some(issue) => {
                &&& first_match(issues.deep_view(), bug.id as nat) is Some
                &&& *issue == issues@[first_match(issues.deep_view(), bug.id as nat)->0]
            },
            None => first_match(issues.deep_view(), bug.id as nat) is None,
        },
{
    let mut at: usize = 0;
    while at < issues.len()
        invariant
            at <= issues.len(),
            forall|k: int|
                0 <= k < at ==> !title_matches(#[trigger] issues.deep_view()[k].title, bug.id as nat),
        decreases issues.len() - at,
    {
        if crate::key::matches(issues[at].title.as_str(), bug.id) {
            proof {
                assert(issues.deep_view()[at as int].title == issues@[at as int].title@);
                lemma_first_match_unique(issues.deep_view(), bug.id as nat, at as int);
            }
            return Some(&issues[at]);
        }
        assert(issues.deep_view()[at as int].title == issues@[at as int].title@);
        at += 1;
    }
    proof {
        lemma_first_match_none(issues.deep_view(), bug.id as nat);
    }
    None
}

/// The title of the issue that mirrors `bug`.
pub fn title_for(bug: &SourceRecord) -> (title: String)
    ensures
        title@ == issue_title(bug.deep_view()),
{
    let mut title = bug.summary.clone();
    title.push(' ');
    let key = embed(bug.id);
    title.append(key.as_str());
    title
}

/// The body of the issue that mirrors the bug `id`.
pub fn body_for(id: u32) -> (body: String)
    ensures
        body@ == issue_body(id as nat),
{
    let mut body = String::from_str(TRACKER_URL);
    body.append(BUG_PAGE);
    push_decimal(&mut body, id);
    body
}

/// Decides what to do for one bug, given the issues that the destination
/// holds.
pub fn decide(bug: &SourceRecord, issues: &Vec<TargetRecord>, labels: &Vec<String>) -> (action:
    SyncAction)
    ensures
        action.deep_view() == action_for(
            bug.deep_view(),
            issues.deep_view(),
            labels.deep_view(),
        ),
{
    let new_title = title_for(bug);
    let new_body = body_for(bug.id);
    let new_labels = copy_labels(labels);
    match find_issue_from_bug(issues, bug) {
        Some(issue) => {
            proof {
                let at = first_match(issues.deep_view(), bug.id as nat)->0;
                assert(issues.deep_view()[at].number == issues@[at].number);
            }
            SyncAction::Update { target_number: issue.number, new_title, new_body, new_labels }
        },
        None => SyncAction::Create { new_title, new_body, new_labels },
    }
}

/// Decides what to do for each bug: one action per bug, in the order of
/// the bugs. The issues are read and never changed; each action carries
/// `labels` as they are.
pub fn reconcile(bugs: &Vec<SourceRecord>, issues: &Vec<TargetRecord>, labels: &Vec<String>) -> (actions:
    Vec<SyncAction>)
    ensures
        actions.len() == bugs.len(),
        forall|i: int|
            0 <= i < bugs.len() ==> #[trigger] actions.deep_view()[i] == action_for(
                bugs.deep_view()[i],
                issues.deep_view(),
                labels.deep_view(),
            ),
        actions.deep_view() == actions_for(
            bugs.deep_view(),
            issues.deep_view(),
            labels.deep_view(),
        ),
{
    let mut actions: Vec<SyncAction> = Vec::new();
    let mut i: usize = 0;
    while i < bugs.len()
        invariant
            i <= bugs.len(),
            actions.len() == i,
            forall|j: int|
                0 <= j < i ==> #[trigger] actions@[j].deep_view() == action_for(
                    bugs@[j].deep_view(),
                    issues.deep_view(),
                    labels.deep_view(),
                ),
        decreases bugs.len() - i,
    {
        let action = decide(&bugs[i], issues, labels);
        actions.push(action);
        i += 1;
    }
    assert(actions.deep_view() =~= actions_for(
        bugs.deep_view(),
        issues.deep_view(),
        labels.deep_view(),
    ));
    actions
}

} // verus!
