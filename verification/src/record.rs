//! The records of the two systems and the decisions made about them.

use vstd::prelude::*;

verus! {

/// A bug of the tracker.
#[derive(Debug, Clone, PartialEq, Eq)]
pub struct SourceRecord {
    pub id: u32,
    pub summary: String,
}

/// What a bug is: its identifier and its summary.
pub struct SourceRecordView {
    pub id: nat,
    pub summary: Seq<char>,
}

impl DeepView for SourceRecord {
    type V = SourceRecordView;

    open spec fn deep_view(&self) -> SourceRecordView {
        SourceRecordView { id: self.id as nat, summary: self.summary@ }
    }
}

impl View for SourceRecord {
    type V = SourceRecordView;

    open spec fn view(&self) -> SourceRecordView {
        self.deep_view()
    }
}

/// An issue of the destination repository. An issue that the repository
/// has not numbered yet has the number zero.
#[derive(Debug, Clone, PartialEq, Eq)]
pub struct TargetRecord {
    pub number: u32,
    pub title: String,
    pub body: String,
    pub labels: Vec<String>,
}

/// What an issue is: its number, title, body and labels.
pub struct TargetRecordView {
    pub number: nat,
    pub title: Seq<char>,
    pub body: Seq<char>,
    pub labels: Seq<Seq<char>>,
}

impl DeepView for TargetRecord {
    type V = TargetRecordView;

    open spec fn deep_view(&self) -> TargetRecordView {
        TargetRecordView {
            number: self.number as nat,
            title: self.title@,
            body: self.body@,
            labels: self.labels.deep_view(),
        }
    }
}

impl View for TargetRecord {
    type V = TargetRecordView;

    open spec fn view(&self) -> TargetRecordView {
        self.deep_view()
    }
}

/// What is to be done in the destination for one bug. The labels of an
/// action are the whole label set of the issue afterwards: labels that the
/// issue had before are not kept.
#[derive(Debug, Clone, PartialEq, Eq)]
pub enum SyncAction {
    Update { target_number: u32, new_title: String, new_body: String, new_labels: Vec<String> },
    Create { new_title: String, new_body: String, new_labels: Vec<String> },
}

/// What an action is.
pub enum SyncActionView {
    Update {
        target_number: nat,
        new_title: Seq<char>,
        new_body: Seq<char>,
        new_labels: Seq<Seq<char>>,
    },
    Create { new_title: Seq<char>, new_body: Seq<char>, new_labels: Seq<Seq<char>> },
}

impl DeepView for SyncAction {
    type V = SyncActionView;

    open spec fn deep_view(&self) -> SyncActionView {
        match self {
            SyncAction::Update { target_number, new_title, new_body, new_labels } => {
                SyncActionView::Update {
                    target_number: *target_number as nat,
                    new_title: new_title@,
                    new_body: new_body@,
                    new_labels: new_labels.deep_view(),
                }
            },
            SyncAction::Create { new_title, new_body, new_labels } => SyncActionView::Create {
                new_title: new_title@,
                new_body: new_body@,
                new_labels: new_labels.deep_view(),
            },
        }
    }
}

impl View for SyncAction {
    type V = SyncActionView;

    open spec fn view(&self) -> SyncActionView {
        self.deep_view()
    }
}

impl SyncActionView {
    /// The title that the action gives the issue.
    pub open spec fn title(self) -> Seq<char> {
        match self {
            SyncActionView::Update { new_title, .. } => new_title,
            SyncActionView::Create { new_title, .. } => new_title,
        }
    }

    /// The body that the action gives the issue.
    pub open spec fn body(self) -> Seq<char> {
        match self {
            SyncActionView::Update { new_body, .. } => new_body,
            SyncActionView::Create { new_body, .. } => new_body,
        }
    }

    /// The labels that the action gives the issue.
    pub open spec fn labels(self) -> Seq<Seq<char>> {
        match self {
            SyncActionView::Update { new_labels, .. } => new_labels,
            SyncActionView::Create { new_labels, .. } => new_labels,
        }
    }
}

/// A copy of a list of labels.
pub fn copy_labels(labels: &Vec<String>) -> (copy: Vec<String>)
    ensures
        copy.deep_view() == labels.deep_view(),
{
    let mut copy: Vec<String> = Vec::new();
    let mut i: usize = 0;
    while i < labels.len()
        invariant
            i <= labels.len(),
            copy.len() == i,
            forall|j: int| 0 <= j < i ==> copy@[j]@ == labels@[j]@,
        decreases labels.len() - i,
    {
        copy.push(labels[i].clone());
        i += 1;
    }
    assert(copy.deep_view() =~= labels.deep_view());
    copy
}

impl SyncAction {
    /// A copy of the action.
    pub fn duplicate(&self) -> (copy: SyncAction)
        ensures
            copy.deep_view() == self.deep_view(),
    {
        match self {
            SyncAction::Update { target_number, new_title, new_body, new_labels } => {
                SyncAction::Update {
                    target_number: *target_number,
                    new_title: new_title.clone(),
                    new_body: new_body.clone(),
                    new_labels: copy_labels(new_labels),
                }
            },
            SyncAction::Create { new_title, new_body, new_labels } => SyncAction::Create {
                new_title: new_title.clone(),
                new_body: new_body.clone(),
                new_labels: copy_labels(new_labels),
            },
        }
    }
}

} // verus!
