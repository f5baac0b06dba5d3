//! What the application knows: threads, the timeline, approvals and the state of the runtime.
use vstd::prelude::*;

use crate::text::decimal_text;

verus! {

/// The whole state that the window shows.
#[derive(Debug, Clone, PartialEq, Eq)]
pub struct AppModel {
    pub account_label: String,
    pub active_model: String,
    pub active_thread: Option<String>,
    pub cwd: String,
    pub pending_approvals: Vec<ApprovalRequest>,
    pub runtime_status: RuntimeStatus,
    pub sandbox_label: String,
    pub skipped_events: usize,
    pub status_message: String,
    pub threads: Vec<ThreadSummary>,
    pub timeline: Vec<TimelineItem>,
    pub turn_status: String,
    pub next_timeline_id: usize,
}

/// A thread as the sidebar lists it.
#[derive(Debug, Clone, PartialEq, Eq)]
pub struct ThreadSummary {
    pub id: String,
    pub status: String,
    pub subtitle: String,
    pub title: String,
}

/// A row of the transcript.
#[derive(Debug, Clone, PartialEq, Eq)]
pub struct TimelineItem {
    pub body: String,
    pub id: String,
    pub kind: TimelineKind,
    pub meta: String,
    pub status: TimelineStatus,
    pub title: String,
}

#[derive(Debug, Clone, Copy, PartialEq, Eq, Structural)]
pub enum TimelineKind {
    Assistant,
    Command,
    Diff,
    Plan,
    Reasoning,
    System,
    User,
}

#[derive(Debug, Clone, Copy, PartialEq, Eq, Structural)]
pub enum TimelineStatus {
    Complete,
    Pending,
    Running,
}

/// An approval that the user has not answered yet.
#[derive(Debug, Clone, PartialEq, Eq)]
pub struct ApprovalRequest {
    pub action: String,
    pub detail: String,
    pub id: String,
    pub title: String,
}

#[derive(Debug, Clone, Copy, PartialEq, Eq, Structural)]
pub enum RuntimeStatus {
    Disconnected,
    Idle,
    Running,
    WaitingForApproval,
}

/// What a thread summary holds.
#[verifier::ext_equal]
pub struct ThreadView {
    pub id: Seq<char>,
    pub status: Seq<char>,
    pub subtitle: Seq<char>,
    pub title: Seq<char>,
}

/// What a timeline item holds.
#[verifier::ext_equal]
pub struct ItemView {
    pub body: Seq<char>,
    pub id: Seq<char>,
    pub kind: TimelineKind,
    pub meta: Seq<char>,
    pub status: TimelineStatus,
    pub title: Seq<char>,
}

/// What an approval request holds.
#[verifier::ext_equal]
pub struct ApprovalView {
    pub action: Seq<char>,
    pub detail: Seq<char>,
    pub id: Seq<char>,
    pub title: Seq<char>,
}

/// What the model holds.
#[verifier::ext_equal]
pub struct ModelView {
    pub account_label: Seq<char>,
    pub active_model: Seq<char>,
    pub active_thread: Option<Seq<char>>,
    pub cwd: Seq<char>,
    pub pending_approvals: Seq<ApprovalView>,
    pub runtime_status: RuntimeStatus,
    pub sandbox_label: Seq<char>,
    pub skipped_events: usize,
    pub status_message: Seq<char>,
    pub threads: Seq<ThreadView>,
    pub timeline: Seq<ItemView>,
    pub turn_status: Seq<char>,
    pub next_timeline_id: usize,
}

impl View for ThreadSummary {
    type V = ThreadView;

    open spec fn view(&self) -> ThreadView {
        ThreadView {
            id: self.id@,
            status: self.status@,
            subtitle: self.subtitle@,
            title: self.title@,
        }
    }
}

impl View for TimelineItem {
    type V = ItemView;

    open spec fn view(&self) -> ItemView {
        ItemView {
            body: self.body@,
            id: self.id@,
            kind: self.kind,
            meta: self.meta@,
            status: self.status,
            title: self.title@,
        }
    }
}

impl View for ApprovalRequest {
    type V = ApprovalView;

    open spec fn view(&self) -> ApprovalView {
        ApprovalView {
            action: self.action@,
            detail: self.detail@,
            id: self.id@,
            title: self.title@,
        }
    }
}

/// What the threads of a list hold.
pub open spec fn threads_view(threads: Seq<ThreadSummary>) -> Seq<ThreadView> {
    threads.map_values(|thread: ThreadSummary| thread@)
}

/// What the items of a timeline hold.
pub open spec fn items_view(items: Seq<TimelineItem>) -> Seq<ItemView> {
    items.map_values(|item: TimelineItem| item@)
}

/// What the approvals of a list hold.
pub open spec fn approvals_view(approvals: Seq<ApprovalRequest>) -> Seq<ApprovalView> {
    approvals.map_values(|approval: ApprovalRequest| approval@)
}

/// What an optional text holds.
pub open spec fn option_view(text: Option<String>) -> Option<Seq<char>> {
    match text {
        Some(s) => Some(s@),
        None => None,
    }
}

impl View for AppModel {
    type V = ModelView;

    open spec fn view(&self) -> ModelView {
        ModelView {
            account_label: self.account_label@,
            active_model: self.active_model@,
            active_thread: option_view(self.active_thread),
            cwd: self.cwd@,
            pending_approvals: approvals_view(self.pending_approvals@),
            runtime_status: self.runtime_status,
            sandbox_label: self.sandbox_label@,
            skipped_events: self.skipped_events,
            status_message: self.status_message@,
            threads: threads_view(self.threads@),
            timeline: items_view(self.timeline@),
            turn_status: self.turn_status@,
            next_timeline_id: self.next_timeline_id,
        }
    }
}

/// The model of an application that has just been started.
pub open spec fn default_model() -> ModelView {
    ModelView {
        account_label: "Local account"@,
        active_model: "gpt-5.4"@,
        active_thread: None,
        cwd: "No workspace selected"@,
        pending_approvals: Seq::empty(),
        runtime_status: RuntimeStatus::Idle,
        sandbox_label: "workspace-write"@,
        skipped_events: 0,
        status_message: "Fake runtime ready"@,
        threads: Seq::empty(),
        timeline: Seq::empty(),
        turn_status: "Idle"@,
        next_timeline_id: 0,
    }
}

impl Default for AppModel {
    fn default() -> (model: AppModel)
        ensures
            model@ == default_model(),
    {
        AppModel {
            account_label: "Local account".to_string(),
            active_model: "gpt-5.4".to_string(),
            active_thread: None,
            cwd: "No workspace selected".to_string(),
            pending_approvals: Vec::new(),
            runtime_status: RuntimeStatus::Idle,
            sandbox_label: "workspace-write".to_string(),
            skipped_events: 0,
            status_message: "Fake runtime ready".to_string(),
            threads: Vec::new(),
            timeline: Vec::new(),
            turn_status: "Idle".to_string(),
            next_timeline_id: 0,
        }
    }
}

/// The identifier with a given prefix and number.
pub open spec fn numbered(prefix: Seq<char>, n: nat) -> Seq<char> {
    prefix + "-"@ + crate::text::decimal(n)
}

/// Writes the identifier with a given prefix and number.
pub fn numbered_text(prefix: &str, n: u64) -> (id: String)
    ensures
        id@ == numbered(prefix@, n as nat),
{
    let mut id = prefix.to_string();
    id.append("-");
    id.append(decimal_text(n).as_str());
    id
}

/// An identifier tells its number and its prefix, whatever they are: the number is what follows the
/// last hyphen.
pub proof fn lemma_numbered_injective(p: Seq<char>, q: Seq<char>, a: nat, b: nat)
    requires
        numbered(p, a) == numbered(q, b),
    ensures
        a == b,
        p == q,
{
    reveal_strlit("-");
    crate::text::lemma_decimal_digits(a);
    crate::text::lemma_decimal_digits(b);
    let id = numbered(p, a);
    let x = crate::text::decimal(a);
    let y = crate::text::decimal(b);
    assert(id == p + "-"@ + x && id == q + "-"@ + y);
    assert(id.len() == p.len() + 1 + x.len() && id.len() == q.len() + 1 + y.len());
    assert(id[p.len() as int] == '-');
    assert(id[q.len() as int] == '-');
    if p.len() < q.len() {
        assert(id[q.len() as int] == x[q.len() - p.len() - 1]);
    }
    if q.len() < p.len() {
        assert(id[p.len() as int] == y[p.len() - q.len() - 1]);
    }
    assert(id.take(p.len() as int) =~= p);
    assert(id.take(q.len() as int) =~= q);
    assert(id.skip(p.len() + 1int) =~= x);
    assert(id.skip(q.len() + 1int) =~= y);
    crate::text::lemma_decimal_injective(a, b);
}

impl AppModel {
    /// Takes the next number and makes an identifier of it.
    pub fn next_timeline_id(&mut self, prefix: &str) -> (id: String)
        requires
            old(self).next_timeline_id < usize::MAX,
        ensures
            final(self)@ == (ModelView {
                next_timeline_id: (old(self).next_timeline_id + 1) as usize,
                ..old(self)@
            }),
            id@ == numbered(prefix@, (old(self).next_timeline_id + 1) as nat),
    {
        self.next_timeline_id += 1;
        numbered_text(prefix, self.next_timeline_id as u64)
    }
}

impl TimelineKind {
    /// The word that the transcript shows for a kind.
    pub open spec fn label_text(self) -> Seq<char> {
        match self {
            TimelineKind::Assistant => "Assistant"@,
            TimelineKind::Command => "Command"@,
            TimelineKind::Diff => "Diff"@,
            TimelineKind::Plan => "Plan"@,
            TimelineKind::Reasoning => "Reasoning"@,
            TimelineKind::System => "System"@,
            TimelineKind::User => "User"@,
        }
    }

    /// The word that the transcript shows for a kind.
    pub fn label(self) -> (label: &'static str)
        ensures
            label@ == self.label_text(),
    {
        match self {
            TimelineKind::Assistant => "Assistant",
            TimelineKind::Command => "Command",
            TimelineKind::Diff => "Diff",
            TimelineKind::Plan => "Plan",
            TimelineKind::Reasoning => "Reasoning",
            TimelineKind::System => "System",
            TimelineKind::User => "User",
        }
    }
}

impl TimelineStatus {
    /// The word that the transcript shows for a status.
    pub open spec fn label_text(self) -> Seq<char> {
        match self {
            TimelineStatus::Complete => "complete"@,
            TimelineStatus::Pending => "pending"@,
            TimelineStatus::Running => "running"@,
        }
    }

    /// The word that the transcript shows for a status.
    pub fn label(self) -> (label: &'static str)
        ensures
            label@ == self.label_text(),
    {
        match self {
            TimelineStatus::Complete => "complete",
            TimelineStatus::Pending => "pending",
            TimelineStatus::Running => "running",
        }
    }
}

impl RuntimeStatus {
    /// The words that the window shows for the state of the runtime.
    pub open spec fn label_text(self) -> Seq<char> {
        match self {
            RuntimeStatus::Disconnected => "Disconnected"@,
            RuntimeStatus::Idle => "Idle"@,
            RuntimeStatus::Running => "Running"@,
            RuntimeStatus::WaitingForApproval => "Needs approval"@,
        }
    }

    /// The words that the window shows for the state of the runtime.
    pub fn label(self) -> (label: &'static str)
        ensures
            label@ == self.label_text(),
    {
        match self {
            RuntimeStatus::Disconnected => "Disconnected",
            RuntimeStatus::Idle => "Idle",
            RuntimeStatus::Running => "Running",
            RuntimeStatus::WaitingForApproval => "Needs approval",
        }
    }
}

}
