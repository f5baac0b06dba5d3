//! What the window shows of the state: texts, identifiers and colours, as plain values.
use vstd::prelude::*;

use crate::model::{
    ApprovalRequest, ApprovalView, ItemView, RuntimeStatus, ThreadSummary, ThreadView, TimelineItem,
    TimelineKind,
};
use crate::text::{decimal_text, same_text};
use crate::ui::root::RootView;
use crate::ui::state::RootState;

verus! {

/// The colours of the window, as 0xRRGGBB.
#[derive(Clone, Copy, Debug, PartialEq, Eq, Structural)]
pub struct Theme {
    pub accent: u32,
    pub accent_soft: u32,
    pub background: u32,
    pub border: u32,
    pub command: u32,
    pub diff: u32,
    pub muted: u32,
    pub plan: u32,
    pub reasoning: u32,
    pub surface: u32,
    pub surface_alt: u32,
    pub text: u32,
    pub user: u32,
}

impl Default for Theme {
    fn default() -> (theme: Theme)
        ensures
            theme == (Theme {
                accent: 0x2563eb,
                accent_soft: 0xdbeafe,
                background: 0xf7f7f4,
                border: 0xd7d7ce,
                command: 0x475569,
                diff: 0x0f766e,
                muted: 0x6b7280,
                plan: 0x7c3aed,
                reasoning: 0xb45309,
                surface: 0xffffff,
                surface_alt: 0xefefea,
                text: 0x171717,
                user: 0x047857,
            }),
    {
        Theme {
            accent: 0x2563eb,
            accent_soft: 0xdbeafe,
            background: 0xf7f7f4,
            border: 0xd7d7ce,
            command: 0x475569,
            diff: 0x0f766e,
            muted: 0x6b7280,
            plan: 0x7c3aed,
            reasoning: 0xb45309,
            surface: 0xffffff,
            surface_alt: 0xefefea,
            text: 0x171717,
            user: 0x047857,
        }
    }
}

/// The colour that marks a kind of timeline item.
pub open spec fn color_of_kind(kind: TimelineKind, theme: Theme) -> u32 {
    match kind {
        TimelineKind::Assistant => theme.accent,
        TimelineKind::Command => theme.command,
        TimelineKind::Diff => theme.diff,
        TimelineKind::Plan => theme.plan,
        TimelineKind::Reasoning => theme.reasoning,
        TimelineKind::System => theme.muted,
        TimelineKind::User => theme.user,
    }
}

/// Picks the colour that marks a kind of timeline item.
pub fn kind_color(kind: TimelineKind, theme: &Theme) -> (color: u32)
    ensures
        color == color_of_kind(kind, *theme),
{
    match kind {
        TimelineKind::Assistant => theme.accent,
        TimelineKind::Command => theme.command,
        TimelineKind::Diff => theme.diff,
        TimelineKind::Plan => theme.plan,
        TimelineKind::Reasoning => theme.reasoning,
        TimelineKind::System => theme.muted,
        TimelineKind::User => theme.user,
    }
}

/// The colour that marks a state of the runtime.
pub open spec fn color_of_status(status: RuntimeStatus) -> u32 {
    match status {
        RuntimeStatus::Disconnected => 0xb91c1c,
        RuntimeStatus::Idle => 0x047857,
        RuntimeStatus::Running => 0x2563eb,
        RuntimeStatus::WaitingForApproval => 0xb45309,
    }
}

/// Picks the colour that marks a state of the runtime.
pub fn status_color(status: RuntimeStatus) -> (color: u32)
    ensures
        color == color_of_status(status),
{
    match status {
        RuntimeStatus::Disconnected => 0xb91c1c,
        RuntimeStatus::Idle => 0x047857,
        RuntimeStatus::Running => 0x2563eb,
        RuntimeStatus::WaitingForApproval => 0xb45309,
    }
}

/// Whether a character may stand in the identifier of an element.
pub open spec fn is_plain(c: char) -> bool {
    ||| '0' <= c <= '9'
    ||| 'a' <= c <= 'z'
    ||| 'A' <= c <= 'Z'
    ||| c == '-'
    ||| c == '_'
}

/// A text with a hyphen for each character that an identifier cannot have.
pub open spec fn plain_text(text: Seq<char>) -> Seq<char> {
    text.map_values(
        |c: char|
            if is_plain(c) {
                c
            } else {
                '-'
            },
    )
}

/// Puts a hyphen for each character that the identifier of an element cannot have.
pub fn element_id_suffix(value: &str) -> (suffix: String)
    ensures
        suffix@ == plain_text(value@),
{
    let mut suffix = String::new();
    for c in it: value.chars()
        invariant
            it.seq() == value@,
            suffix@ == plain_text(value@.take(it.index() as int)),
    {
        assert(value@.take(it.index() + 1) =~= value@.take(it.index() as int).push(c));
        if ('0' <= c && c <= '9') || ('a' <= c && c <= 'z') || ('A' <= c && c <= 'Z') || c == '-'
            || c == '_' {
            suffix.push(c);
        } else {
            suffix.push('-');
        }
        assert(suffix@ =~= plain_text(value@.take(it.index() + 1)));
    }
    assert(value@.take(value@.len() as int) =~= value@);
    suffix
}

/// A colour that lets through what lies under it: `percent` of it covers.
#[derive(Clone, Copy, Debug, PartialEq, Eq, Structural)]
pub struct Tint {
    pub color: u32,
    pub percent: u8,
}

/// A short label in a frame.
#[derive(Clone, Debug, PartialEq, Eq)]
pub struct StatusPill {
    pub label: String,
    pub border: Tint,
    pub background: Tint,
    pub text: u32,
}

impl StatusPill {
    /// Whether this is the pill of a label and its colours.
    pub open spec fn shows(self, label: Seq<char>, color: u32, background: Tint, text: u32) -> bool {
        &&& self.label@ == label
        &&& self.border == Tint { color, percent: 25 }
        &&& self.background == background
        &&& self.text == text
    }
}

/// Makes a pill.
pub fn status_pill(label: &str, color: u32, background: Tint, text: u32) -> (pill: StatusPill)
    ensures
        pill.shows(label@, color, background, text),
{
    StatusPill { label: label.to_string(), border: Tint { color, percent: 25 }, background, text }
}

/// A button. `opacity` and `pressed` are percentages.
#[derive(Clone, Debug, PartialEq, Eq)]
pub struct Button {
    pub id: String,
    pub label: String,
    pub text: u32,
    pub background: u32,
    pub border: Option<u32>,
    pub hover: Option<u32>,
    pub pressed: Option<u8>,
    pub opacity: u8,
    pub clickable: bool,
}

impl Button {
    /// Whether this is the main button of a label: a disabled one is faded and does not react.
    pub open spec fn is_main(
        self,
        id: Seq<char>,
        label: Seq<char>,
        disabled: bool,
        theme: Theme,
    ) -> bool {
        &&& self.id@ == id
        &&& self.label@ == label
        &&& self.text == theme.surface
        &&& self.background == theme.accent
        &&& self.border == None::<u32>
        &&& self.hover == if disabled {
            None
        } else {
            Some(0x1d4ed8u32)
        }
        &&& self.pressed == if disabled {
            None
        } else {
            Some(85u8)
        }
        &&& self.opacity == if disabled {
            45u8
        } else {
            100u8
        }
        &&& self.clickable == !disabled
    }

    /// Whether this is the side button of a label, faded or not.
    pub open spec fn is_secondary(
        self,
        id: Seq<char>,
        label: Seq<char>,
        faded: bool,
        theme: Theme,
    ) -> bool {
        &&& self.id@ == id
        &&& self.label@ == label
        &&& self.text == theme.text
        &&& self.background == theme.surface_alt
        &&& self.border == Some(theme.border)
        &&& self.hover == Some(0xe4e4deu32)
        &&& self.pressed == None::<u8>
        &&& self.opacity == if faded {
            45u8
        } else {
            100u8
        }
        &&& self.clickable
    }
}

/// Makes a main button.
pub fn button(id: String, label: &str, disabled: bool, theme: &Theme) -> (button: Button)
    ensures
        button.is_main(id@, label@, disabled, *theme),
{
    Button {
        id,
        label: label.to_string(),
        text: theme.surface,
        background: theme.accent,
        border: None,
        hover: if disabled {
            None
        } else {
            Some(0x1d4ed8)
        },
        pressed: if disabled {
            None
        } else {
            Some(85)
        },
        opacity: if disabled {
            45
        } else {
            100
        },
        clickable: !disabled,
    }
}

/// Makes a side button.
pub fn secondary_button(id: String, label: &str, theme: &Theme) -> (button: Button)
    ensures
        button.is_secondary(id@, label@, false, *theme),
{
    Button {
        id,
        label: label.to_string(),
        text: theme.text,
        background: theme.surface_alt,
        border: Some(theme.border),
        hover: Some(0xe4e4de),
        pressed: None,
        opacity: 100,
        clickable: true,
    }
}

/// What a list shows when it holds nothing.
#[derive(Clone, Debug, PartialEq, Eq)]
pub struct Placeholder {
    pub id: String,
    pub text: String,
    pub color: u32,
}

impl Placeholder {
    /// Whether this is the placeholder of a text.
    pub open spec fn shows(self, id: Seq<char>, text: Seq<char>, theme: Theme) -> bool {
        &&& self.id@ == id
        &&& self.text@ == text
        &&& self.color == theme.muted
    }
}

/// Stands for the threads while there are none.
pub fn empty_thread_row(theme: &Theme) -> (row: Placeholder)
    ensures
        row.shows("empty-thread-row"@, "No threads yet"@, *theme),
{
    Placeholder {
        id: "empty-thread-row".to_string(),
        text: "No threads yet".to_string(),
        color: theme.muted,
    }
}

/// A thread in the sidebar.
#[derive(Clone, Debug, PartialEq, Eq)]
pub struct ThreadRow {
    pub id: String,
    pub background: u32,
    pub border: u32,
    pub title: String,
    pub subtitle: String,
    pub status: String,
}

impl ThreadRow {
    /// Whether this is the row of a thread: the active one is marked.
    pub open spec fn shows(
        self,
        thread: ThreadView,
        active_thread: Option<Seq<char>>,
        theme: Theme,
    ) -> bool {
        let is_active = active_thread == Some(thread.id);
        &&& self.id@ == "thread-row-"@ + thread.id
        &&& self.background == if is_active {
            theme.accent_soft
        } else {
            theme.surface
        }
        &&& self.border == if is_active {
            theme.accent
        } else {
            theme.border
        }
        &&& self.title@ == thread.title
        &&& self.subtitle@ == thread.subtitle
        &&& self.status@ == thread.status
    }
}

/// Makes the row of a thread.
pub fn thread_row(thread: &ThreadSummary, active_thread: &Option<String>, theme: &Theme) -> (row:
    ThreadRow)
    ensures
        row.shows(thread@, crate::model::option_view(*active_thread), *theme),
{
    let is_active = match active_thread {
        Some(active) => same_text(active.as_str(), thread.id.as_str()),
        None => false,
    };
    ThreadRow {
        id: "thread-row-".to_string().concat(thread.id.as_str()),
        background: if is_active {
            theme.accent_soft
        } else {
            theme.surface
        },
        border: if is_active {
            theme.accent
        } else {
            theme.border
        },
        title: thread.title.clone(),
        subtitle: thread.subtitle.clone(),
        status: thread.status.clone(),
    }
}

/// The threads in the sidebar.
#[derive(Clone, Debug, PartialEq, Eq)]
pub enum ThreadList {
    Empty(Placeholder),
    Rows(Vec<ThreadRow>),
}

/// The sidebar: the project and the threads.
#[derive(Clone, Debug, PartialEq, Eq)]
pub struct Sidebar {
    pub workspace: String,
    pub path: String,
    pub choose: Button,
    pub set: Button,
    pub use_current: Button,
    pub threads: ThreadList,
}

impl ThreadList {
    /// Whether this is the list of some threads: one row for each, in order.
    pub open spec fn shows(
        self,
        threads: Seq<ThreadView>,
        active_thread: Option<Seq<char>>,
        theme: Theme,
    ) -> bool {
        match self {
            ThreadList::Empty(row) => {
                &&& threads.len() == 0
                &&& row.shows("empty-thread-row"@, "No threads yet"@, theme)
            },
            ThreadList::Rows(rows) => {
                &&& threads.len() > 0
                &&& rows@.len() == threads.len()
                &&& forall|i: int|
                    0 <= i < threads.len() ==> (#[trigger] rows@[i]).shows(
                        threads[i],
                        active_thread,
                        theme,
                    )
            },
        }
    }
}

impl Sidebar {
    /// Whether this is the sidebar of a state.
    pub open spec fn shows(self, state: RootState, theme: Theme) -> bool {
        &&& self.workspace@ == "codex-gpui-desktop"@
        &&& self.path@ == state.model.cwd
        &&& self.choose.is_secondary("choose-project"@, "Choose"@, false, theme)
        &&& self.set.is_secondary("set-project"@, "Set"@, false, theme)
        &&& self.use_current.is_secondary("use-current-dir"@, "Use cwd"@, false, theme)
        &&& self.threads.shows(state.model.threads, state.model.active_thread, theme)
    }
}

/// A row of the transcript.
#[derive(Clone, Debug, PartialEq, Eq)]
pub struct TimelineRow {
    pub id: String,
    pub background: u32,
    pub kind: StatusPill,
    pub title: String,
    pub status: String,
    pub body: String,
    pub meta: String,
}

impl TimelineRow {
    /// Whether this is the row of an item at a place: every other row has the surface's colour.
    pub open spec fn shows(self, ix: int, item: ItemView, theme: Theme) -> bool {
        let color = color_of_kind(item.kind, theme);
        &&& self.id@ == "timeline-row-"@ + item.id
        &&& self.background == if ix % 2 == 0 {
            theme.background
        } else {
            theme.surface
        }
        &&& self.kind.shows(item.kind.label_text(), color, Tint { color, percent: 12 }, color)
        &&& self.title@ == item.title
        &&& self.status@ == item.status.label_text()
        &&& self.body@ == item.body
        &&& self.meta@ == item.meta
    }
}

/// Makes the row of an item at a place.
pub fn timeline_row(ix: usize, item: &TimelineItem, theme: &Theme) -> (row: TimelineRow)
    ensures
        row.shows(ix as int, item@, *theme),
{
    let color = kind_color(item.kind, theme);
    TimelineRow {
        id: "timeline-row-".to_string().concat(item.id.as_str()),
        background: if ix % 2 == 0 {
            theme.background
        } else {
            theme.surface
        },
        kind: status_pill(item.kind.label(), color, Tint { color, percent: 12 }, color),
        title: item.title.clone(),
        status: item.status.label().to_string(),
        body: item.body.clone(),
        meta: item.meta.clone(),
    }
}

/// The bar at the top.
#[derive(Clone, Debug, PartialEq, Eq)]
pub struct TopBar {
    pub title: String,
    pub platform: StatusPill,
    pub status: StatusPill,
    pub account: String,
}

impl TopBar {
    /// Whether this is the top bar of a state.
    pub open spec fn shows(self, state: RootState, theme: Theme) -> bool {
        &&& self.title@ == "Codex GPUI Desktop"@
        &&& self.platform.shows(
            "macOS first"@,
            theme.accent,
            Tint { color: theme.accent_soft, percent: 100 },
            theme.background,
        )
        &&& self.status.shows(
            state.model.runtime_status.label_text(),
            color_of_status(state.model.runtime_status),
            Tint { color: theme.surface_alt, percent: 100 },
            theme.text,
        )
        &&& self.account@ == state.model.account_label
    }
}

/// The head of the transcript.
#[derive(Clone, Debug, PartialEq, Eq)]
pub struct TranscriptHeader {
    pub thread: String,
    pub count: String,
    pub start: Button,
    pub seed: Button,
    pub interrupt: Button,
}

impl TranscriptHeader {
    /// Whether this is the head of the transcript of a state.
    pub open spec fn shows(self, state: RootState, theme: Theme) -> bool {
        &&& self.thread@ == match state.model.active_thread {
            Some(thread) => thread,
            None => "No active thread"@,
        }
        &&& self.count@ == crate::text::decimal(state.model.timeline.len()) + " timeline items"@
        &&& self.start.is_main(
            "start-fake-turn"@,
            "Stream fake turn"@,
            state.is_busy(),
            theme,
        )
        &&& self.seed.is_secondary("seed-long-transcript"@, "Seed 10k"@, false, theme)
        &&& self.interrupt.is_secondary(
            "interrupt-turn"@,
            "Interrupt"@,
            !state.is_busy(),
            theme,
        )
    }
}

/// The transcript: words in place of rows, or a number of rows.
#[derive(Clone, Debug, PartialEq, Eq)]
pub enum Transcript {
    Empty(String),
    Rows(usize),
}

impl Transcript {
    /// Whether this is the transcript of a state.
    pub open spec fn shows(self, state: RootState) -> bool {
        match self {
            Transcript::Empty(text) => {
                &&& state.model.timeline.len() == 0
                &&& text@ == "Start a fake turn to stream the first agent timeline."@
            },
            Transcript::Rows(count) => count > 0 && count == state.model.timeline.len(),
        }
    }
}

/// A titled text.
#[derive(Clone, Debug, PartialEq, Eq)]
pub struct ContextBlock {
    pub title: String,
    pub body: String,
}

impl ContextBlock {
    /// Whether this is the block of a title and a text.
    pub open spec fn shows(self, title: Seq<char>, body: Seq<char>) -> bool {
        self.title@ == title && self.body@ == body
    }
}

/// Makes a titled text.
pub fn context_block(title: &str, body: String) -> (block: ContextBlock)
    ensures
        block.shows(title@, body@),
{
    ContextBlock { title: title.to_string(), body }
}

/// An approval that waits for an answer, with its two buttons.
#[derive(Clone, Debug, PartialEq, Eq)]
pub struct ApprovalRow {
    pub id: String,
    pub approval_id: String,
    pub title: String,
    pub detail: String,
    pub action: String,
    pub approve: Button,
    pub deny: Button,
}

impl ApprovalRow {
    /// Whether this is the row of an approval.
    pub open spec fn shows(self, approval: ApprovalView, theme: Theme) -> bool {
        let suffix = plain_text(approval.id);
        &&& self.id@ == "approval-row-"@ + suffix
        &&& self.approval_id@ == approval.id
        &&& self.title@ == approval.title
        &&& self.detail@ == approval.detail
        &&& self.action@ == approval.action
        &&& self.approve.is_main("approval-approve-"@ + suffix, "Approve"@, false, theme)
        &&& self.deny.is_secondary("approval-deny-"@ + suffix, "Deny"@, false, theme)
    }
}

/// Makes the row of an approval.
pub fn approval_row(approval: &ApprovalRequest, theme: &Theme) -> (row: ApprovalRow)
    ensures
        row.shows(approval@, *theme),
{
    let suffix = element_id_suffix(approval.id.as_str());
    ApprovalRow {
        id: "approval-row-".to_string().concat(suffix.as_str()),
        approval_id: approval.id.clone(),
        title: approval.title.clone(),
        detail: approval.detail.clone(),
        action: approval.action.clone(),
        approve: button(
            "approval-approve-".to_string().concat(suffix.as_str()),
            "Approve",
            false,
            theme,
        ),
        deny: secondary_button(
            "approval-deny-".to_string().concat(suffix.as_str()),
            "Deny",
            theme,
        ),
    }
}

/// The approvals that wait for an answer.
#[derive(Clone, Debug, PartialEq, Eq)]
pub enum ApprovalList {
    Empty(Placeholder),
    Rows(Vec<ApprovalRow>),
}

impl ApprovalList {
    /// Whether this is the list of some approvals: one row for each, in order.
    pub open spec fn shows(self, approvals: Seq<ApprovalView>, theme: Theme) -> bool {
        match self {
            ApprovalList::Empty(row) => {
                &&& approvals.len() == 0
                &&& row.shows("approval-empty"@, "No pending approvals"@, theme)
            },
            ApprovalList::Rows(rows) => {
                &&& approvals.len() > 0
                &&& rows@.len() == approvals.len()
                &&& forall|i: int|
                    0 <= i < approvals.len() ==> (#[trigger] rows@[i]).shows(approvals[i], theme)
            },
        }
    }
}

/// The panel beside the transcript.
#[derive(Clone, Debug, PartialEq, Eq)]
pub struct ContextPanel {
    pub turn: ContextBlock,
    pub approvals: ApprovalList,
    pub files: ContextBlock,
    pub backend: ContextBlock,
    pub connect: Button,
}

impl ContextPanel {
    /// Whether this is the panel of a state.
    pub open spec fn shows(self, state: RootState, theme: Theme) -> bool {
        &&& self.turn.shows("Current turn"@, state.model.turn_status)
        &&& self.approvals.shows(state.model.pending_approvals, theme)
        &&& self.files.shows(
            "desktop repo"@,
            "Model, reducer, fake runtime, and root GPUI view"@,
        )
        &&& self.backend.shows(
            "Backend"@,
            (if state.connected {
                "codex app-server"@
            } else {
                "fake runtime"@
            }) + "; fake runtime remains available before connecting"@,
        )
        &&& self.connect.is_secondary("connect-codex"@, "Connect Codex"@, false, theme)
    }
}

/// The bar at the bottom.
#[derive(Clone, Debug, PartialEq, Eq)]
pub struct StatusBar {
    pub model: String,
    pub sandbox: String,
    pub cwd: String,
    pub message: String,
    pub skipped: String,
}

impl StatusBar {
    /// Whether this is the status bar of a state.
    pub open spec fn shows(self, state: RootState) -> bool {
        &&& self.model@ == "model "@ + state.model.active_model
        &&& self.sandbox@ == "sandbox "@ + state.model.sandbox_label
        &&& self.cwd@ == "cwd "@ + state.model.cwd
        &&& self.message@ == state.model.status_message
        &&& self.skipped@ == "skipped "@ + crate::text::decimal(state.model.skipped_events as nat)
    }
}

/// All that the window shows, but for the rows of the transcript.
#[derive(Clone, Debug, PartialEq, Eq)]
pub struct Screen {
    pub top_bar: TopBar,
    pub sidebar: Sidebar,
    pub header: TranscriptHeader,
    pub transcript: Transcript,
    pub send: Button,
    pub context: ContextPanel,
    pub status_bar: StatusBar,
}

impl Screen {
    /// Whether this is the screen of a state.
    pub open spec fn shows(self, state: RootState, theme: Theme) -> bool {
        &&& self.top_bar.shows(state, theme)
        &&& self.sidebar.shows(state, theme)
        &&& self.header.shows(state, theme)
        &&& self.transcript.shows(state)
        &&& self.send.is_main("composer-send"@, "Send"@, state.is_busy(), theme)
        &&& self.context.shows(state, theme)
        &&& self.status_bar.shows(state)
    }
}

impl RootView {
    /// Makes all that the window shows.
    pub fn render(&self, theme: &Theme) -> (screen: Screen)
        ensures
            screen.shows(self@, *theme),
    {
        Screen {
            top_bar: self.top_bar(theme),
            sidebar: self.sidebar(theme),
            header: self.transcript_header(theme),
            transcript: self.transcript(),
            send: self.composer(theme),
            context: self.context_panel(theme),
            status_bar: self.status_bar(),
        }
    }

    /// Makes the bar at the top.
    pub fn top_bar(&self, theme: &Theme) -> (bar: TopBar)
        ensures
            bar.shows(self@, *theme),
    {
        TopBar {
            title: "Codex GPUI Desktop".to_string(),
            platform: status_pill(
                "macOS first",
                theme.accent,
                Tint { color: theme.accent_soft, percent: 100 },
                theme.background,
            ),
            status: status_pill(
                self.model.runtime_status.label(),
                status_color(self.model.runtime_status),
                Tint { color: theme.surface_alt, percent: 100 },
                theme.text,
            ),
            account: self.model.account_label.clone(),
        }
    }

    /// Makes the sidebar.
    pub fn sidebar(&self, theme: &Theme) -> (bar: Sidebar)
        ensures
            bar.shows(self@, *theme),
    {
        let threads = if self.model.threads.len() == 0 {
            ThreadList::Empty(empty_thread_row(theme))
        } else {
            let mut rows: Vec<ThreadRow> = Vec::new();
            let mut i: usize = 0;
            while i < self.model.threads.len()
                invariant
                    i <= self.model.threads@.len(),
                    rows@.len() == i,
                    forall|k: int|
                        0 <= k < i ==> (#[trigger] rows@[k]).shows(
                            self@.model.threads[k],
                            self@.model.active_thread,
                            *theme,
                        ),
                decreases self.model.threads@.len() - i,
            {
                rows.push(thread_row(&self.model.threads[i], &self.model.active_thread, theme));
                i += 1;
            }
            ThreadList::Rows(rows)
        };
        Sidebar {
            workspace: "codex-gpui-desktop".to_string(),
            path: self.model.cwd.clone(),
            choose: secondary_button("choose-project".to_string(), "Choose", theme),
            set: secondary_button("set-project".to_string(), "Set", theme),
            use_current: secondary_button("use-current-dir".to_string(), "Use cwd", theme),
            threads,
        }
    }

    /// Makes the head of the transcript.
    pub fn transcript_header(&self, theme: &Theme) -> (header: TranscriptHeader)
        ensures
            header.shows(self@, *theme),
    {
        let is_running = self.is_busy();
        let mut interrupt = secondary_button("interrupt-turn".to_string(), "Interrupt", theme);
        if !is_running {
            interrupt.opacity = 45;
        }
        TranscriptHeader {
            thread: match &self.model.active_thread {
                Some(thread) => thread.clone(),
                None => "No active thread".to_string(),
            },
            count: decimal_text(self.model.timeline.len() as u64).concat(" timeline items"),
            start: button("start-fake-turn".to_string(), "Stream fake turn", is_running, theme),
            seed: secondary_button("seed-long-transcript".to_string(), "Seed 10k", theme),
            interrupt,
        }
    }

    /// Tells what stands in the transcript.
    pub fn transcript(&self) -> (transcript: Transcript)
        ensures
            transcript.shows(self@),
    {
        if self.model.timeline.len() == 0 {
            Transcript::Empty("Start a fake turn to stream the first agent timeline.".to_string())
        } else {
            Transcript::Rows(self.model.timeline.len())
        }
    }

    /// Makes the rows of the transcript from one place up to another.
    pub fn timeline_rows(&self, start: usize, end: usize, theme: &Theme) -> (rows: Vec<TimelineRow>)
        requires
            end <= self@.model.timeline.len(),
        ensures
            rows@.len() == if start <= end {
                end - start
            } else {
                0
            },
            forall|i: int|
                0 <= i < rows@.len() ==> (#[trigger] rows@[i]).shows(
                    start + i,
                    self@.model.timeline[start + i],
                    *theme,
                ),
    {
        let mut rows: Vec<TimelineRow> = Vec::new();
        let mut ix: usize = start;
        while ix < end
            invariant
                end <= self.model.timeline@.len(),
                start <= ix,
                ix <= end || ix == start,
                rows@.len() == ix - start,
                forall|i: int|
                    0 <= i < rows@.len() ==> (#[trigger] rows@[i]).shows(
                        start + i,
                        self@.model.timeline[start + i],
                        *theme,
                    ),
            decreases end - ix,
        {
            rows.push(timeline_row(ix, &self.model.timeline[ix], theme));
            ix += 1;
        }
        rows
    }

    /// Makes the button beside the message field.
    pub fn composer(&self, theme: &Theme) -> (send: Button)
        ensures
            send.is_main("composer-send"@, "Send"@, self@.is_busy(), *theme),
    {
        button("composer-send".to_string(), "Send", self.is_busy(), theme)
    }

    /// Makes the panel beside the transcript.
    pub fn context_panel(&self, theme: &Theme) -> (panel: ContextPanel)
        ensures
            panel.shows(self@, *theme),
    {
        let backend = if self.connected {
            "codex app-server".to_string()
        } else {
            "fake runtime".to_string()
        };
        ContextPanel {
            turn: context_block("Current turn", self.model.turn_status.clone()),
            approvals: self.approval_rows(theme),
            files: context_block(
                "desktop repo",
                "Model, reducer, fake runtime, and root GPUI view".to_string(),
            ),
            backend: context_block(
                "Backend",
                backend.concat("; fake runtime remains available before connecting"),
            ),
            connect: secondary_button("connect-codex".to_string(), "Connect Codex", theme),
        }
    }

    /// Makes the list of the approvals that wait for an answer.
    pub fn approval_rows(&self, theme: &Theme) -> (list: ApprovalList)
        ensures
            list.shows(self@.model.pending_approvals, *theme),
    {
        if self.model.pending_approvals.len() == 0 {
            return ApprovalList::Empty(
                Placeholder {
                    id: "approval-empty".to_string(),
                    text: "No pending approvals".to_string(),
                    color: theme.muted,
                },
            );
        }
        let mut rows: Vec<ApprovalRow> = Vec::new();
        let mut i: usize = 0;
        while i < self.model.pending_approvals.len()
            invariant
                i <= self.model.pending_approvals@.len(),
                rows@.len() == i,
                forall|k: int|
                    0 <= k < i ==> (#[trigger] rows@[k]).shows(
                        self@.model.pending_approvals[k],
                        *theme,
                    ),
            decreases self.model.pending_approvals@.len() - i,
        {
            rows.push(approval_row(&self.model.pending_approvals[i], theme));
            i += 1;
        }
        ApprovalList::Rows(rows)
    }

    /// Makes the bar at the bottom.
    pub fn status_bar(&self) -> (bar: StatusBar)
        ensures
            bar.shows(self@),
    {
        StatusBar {
            model: "model ".to_string().concat(self.model.active_model.as_str()),
            sandbox: "sandbox ".to_string().concat(self.model.sandbox_label.as_str()),
            cwd: "cwd ".to_string().concat(self.model.cwd.as_str()),
            message: self.model.status_message.clone(),
            skipped: "skipped ".to_string().concat(
                decimal_text(self.model.skipped_events as u64).as_str(),
            ),
        }
    }
}

}
