//! What holds of what the window shows.
use vstd::prelude::*;

use crate::json::{JsonView, NumberView};
use crate::model::{
    ApprovalView, ItemView, ModelView, RuntimeStatus, ThreadView, TimelineKind, TimelineStatus,
};
use crate::ui::state::RootState;
use crate::ui::view::{
    ApprovalList, ApprovalRow, Button, Screen, StatusPill, Theme, ThreadList, ThreadRow, TimelineRow,
    Tint, Transcript,
};

verus! {

/// The texts that identify approvals are fit for elements as they are.
proof fn lemma_plain_approval_id(request_id: JsonView)
    requires
        crate::laws::protocol::is_plain_id(request_id),
    ensures
        ({
            let id = crate::runtime::app_server::approval_id(request_id);
            id is Some && crate::ui::view::plain_text(id->0) == id->0
        }),
{
    reveal_strlit("app-server-approval-");
    reveal_strlit("n-");
    reveal_strlit("s-");
    let id = crate::runtime::app_server::approval_id(request_id)->0;
    match request_id {
        JsonView::Number(NumberView::Integer(n)) => {
            let size = if n < 0 {
                (-n) as nat
            } else {
                n as nat
            };
            crate::text::lemma_decimal_digits(size);
            let digits = crate::text::integer(n);
            assert forall|i: int| 0 <= i < digits.len() implies crate::ui::view::is_plain(
                #[trigger] digits[i],
            ) by {
                if n < 0 && i > 0 {
                    assert(digits[i] == crate::text::decimal(size)[i - 1]);
                }
            }
            assert(forall|i: int| 0 <= i < id.len() ==> crate::ui::view::is_plain(#[trigger] id[i]));
        },
        JsonView::Text(text) => {
            let bytes = vstd::utf8::encode_utf8(text);
            let digits = crate::text::hex(bytes);
            assert forall|i: int| 0 <= i < digits.len() implies crate::ui::view::is_plain(
                #[trigger] digits[i],
            ) by {
                let byte = bytes[i / 2];
                assert(byte as nat / 16 < 16 && byte as nat % 16 < 16);
            }
            assert(forall|i: int| 0 <= i < id.len() ==> crate::ui::view::is_plain(#[trigger] id[i]));
        },
        _ => {},
    }
    assert(crate::ui::view::plain_text(id) =~= id);
}

/// Two approvals of the app-server whose requests have different identifiers, each an integer or a
/// text, are shown in rows and with buttons that have different identifiers.
pub proof fn law_approval_rows_differ(
    first: ApprovalRow,
    second: ApprovalRow,
    first_request: JsonView,
    second_request: JsonView,
    first_approval: ApprovalView,
    second_approval: ApprovalView,
    theme: Theme,
)
    requires
        crate::laws::protocol::is_plain_id(first_request),
        crate::laws::protocol::is_plain_id(second_request),
        first_request != second_request,
        crate::runtime::app_server::approval_id(first_request) == Some(first_approval.id),
        crate::runtime::app_server::approval_id(second_request) == Some(second_approval.id),
        first.shows(first_approval, theme),
        second.shows(second_approval, theme),
    ensures
        first.id@ != second.id@,
        first.approve.id@ != second.approve.id@,
        first.deny.id@ != second.deny.id@,
{
    lemma_plain_approval_id(first_request);
    lemma_plain_approval_id(second_request);
    crate::laws::protocol::law_approval_ids_differ(first_request, second_request);
    let a = first_approval.id;
    let b = second_approval.id;
    lemma_fronted("approval-row-"@, a, b);
    lemma_fronted("approval-approve-"@, a, b);
    lemma_fronted("approval-deny-"@, a, b);
}

/// Different texts behind one heading are different.
proof fn lemma_fronted(front: Seq<char>, a: Seq<char>, b: Seq<char>)
    requires
        a != b,
    ensures
        front + a != front + b,
{
    if front + a == front + b {
        assert((front + a).skip(front.len() as int) =~= a);
        assert((front + b).skip(front.len() as int) =~= b);
    }
}

/// Where the threads are in order, no two rows of the sidebar have one identifier, and the active
/// thread's row is marked, and no other.
pub proof fn law_one_thread_marked(list: ThreadList, model: ModelView, theme: Theme)
    requires
        crate::laws::timeline::threads_in_order(model),
        model.threads.len() > 0,
        list.shows(model.threads, model.active_thread, theme),
        theme.accent != theme.border,
    ensures
        list matches ThreadList::Rows(rows) && {
            &&& rows@.len() == model.threads.len()
            &&& forall|i: int, j: int|
                0 <= i < j < rows@.len() ==> (#[trigger] rows@[i]).id@ != (#[trigger] rows@[j]).id@
            &&& forall|i: int|
                0 <= i < rows@.len() ==> ((#[trigger] rows@[i]).border == theme.accent
                    <==> model.active_thread == Some(model.threads[i].id))
            &&& model.active_thread is Some ==> exists|i: int|
                0 <= i < rows@.len() && (#[trigger] rows@[i]).border == theme.accent
            &&& forall|i: int, j: int|
                0 <= i < j < rows@.len() ==> (#[trigger] rows@[i]).border != theme.accent || (
                #[trigger] rows@[j]).border != theme.accent
        },
{
    let rows = list->Rows_0;
    assert forall|i: int, j: int| 0 <= i < j < rows@.len() implies (#[trigger] rows@[i]).id@ != (
    #[trigger] rows@[j]).id@ by {
        assert(model.threads[i].id != model.threads[j].id);
        lemma_fronted("thread-row-"@, model.threads[i].id, model.threads[j].id);
    }
    if let Some(active) = model.active_thread {
        let place = choose|i: int|
            0 <= i < model.threads.len() && (#[trigger] model.threads[i]).id == active;
        assert(rows@[place].border == theme.accent);
    }
}

/// Each kind and each state of the runtime is marked in its own colour.
pub proof fn law_colours_mark_kinds(kind: TimelineKind, status: RuntimeStatus, theme: Theme)
    ensures
        ({
            let color = crate::ui::view::color_of_kind(kind, theme);
            &&& kind is Assistant ==> color == theme.accent
            &&& kind is Command ==> color == theme.command
            &&& kind is Diff ==> color == theme.diff
            &&& kind is Plan ==> color == theme.plan
            &&& kind is Reasoning ==> color == theme.reasoning
            &&& kind is System ==> color == theme.muted
            &&& kind is User ==> color == theme.user
        }),
        ({
            let color = crate::ui::view::color_of_status(status);
            &&& status is Disconnected ==> color == 0xb91c1c
            &&& status is Idle ==> color == 0x047857
            &&& status is Running ==> color == 0x2563eb
            &&& status is WaitingForApproval ==> color == 0xb45309
        }),
{
}

/// The identifier of an element keeps every letter, digit, hyphen and underscore of ASCII in its
/// place, and has a hyphen for every other character.
pub proof fn law_element_identifiers(text: Seq<char>, i: int)
    requires
        0 <= i < text.len(),
    ensures
        ({
            let plain = crate::ui::view::plain_text(text);
            let c = text[i];
            let kept = '0' <= c <= '9' || 'a' <= c <= 'z' || 'A' <= c <= 'Z' || c == '-' || c
                == '_';
            &&& plain.len() == text.len()
            &&& kept ==> plain[i] == c
            &&& !kept ==> plain[i] == '-'
        }),
{
}

/// A pill has its label, a pale border of its colour, and the background and text colour it is
/// given.
pub proof fn law_pills(
    pill: StatusPill,
    label: Seq<char>,
    color: u32,
    background: Tint,
    text: u32,
)
    requires
        pill.shows(label, color, background, text),
    ensures
        pill.label@ == label,
        pill.border.color == color && pill.border.percent == 25,
        pill.background == background,
        pill.text == text,
{
}

/// A main button can be clicked and reacts unless it is disabled, when it is faded.
pub proof fn law_main_buttons(
    button: Button,
    id: Seq<char>,
    label: Seq<char>,
    disabled: bool,
    theme: Theme,
)
    requires
        button.is_main(id, label, disabled, theme),
    ensures
        button.id@ == id && button.label@ == label,
        button.text == theme.surface && button.background == theme.accent,
        button.border is None,
        disabled ==> !button.clickable && button.opacity == 45 && button.hover is None
            && button.pressed is None,
        !disabled ==> button.clickable && button.opacity == 100 && button.hover == Some(
            0x1d4ed8u32,
        ) && button.pressed == Some(85u8),
{
}

/// A side button can always be clicked, and may be faded.
pub proof fn law_side_buttons(
    button: Button,
    id: Seq<char>,
    label: Seq<char>,
    faded: bool,
    theme: Theme,
)
    requires
        button.is_secondary(id, label, faded, theme),
    ensures
        button.id@ == id && button.label@ == label,
        button.text == theme.text && button.background == theme.surface_alt,
        button.border == Some(theme.border) && button.hover == Some(0xe4e4deu32),
        button.pressed is None && button.clickable,
        faded ==> button.opacity == 45,
        !faded ==> button.opacity == 100,
{
}

/// The row of a thread tells its title, its directory and its status, and is marked if and only if
/// the thread is the active one.
pub proof fn law_thread_rows(
    row: ThreadRow,
    thread: ThreadView,
    active: Option<Seq<char>>,
    theme: Theme,
)
    requires
        row.shows(thread, active, theme),
    ensures
        row.id@ == "thread-row-"@ + thread.id,
        row.title@ == thread.title && row.subtitle@ == thread.subtitle && row.status@
            == thread.status,
        active == Some(thread.id) ==> row.background == theme.accent_soft && row.border
            == theme.accent,
        active != Some(thread.id) ==> row.background == theme.surface && row.border
            == theme.border,
{
}

/// The row of an item tells its kind, its title, its status, its text and its note. Every other row
/// is of the surface's colour.
pub proof fn law_timeline_rows(row: TimelineRow, ix: int, item: ItemView, theme: Theme)
    requires
        row.shows(ix, item, theme),
    ensures
        row.id@ == "timeline-row-"@ + item.id,
        row.title@ == item.title && row.body@ == item.body && row.meta@ == item.meta,
        item.status == TimelineStatus::Complete ==> row.status@ == "complete"@,
        item.status == TimelineStatus::Pending ==> row.status@ == "pending"@,
        item.status == TimelineStatus::Running ==> row.status@ == "running"@,
        ix % 2 == 0 ==> row.background == theme.background,
        ix % 2 != 0 ==> row.background == theme.surface,
        row.kind.label@ == kind_word(item.kind),
        ({
            let color = crate::ui::view::color_of_kind(item.kind, theme);
            &&& row.kind.border == Tint { color, percent: 25 }
            &&& row.kind.background == Tint { color, percent: 12 }
            &&& row.kind.text == color
        }),
{
}

/// The word for a kind.
pub open spec fn kind_word(kind: TimelineKind) -> Seq<char> {
    match kind {
        TimelineKind::Assistant => "Assistant"@,
        TimelineKind::Command => "Command"@,
        TimelineKind::Diff => "Diff"@,
        TimelineKind::Plan => "Plan"@,
        TimelineKind::Reasoning => "Reasoning"@,
        TimelineKind::System => "System"@,
        TimelineKind::User => "User"@,
    }
}

/// The row of an approval tells what is asked, answers for that very approval, and has a button for
/// either answer that can be clicked.
pub proof fn law_approval_rows(row: ApprovalRow, approval: ApprovalView, theme: Theme)
    requires
        row.shows(approval, theme),
    ensures
        row.approval_id@ == approval.id,
        row.title@ == approval.title && row.detail@ == approval.detail && row.action@
            == approval.action,
        row.id@ == "approval-row-"@ + crate::ui::view::plain_text(approval.id),
        row.approve.is_main(
            "approval-approve-"@ + crate::ui::view::plain_text(approval.id),
            "Approve"@,
            false,
            theme,
        ),
        row.deny.is_secondary(
            "approval-deny-"@ + crate::ui::view::plain_text(approval.id),
            "Deny"@,
            false,
            theme,
        ),
{
}

/// The sidebar and the panel list every thread and every pending approval, one row for each and in
/// order, and say so where there is none.
pub proof fn law_lists_are_complete(screen: Screen, state: RootState, theme: Theme)
    requires
        screen.shows(state, theme),
    ensures
        match screen.sidebar.threads {
            ThreadList::Empty(row) => state.model.threads.len() == 0 && row.text@
                == "No threads yet"@ && row.id@ == "empty-thread-row"@ && row.color == theme.muted,
            ThreadList::Rows(rows) => rows@.len() == state.model.threads.len() && rows@.len() > 0
                && forall|i: int|
                0 <= i < rows@.len() ==> (#[trigger] rows@[i]).shows(
                    state.model.threads[i],
                    state.model.active_thread,
                    theme,
                ),
        },
        match screen.context.approvals {
            ApprovalList::Empty(row) => state.model.pending_approvals.len() == 0 && row.text@
                == "No pending approvals"@ && row.id@ == "approval-empty"@ && row.color
                == theme.muted,
            ApprovalList::Rows(rows) => rows@.len() == state.model.pending_approvals.len()
                && rows@.len() > 0 && forall|i: int|
                0 <= i < rows@.len() ==> (#[trigger] rows@[i]).shows(
                    state.model.pending_approvals[i],
                    theme,
                ),
        },
        match screen.transcript {
            Transcript::Empty(text) => state.model.timeline.len() == 0 && text@
                == "Start a fake turn to stream the first agent timeline."@,
            Transcript::Rows(count) => count == state.model.timeline.len() && count > 0,
        },
{
}

/// The bars and the head of the transcript tell the state, and the buttons that start a turn are
/// disabled, and the one that stops it is not faded, if and only if a turn is under way.
pub proof fn law_screen_tells_the_state(screen: Screen, state: RootState, theme: Theme)
    requires
        screen.shows(state, theme),
    ensures
        ({
            let busy = state.model.runtime_status == RuntimeStatus::Running
                || state.model.runtime_status == RuntimeStatus::WaitingForApproval;
            &&& screen.header.start.clickable == !busy && screen.send.clickable == !busy
            &&& screen.header.interrupt.opacity == if busy {
                100u8
            } else {
                45u8
            }
            &&& screen.header.start.is_main("start-fake-turn"@, "Stream fake turn"@, busy, theme)
            &&& screen.send.is_main("composer-send"@, "Send"@, busy, theme)
            &&& screen.header.seed.is_secondary(
                "seed-long-transcript"@,
                "Seed 10k"@,
                false,
                theme,
            )
            &&& screen.header.interrupt.is_secondary(
                "interrupt-turn"@,
                "Interrupt"@,
                !busy,
                theme,
            )
        }),
        screen.sidebar.choose.is_secondary("choose-project"@, "Choose"@, false, theme),
        screen.sidebar.set.is_secondary("set-project"@, "Set"@, false, theme),
        screen.sidebar.use_current.is_secondary("use-current-dir"@, "Use cwd"@, false, theme),
        screen.context.connect.is_secondary("connect-codex"@, "Connect Codex"@, false, theme),
        state.model.active_thread matches Some(id) ==> screen.header.thread@ == id,
        state.model.active_thread is None ==> screen.header.thread@ == "No active thread"@,
        screen.header.count@ == crate::text::decimal(state.model.timeline.len())
            + " timeline items"@,
        screen.top_bar.title@ == "Codex GPUI Desktop"@ && screen.top_bar.account@
            == state.model.account_label,
        screen.top_bar.platform.shows(
            "macOS first"@,
            theme.accent,
            Tint { color: theme.accent_soft, percent: 100 },
            theme.background,
        ),
        screen.top_bar.status.shows(
            crate::laws::events::status_words(state.model.runtime_status),
            crate::ui::view::color_of_status(state.model.runtime_status),
            Tint { color: theme.surface_alt, percent: 100 },
            theme.text,
        ),
        screen.sidebar.path@ == state.model.cwd,
        screen.sidebar.workspace@ == "codex-gpui-desktop"@,
        screen.context.turn.title@ == "Current turn"@ && screen.context.turn.body@
            == state.model.turn_status,
        screen.context.backend.title@ == "Backend"@,
        state.connected ==> screen.context.backend.body@ == "codex app-server"@
            + "; fake runtime remains available before connecting"@,
        !state.connected ==> screen.context.backend.body@ == "fake runtime"@
            + "; fake runtime remains available before connecting"@,
        screen.context.files.title@ == "desktop repo"@ && screen.context.files.body@
            == "Model, reducer, fake runtime, and root GPUI view"@,
        screen.status_bar.model@ == "model "@ + state.model.active_model,
        screen.status_bar.sandbox@ == "sandbox "@ + state.model.sandbox_label,
        screen.status_bar.cwd@ == "cwd "@ + state.model.cwd,
        screen.status_bar.message@ == state.model.status_message,
        screen.status_bar.skipped@ == "skipped "@ + crate::text::decimal(
            state.model.skipped_events as nat,
        ),
{
}

}
