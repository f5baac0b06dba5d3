use codex_gpui_desktop::model::{AppModel, RuntimeStatus, TimelineKind};
use codex_gpui_desktop::reducer::{reduce, AgentEvent};
use codex_gpui_desktop::ui::root::RootView;
use codex_gpui_desktop::ui::view::{
    element_id_suffix, kind_color, status_color, timeline_row, ApprovalList, Theme, ThreadList,
    Tint, Transcript,
};

fn started(id: &str, title: &str) -> AgentEvent {
    AgentEvent::ThreadStarted {
        id: id.to_string(),
        title: title.to_string(),
    }
}

fn asked(id: &str) -> AgentEvent {
    AgentEvent::ApprovalRequested {
        id: id.to_string(),
        title: "Run it".to_string(),
        detail: "Because".to_string(),
        action: "Once".to_string(),
    }
}

#[test]
fn the_theme_has_its_colours() {
    let theme = Theme::default();
    assert_eq!(theme.accent, 0x2563eb);
    assert_eq!(theme.background, 0xf7f7f4);
    assert_eq!(theme.text, 0x171717);
    assert_eq!(kind_color(TimelineKind::Assistant, &theme), 0x2563eb);
    assert_eq!(kind_color(TimelineKind::Command, &theme), 0x475569);
    assert_eq!(kind_color(TimelineKind::Diff, &theme), 0x0f766e);
    assert_eq!(kind_color(TimelineKind::Plan, &theme), 0x7c3aed);
    assert_eq!(kind_color(TimelineKind::Reasoning, &theme), 0xb45309);
    assert_eq!(kind_color(TimelineKind::System, &theme), 0x6b7280);
    assert_eq!(kind_color(TimelineKind::User, &theme), 0x047857);
    assert_eq!(status_color(RuntimeStatus::Disconnected), 0xb91c1c);
    assert_eq!(status_color(RuntimeStatus::Idle), 0x047857);
    assert_eq!(status_color(RuntimeStatus::Running), 0x2563eb);
    assert_eq!(status_color(RuntimeStatus::WaitingForApproval), 0xb45309);
}

#[test]
fn identifiers_of_elements_are_plain() {
    assert_eq!(element_id_suffix("app-server-approval-n-7"), "app-server-approval-n-7");
    assert_eq!(element_id_suffix("a_Z 9.é/{"), "a_Z-9----");
    assert_eq!(element_id_suffix(""), "");
}

#[test]
fn an_empty_window_shows_placeholders() {
    let theme = Theme::default();
    let view = RootView::new(None);
    let screen = view.render(&theme);

    assert_eq!(screen.top_bar.title, "Codex GPUI Desktop");
    assert_eq!(screen.top_bar.platform.label, "macOS first");
    assert_eq!(screen.top_bar.platform.border, Tint { color: 0x2563eb, percent: 25 });
    assert_eq!(screen.top_bar.status.label, "Idle");
    assert_eq!(screen.top_bar.status.border, Tint { color: 0x047857, percent: 25 });
    assert_eq!(screen.top_bar.account, "Local account");
    assert_eq!(screen.sidebar.workspace, "codex-gpui-desktop");
    assert_eq!(screen.sidebar.path, "No workspace selected");
    assert_eq!(screen.sidebar.use_current.label, "Use cwd");
    match &screen.sidebar.threads {
        ThreadList::Empty(row) => {
            assert_eq!(row.id, "empty-thread-row");
            assert_eq!(row.text, "No threads yet");
        }
        other => panic!("{other:?}"),
    }
    assert_eq!(screen.header.thread, "No active thread");
    assert_eq!(screen.header.count, "0 timeline items");
    assert!(screen.header.start.clickable);
    assert_eq!(screen.header.start.opacity, 100);
    assert_eq!(screen.header.interrupt.opacity, 45);
    assert_eq!(
        screen.transcript,
        Transcript::Empty("Start a fake turn to stream the first agent timeline.".to_string())
    );
    assert_eq!(screen.send.id, "composer-send");
    assert_eq!(screen.context.turn.body, "Idle");
    match &screen.context.approvals {
        ApprovalList::Empty(row) => assert_eq!(row.text, "No pending approvals"),
        other => panic!("{other:?}"),
    }
    assert_eq!(
        screen.context.backend.body,
        "fake runtime; fake runtime remains available before connecting"
    );
    assert_eq!(screen.status_bar.model, "model gpt-5.4");
    assert_eq!(screen.status_bar.sandbox, "sandbox workspace-write");
    assert_eq!(screen.status_bar.cwd, "cwd No workspace selected");
    assert_eq!(screen.status_bar.message, "Phase 0 fake runtime ready");
    assert_eq!(screen.status_bar.skipped, "skipped 0");
}

#[test]
fn a_busy_window_shows_rows() {
    let theme = Theme::default();
    let mut view = RootView::new(Some("/p".to_string()));
    let mut model = AppModel::default();
    reduce(&mut model, started("one", "First"));
    reduce(&mut model, started("two", "Second"));
    reduce(&mut model, started("one", "First"));
    reduce(&mut model, asked("a 1"));
    reduce(&mut model, asked("b"));
    reduce(&mut model, AgentEvent::Lagged { skipped: 12 });
    view.model = model;
    view.connected = true;
    let screen = view.render(&theme);

    match &screen.sidebar.threads {
        ThreadList::Rows(rows) => {
            assert_eq!(rows.len(), 2);
            assert_eq!(rows[0].id, "thread-row-two");
            assert_eq!(rows[0].background, theme.surface);
            assert_eq!(rows[0].border, theme.border);
            assert_eq!(rows[1].id, "thread-row-one");
            assert_eq!(rows[1].title, "First");
            assert_eq!(rows[1].background, theme.accent_soft);
            assert_eq!(rows[1].border, theme.accent);
            assert_eq!(rows[1].subtitle, "No workspace selected");
            assert_eq!(rows[1].status, "Idle");
        }
        other => panic!("{other:?}"),
    }
    match &screen.context.approvals {
        ApprovalList::Rows(rows) => {
            assert_eq!(rows.len(), 2);
            assert_eq!(rows[0].id, "approval-row-a-1");
            assert_eq!(rows[0].approval_id, "a 1");
            assert_eq!(rows[0].approve.id, "approval-approve-a-1");
            assert_eq!(rows[0].approve.label, "Approve");
            assert_eq!(rows[0].deny.id, "approval-deny-a-1");
            assert_eq!(rows[0].deny.label, "Deny");
            assert_eq!(rows[1].title, "Run it");
            assert_eq!(rows[1].detail, "Because");
            assert_eq!(rows[1].action, "Once");
        }
        other => panic!("{other:?}"),
    }
    assert_eq!(screen.header.thread, "one");
    assert_eq!(screen.header.count, "2 timeline items");
    assert!(!screen.header.start.clickable);
    assert_eq!(screen.header.start.opacity, 45);
    assert_eq!(screen.header.start.hover, None);
    assert_eq!(screen.header.interrupt.opacity, 100);
    assert!(!screen.send.clickable);
    assert_eq!(screen.transcript, Transcript::Rows(2));
    assert_eq!(
        screen.context.backend.body,
        "codex app-server; fake runtime remains available before connecting"
    );
    assert_eq!(screen.status_bar.skipped, "skipped 12");
}

#[test]
fn rows_of_the_transcript_alternate() {
    let theme = Theme::default();
    let mut view = RootView::new(None);
    view.seed_long_transcript();
    let rows = view.timeline_rows(3, 6, &theme);
    assert_eq!(rows.len(), 3);
    assert_eq!(rows[0].id, "timeline-row-seed-3");
    assert_eq!(rows[0].background, theme.surface);
    assert_eq!(rows[1].background, theme.background);
    assert_eq!(rows[1].kind.label, "Diff");
    assert_eq!(rows[1].kind.background, Tint { color: theme.diff, percent: 12 });
    assert_eq!(rows[1].kind.text, theme.diff);
    assert_eq!(rows[1].status, "complete");
    assert_eq!(rows[1].meta, "seeded");
    assert!(view.timeline_rows(6, 3, &theme).is_empty());
    assert_eq!(timeline_row(4, &view.model.timeline[4], &theme), rows[1]);
}
