use wosim::client::{
    after_render, early_grab_takes, level_text, message_flow, AfterRender, DebugLog,
    FrameCounter, InputAction, InputState, Key, LogLevel, Mesh, MessageFlow, MessageKind,
    RenderOutcome, Resolver,
};

#[test]
fn movement_keys_follow_press_state() {
    let mut s = InputState::new();
    assert_eq!(s.key(Key::W, true), InputAction::Nothing);
    assert!(s.control.forward);
    s.key(Key::D, true);
    s.key(Key::W, false);
    assert!(!s.control.forward);
    assert!(s.control.right);
}

#[test]
fn toggles_and_actions() {
    let mut s = InputState::new();
    s.key(Key::F1, true);
    assert!(s.windows.information);
    s.key(Key::F1, false);
    assert!(s.windows.information);
    s.key(Key::F1, true);
    assert!(!s.windows.information);
    assert_eq!(s.key(Key::F9, true), InputAction::RecreateRenderer);
    assert!(!s.vsync);
    assert_eq!(s.key(Key::F10, true), InputAction::ToggleFullscreen);
    assert_eq!(s.key(Key::F10, false), InputAction::Nothing);
}

#[test]
fn grab_and_release() {
    let mut s = InputState::new();
    assert_eq!(s.mouse_button(true), InputAction::GrabCursor);
    assert!(s.captures_cursor_motion());
    assert_eq!(s.mouse_button(true), InputAction::Nothing);
    assert_eq!(s.key(Key::Escape, false), InputAction::ReleaseCursor);
    assert_eq!(s.focus(false), InputAction::Nothing);
    s.mouse_button(true);
    assert_eq!(s.focus(false), InputAction::ReleaseCursor);
}

#[test]
fn debug_log_limits() {
    let mut l = DebugLog::new();
    l.limit_entries = true;
    l.entry_limit = 2;
    l.log(LogLevel::Info, "a".to_string(), "1".to_string());
    l.log(LogLevel::Warn, "b".to_string(), "2".to_string());
    l.log(LogLevel::Error, "c".to_string(), "3".to_string());
    assert_eq!(l.len(), 2);
    assert_eq!(l.records[0].target, "b");
    l.entry_limit = 1;
    l.enforce_limit();
    assert_eq!(l.len(), 1);
    assert_eq!(l.records[0].args, "3");
    l.clear();
    assert_eq!(l.len(), 0);
    assert_eq!(level_text(LogLevel::Trace), "TRACE");
    assert_eq!(level_text(LogLevel::Error), "ERROR");
}

#[test]
fn frame_counter_rate() {
    let mut c = FrameCounter::new();
    c.end_frame(false);
    c.end_frame(false);
    c.end_frame(true);
    assert_eq!(c.frames_per_second, 3);
    c.end_frame(false);
    c.end_frame(true);
    assert_eq!(c.frames_per_second, 2);
    assert_eq!(c.frame_count, 5);
}

#[test]
fn mesh_and_resolver() {
    let m = Mesh::appended(8, 36, 36);
    assert_eq!((m.vertex_offset, m.first_index, m.index_count), (8, 36, 36));
    let r = Resolver::Remote { hostname: "h".to_string(), port: 1, token: "t".to_string(), skip_verification: false };
    assert!(!r.is_local());
    assert!(Resolver::Create { token: String::new(), port: 2 }.creates_world());
    assert!(Resolver::Open { token: String::new(), port: 2 }.is_local());
}

#[test]
fn exit_and_disconnect_stop_the_loop() {
    assert_eq!(message_flow(MessageKind::ExitRequested, true, true), MessageFlow::RequestExit);
    assert_eq!(message_flow(MessageKind::Disconnected, false, false), MessageFlow::Stop);
    assert_eq!(message_flow(MessageKind::Disconnected, true, true), MessageFlow::Stop);
    assert_eq!(message_flow(MessageKind::CursorMoved, true, false), MessageFlow::Taken);
    assert_eq!(message_flow(MessageKind::CursorMoved, false, false), MessageFlow::Handle);
    assert_eq!(message_flow(MessageKind::WindowEvent, true, false), MessageFlow::Handle);
    assert_eq!(message_flow(MessageKind::WindowEvent, false, true), MessageFlow::Taken);
    assert_eq!(message_flow(MessageKind::Render, false, true), MessageFlow::Handle);
    assert_eq!(message_flow(MessageKind::Log, false, false), MessageFlow::Handle);
}

#[test]
fn grab_takes_only_cursor_motion() {
    assert!(early_grab_takes(true, MessageKind::CursorMoved));
    assert!(!early_grab_takes(false, MessageKind::CursorMoved));
    assert!(!early_grab_takes(true, MessageKind::DeviceEvent));
}

#[test]
fn out_of_date_or_suboptimal_swapchain_is_recreated() {
    assert_eq!(after_render(RenderOutcome::Rendered { suboptimal: false }), AfterRender::Continue);
    assert_eq!(
        after_render(RenderOutcome::Rendered { suboptimal: true }),
        AfterRender::RecreateRenderer
    );
    assert_eq!(after_render(RenderOutcome::OutOfDate), AfterRender::RecreateRenderer);
    assert_eq!(after_render(RenderOutcome::Failed), AfterRender::Fail);
}
