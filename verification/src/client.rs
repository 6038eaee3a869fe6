//! State of the game client that does not touch the GPU: input handling,
//! debug windows, the in-game log, frame counting, and the plain data of
//! the scene and of the world resolver.

use vstd::prelude::*;
use std::collections::VecDeque;

verus! {

/// The kinds of message the client's event loop receives; window events
/// are told apart by whether they report cursor motion.
#[derive(Clone, Copy, PartialEq, Eq, Debug)]
pub enum MessageKind {
    Push,
    Render,
    Disconnected,
    Log,
    ScaleFactorChanged,
    ExitRequested,
    /// A window event reporting that the cursor moved.
    CursorMoved,
    /// Any other window event.
    WindowEvent,
    DeviceEvent,
}

/// How the client answers a message.
#[derive(Clone, Copy, PartialEq, Eq, Debug)]
pub enum MessageFlow {
    /// Ask the window to close, then stop the event loop.
    RequestExit,
    /// Stop the event loop.
    Stop,
    /// The message was taken before the client's own handling; go on.
    Taken,
    /// Handle the message, then go on.
    Handle,
}

/// Whether a message is a window event.
pub open spec fn is_window_event(kind: MessageKind) -> bool {
    kind == MessageKind::CursorMoved || kind == MessageKind::WindowEvent
}

/// While the cursor is grabbed, the early grab step takes the cursor's
/// motion in the window (the camera follows raw device motion instead).
pub fn early_grab_takes(grabbed: bool, kind: MessageKind) -> (r: bool)
    ensures
        r == (grabbed && kind == MessageKind::CursorMoved),
{
    grabbed && matches!(kind, MessageKind::CursorMoved)
}

/// The answer to a message: an exit request stops the loop (after asking
/// the window to close) before anything else sees it; cursor motion while
/// the cursor is grabbed (`grabbed`), and a window event that the GUI
/// consumed (`gui_consumed`), go no further; losing the server stops the
/// loop; every other message is handled.
pub open spec fn spec_message_flow(kind: MessageKind, grabbed: bool, gui_consumed: bool) -> MessageFlow {
    if kind == MessageKind::ExitRequested {
        MessageFlow::RequestExit
    } else if (grabbed && kind == MessageKind::CursorMoved) || (gui_consumed && is_window_event(
        kind,
    )) {
        MessageFlow::Taken
    } else if kind == MessageKind::Disconnected {
        MessageFlow::Stop
    } else {
        MessageFlow::Handle
    }
}

/// Decides how the client answers a message of `kind`, given whether the
/// cursor is grabbed and whether the GUI consumed the message (which only
/// a window event can be).
pub fn message_flow(kind: MessageKind, grabbed: bool, gui_consumed: bool) -> (f: MessageFlow)
    ensures
        f == spec_message_flow(kind, grabbed, gui_consumed),
{
    if matches!(kind, MessageKind::ExitRequested) {
        return MessageFlow::RequestExit;
    }
    let window_event = matches!(kind, MessageKind::CursorMoved) || matches!(
        kind,
        MessageKind::WindowEvent
    );
    if early_grab_takes(grabbed, kind) || (gui_consumed && window_event) {
        return MessageFlow::Taken;
    }
    if matches!(kind, MessageKind::Disconnected) {
        MessageFlow::Stop
    } else {
        MessageFlow::Handle
    }
}

/// The event loop ends exactly on an exit request or on losing the server;
/// neither the grab step nor the GUI can keep either from ending it.
pub proof fn lemma_loop_stops_on_exit_or_disconnect(kind: MessageKind, grabbed: bool, gui_consumed: bool)
    ensures
        (spec_message_flow(kind, grabbed, gui_consumed) == MessageFlow::RequestExit
            || spec_message_flow(kind, grabbed, gui_consumed) == MessageFlow::Stop) <==> (kind
            == MessageKind::ExitRequested || kind == MessageKind::Disconnected),
{
}

/// How rendering a frame went.
#[derive(Clone, Copy, PartialEq, Eq, Debug)]
pub enum RenderOutcome {
    /// The frame was presented; `suboptimal` when the swapchain no longer
    /// matches the window exactly.
    Rendered { suboptimal: bool },
    /// The swapchain is out of date with the window.
    OutOfDate,
    /// Rendering failed otherwise.
    Failed,
}

/// What the client does after rendering a frame.
#[derive(Clone, Copy, PartialEq, Eq, Debug)]
pub enum AfterRender {
    /// Record the frame's times and go on.
    Continue,
    /// Record the frame's times, then recreate the renderer for the
    /// window as it is now.
    RecreateRenderer,
    /// Report the error.
    Fail,
}

/// The client's answer to a frame's outcome: an out-of-date or suboptimal
/// swapchain is recreated, any other failure is reported.
pub fn after_render(outcome: RenderOutcome) -> (a: AfterRender)
    ensures
        a == match outcome {
            RenderOutcome::Rendered { suboptimal } => if suboptimal {
                AfterRender::RecreateRenderer
            } else {
                AfterRender::Continue
            },
            RenderOutcome::OutOfDate => AfterRender::RecreateRenderer,
            RenderOutcome::Failed => AfterRender::Fail,
        },
{
    match outcome {
        RenderOutcome::Rendered { suboptimal } => {
            if suboptimal {
                AfterRender::RecreateRenderer
            } else {
                AfterRender::Continue
            }
        },
        RenderOutcome::OutOfDate => AfterRender::RecreateRenderer,
        RenderOutcome::Failed => AfterRender::Fail,
    }
}

/// Which debug windows are open.
#[derive(Clone, Copy, PartialEq, Eq, Debug, Default)]
pub struct DebugWindows {
    pub frame_times: bool,
    pub information: bool,
    pub log: bool,
}

/// Which movement keys are held.
#[derive(Clone, Copy, PartialEq, Eq, Debug)]
pub struct ControlState {
    pub forward: bool,
    pub backward: bool,
    pub left: bool,
    pub right: bool,
}

/// The keys the client reacts to.
#[derive(Clone, Copy, PartialEq, Eq, Debug)]
pub enum Key {
    W,
    A,
    S,
    D,
    F1,
    F2,
    F3,
    F9,
    F10,
    Escape,
    Other,
}

/// What the window or the renderer must do after an input event.
#[derive(Clone, Copy, PartialEq, Eq, Debug)]
pub enum InputAction {
    Nothing,
    RecreateRenderer,
    ToggleFullscreen,
    /// Hide the cursor and confine it to the window.
    GrabCursor,
    /// Centre the cursor, show it and free it.
    ReleaseCursor,
}

/// The input-driven state of the client.
#[derive(Clone, Copy, PartialEq, Eq, Debug)]
pub struct InputState {
    pub control: ControlState,
    pub windows: DebugWindows,
    pub vsync: bool,
    pub grab: bool,
}

/// The action `set_grab(grab)` asks for in state `s`.
pub open spec fn grab_action(s: InputState, grab: bool) -> InputAction {
    if s.grab == grab {
        InputAction::Nothing
    } else if grab {
        InputAction::GrabCursor
    } else {
        InputAction::ReleaseCursor
    }
}

/// The state after key `key` was pressed (`pressed`) or released.
pub open spec fn spec_key(s: InputState, key: Key, pressed: bool) -> InputState {
    match key {
        Key::W => InputState { control: ControlState { forward: pressed, ..s.control }, ..s },
        Key::A => InputState { control: ControlState { left: pressed, ..s.control }, ..s },
        Key::S => InputState { control: ControlState { backward: pressed, ..s.control }, ..s },
        Key::D => InputState { control: ControlState { right: pressed, ..s.control }, ..s },
        Key::F1 => if pressed {
            InputState {
                windows: DebugWindows { information: !s.windows.information, ..s.windows },
                ..s
            }
        } else {
            s
        },
        Key::F2 => if pressed {
            InputState {
                windows: DebugWindows { frame_times: !s.windows.frame_times, ..s.windows },
                ..s
            }
        } else {
            s
        },
        Key::F3 => if pressed {
            InputState { windows: DebugWindows { log: !s.windows.log, ..s.windows }, ..s }
        } else {
            s
        },
        Key::F9 => if pressed {
            InputState { vsync: !s.vsync, ..s }
        } else {
            s
        },
        Key::F10 => s,
        Key::Escape => InputState { grab: false, ..s },
        Key::Other => s,
    }
}

/// The action a key event asks for.
pub open spec fn spec_key_action(s: InputState, key: Key, pressed: bool) -> InputAction {
    match key {
        Key::F9 => if pressed {
            InputAction::RecreateRenderer
        } else {
            InputAction::Nothing
        },
        Key::F10 => if pressed {
            InputAction::ToggleFullscreen
        } else {
            InputAction::Nothing
        },
        Key::Escape => grab_action(s, false),
        _ => InputAction::Nothing,
    }
}

impl InputState {
    /// No key held, no debug window open, vsync on, cursor free.
    pub fn new() -> (s: Self)
        ensures
            s.control == (ControlState { forward: false, backward: false, left: false, right: false }),
            s.windows == (DebugWindows { frame_times: false, information: false, log: false }),
            s.vsync,
            !s.grab,
    {
        InputState {
            control: ControlState { forward: false, backward: false, left: false, right: false },
            windows: DebugWindows { frame_times: false, information: false, log: false },
            vsync: true,
            grab: false,
        }
    }

    /// Grabs or frees the cursor; nothing happens when it already is so.
    pub fn set_grab(&mut self, grab: bool) -> (a: InputAction)
        ensures
            a == grab_action(*old(self), grab),
            *final(self) == (InputState { grab, ..*old(self) }),
    {
        if self.grab == grab {
            return InputAction::Nothing;
        }
        self.grab = grab;
        if grab {
            InputAction::GrabCursor
        } else {
            InputAction::ReleaseCursor
        }
    }

    /// Handles a key press or release: movement keys follow the key, F1-F3
    /// toggle the debug windows, F9 toggles vsync, F10 fullscreen, Escape
    /// frees the cursor.
    pub fn key(&mut self, key: Key, pressed: bool) -> (a: InputAction)
        ensures
            *final(self) == spec_key(*old(self), key, pressed),
            a == spec_key_action(*old(self), key, pressed),
    {
        match key {
            Key::W => {
                self.control.forward = pressed;
                InputAction::Nothing
            },
            Key::A => {
                self.control.left = pressed;
                InputAction::Nothing
            },
            Key::S => {
                self.control.backward = pressed;
                InputAction::Nothing
            },
            Key::D => {
                self.control.right = pressed;
                InputAction::Nothing
            },
            Key::F1 => {
                if pressed {
                    self.windows.information = !self.windows.information;
                }
                InputAction::Nothing
            },
            Key::F2 => {
                if pressed {
                    self.windows.frame_times = !self.windows.frame_times;
                }
                InputAction::Nothing
            },
            Key::F3 => {
                if pressed {
                    self.windows.log = !self.windows.log;
                }
                InputAction::Nothing
            },
            Key::F9 => {
                if pressed {
                    self.vsync = !self.vsync;
                    InputAction::RecreateRenderer
                } else {
                    InputAction::Nothing
                }
            },
            Key::F10 => {
                if pressed {
                    InputAction::ToggleFullscreen
                } else {
                    InputAction::Nothing
                }
            },
            Key::Escape => self.set_grab(false),
            Key::Other => InputAction::Nothing,
        }
    }

    /// A mouse button was pressed or released: the left button grabs the
    /// cursor.
    pub fn mouse_button(&mut self, left: bool) -> (a: InputAction)
        ensures
            left ==> a == grab_action(*old(self), true) && *final(self) == (InputState {
                grab: true,
                ..*old(self)
            }),
            !left ==> a == InputAction::Nothing && *final(self) == *old(self),
    {
        if left {
            self.set_grab(true)
        } else {
            InputAction::Nothing
        }
    }

    /// The window gained or lost focus: losing it frees the cursor.
    pub fn focus(&mut self, focused: bool) -> (a: InputAction)
        ensures
            !focused ==> a == grab_action(*old(self), false) && *final(self) == (InputState {
                grab: false,
                ..*old(self)
            }),
            focused ==> a == InputAction::Nothing && *final(self) == *old(self),
    {
        if !focused {
            self.set_grab(false)
        } else {
            InputAction::Nothing
        }
    }

    /// Whether cursor motion is taken by the grabbed cursor before any other
    /// handler sees it.
    pub fn captures_cursor_motion(&self) -> (r: bool)
        ensures
            r == self.grab,
    {
        self.grab
    }
}

/// Grabbing is idempotent: asking twice for the same grab state changes
/// nothing the second time, and the state always ends as last asked.
pub proof fn lemma_grab_idempotent(s: InputState, grab: bool)
    ensures
        (InputState { grab, ..s }).grab == grab,
        grab_action(InputState { grab, ..s }, grab) == InputAction::Nothing,
{
}

/// Pressing a toggle key twice restores the windows and the vsync setting.
pub proof fn lemma_toggle_twice(s: InputState, key: Key)
    requires
        key == Key::F1 || key == Key::F2 || key == Key::F3 || key == Key::F9,
    ensures
        spec_key(spec_key(s, key, true), key, true) == s,
{
}

/// Severity of a log record.
#[derive(Clone, Copy, PartialEq, Eq, Debug)]
pub enum LogLevel {
    Error,
    Warn,
    Info,
    Debug,
    Trace,
}

/// The label shown for a log level.
pub fn level_text(level: LogLevel) -> (s: &'static str)
    ensures
        level == LogLevel::Error ==> s@ == "ERROR"@,
        level == LogLevel::Warn ==> s@ == "WARN"@,
        level == LogLevel::Info ==> s@ == "INFO"@,
        level == LogLevel::Debug ==> s@ == "DEBUG"@,
        level == LogLevel::Trace ==> s@ == "TRACE"@,
{
    match level {
        LogLevel::Error => "ERROR",
        LogLevel::Warn => "WARN",
        LogLevel::Info => "INFO",
        LogLevel::Debug => "DEBUG",
        LogLevel::Trace => "TRACE",
    }
}

/// A record of the in-game log.
pub struct LogRecord {
    pub level: LogLevel,
    pub target: String,
    pub args: String,
}

/// The in-game log: its records and how many of them are kept.
pub struct DebugLog {
    pub records: VecDeque<LogRecord>,
    pub scroll_to_bottom: bool,
    pub limit_entries: bool,
    pub entry_limit: usize,
}

impl View for DebugLog {
    type V = Seq<LogRecord>;

    closed spec fn view(&self) -> Seq<LogRecord> {
        self.records@
    }
}

/// The records after `r` was logged: appended, and when the log is limited
/// and now exceeds the limit, the oldest record is dropped.
pub open spec fn spec_logged(
    records: Seq<LogRecord>,
    r: LogRecord,
    limit_entries: bool,
    limit: usize,
) -> Seq<LogRecord> {
    let grown = records.push(r);
    if limit_entries && limit < grown.len() {
        grown.drop_first()
    } else {
        grown
    }
}

impl DebugLog {
    /// An empty log that scrolls to the bottom and keeps every record
    /// (with a limit of 20 ready for when limiting is switched on).
    pub fn new() -> (l: Self)
        ensures
            l@ == Seq::<LogRecord>::empty(),
            l.scroll_to_bottom,
            !l.limit_entries,
            l.entry_limit == 20,
    {
        DebugLog {
            records: VecDeque::new(),
            scroll_to_bottom: true,
            limit_entries: false,
            entry_limit: 20,
        }
    }

    /// The number of records.
    pub fn len(&self) -> (n: usize)
        ensures
            n == self@.len(),
    {
        self.records.len()
    }

    /// Adds a record.
    pub fn log(&mut self, level: LogLevel, target: String, args: String)
        ensures
            final(self)@ == spec_logged(
                old(self)@,
                LogRecord { level, target, args },
                old(self).limit_entries,
                old(self).entry_limit,
            ),
            final(self).limit_entries == old(self).limit_entries,
            final(self).entry_limit == old(self).entry_limit,
            final(self).scroll_to_bottom == old(self).scroll_to_bottom,
    {
        self.records.push_back(LogRecord { level, target, args });
        if self.limit_entries && self.entry_limit < self.records.len() {
            self.records.pop_front();
        }
    }

    /// Drops the oldest records beyond the limit, when limiting is on.
    pub fn enforce_limit(&mut self)
        ensures
            old(self).limit_entries && old(self).entry_limit < old(self)@.len() ==> final(self)@
                == old(self)@.skip(old(self)@.len() - old(self).entry_limit),
            !(old(self).limit_entries && old(self).entry_limit < old(self)@.len()) ==> final(self)@ == old(self)@,
            final(self).limit_entries == old(self).limit_entries,
            final(self).entry_limit == old(self).entry_limit,
            final(self).scroll_to_bottom == old(self).scroll_to_bottom,
    {
        if !self.limit_entries {
            return;
        }
        let ghost start = self@;
        while self.records.len() > self.entry_limit
            invariant
                self.limit_entries == old(self).limit_entries,
                self.entry_limit == old(self).entry_limit,
                self.scroll_to_bottom == old(self).scroll_to_bottom,
                start == old(self)@,
                self@.len() >= self.entry_limit || self@ == start,
                self@ == start.skip(start.len() - self@.len()),
                self@.len() <= start.len(),
            decreases self@.len(),
        {
            self.records.pop_front();
        }
        assert(start.skip(0) =~= start);
    }

    /// Removes every record.
    pub fn clear(&mut self)
        ensures
            final(self)@ == Seq::<LogRecord>::empty(),
            final(self).limit_entries == old(self).limit_entries,
            final(self).entry_limit == old(self).entry_limit,
            final(self).scroll_to_bottom == old(self).scroll_to_bottom,
    {
        self.records.clear();
    }
}

/// With limiting on, a log within its limit stays within it after logging.
pub proof fn lemma_log_stays_within_limit(records: Seq<LogRecord>, r: LogRecord, limit: usize)
    requires
        records.len() <= limit,
    ensures
        spec_logged(records, r, true, limit).len() <= limit,
        limit > 0 ==> spec_logged(records, r, true, limit).last() == r,
{
}

/// Counts frames and the frame rate of the last completed second.
pub struct FrameCounter {
    pub frame_count: usize,
    pub frames_per_second: usize,
    pub last_frame_count: usize,
}

impl FrameCounter {
    /// No frame counted yet.
    pub fn new() -> (c: Self)
        ensures
            c.frame_count == 0,
            c.frames_per_second == 0,
            c.last_frame_count == 0,
    {
        FrameCounter { frame_count: 0, frames_per_second: 0, last_frame_count: 0 }
    }

    /// Counts a finished frame; `second_passed` tells whether a second has
    /// gone by since the last rate update, which then sets the rate to the
    /// frames counted since.
    pub fn end_frame(&mut self, second_passed: bool)
        requires
            old(self).frame_count < usize::MAX,
            old(self).last_frame_count <= old(self).frame_count,
        ensures
            final(self).frame_count == old(self).frame_count + 1,
            second_passed ==> final(self).frames_per_second == final(self).frame_count
                - old(self).last_frame_count && final(self).last_frame_count == final(self).frame_count,
            !second_passed ==> final(self).frames_per_second == old(self).frames_per_second
                && final(self).last_frame_count == old(self).last_frame_count,
            final(self).last_frame_count <= final(self).frame_count,
    {
        self.frame_count = self.frame_count + 1;
        if second_passed {
            self.frames_per_second = self.frame_count - self.last_frame_count;
            self.last_frame_count = self.frame_count;
        }
    }
}

/// The index range of a mesh in the scene's shared vertex and index
/// buffers.
#[derive(Clone, Copy, PartialEq, Eq, Debug)]
pub struct Mesh {
    pub first_index: u32,
    pub index_count: u32,
    pub vertex_offset: i32,
}

impl Mesh {
    /// Where a mesh of `index_count` indices lands when appended to buffers
    /// holding `vertex_count` vertices and `index_len` indices. The counts
    /// are cut to the widths of the GPU's draw command fields.
    pub fn appended(vertex_count: usize, index_len: usize, index_count: usize) -> (m: Self)
        ensures
            m.vertex_offset == vertex_count as i32,
            m.first_index == index_len as u32,
            m.index_count == index_count as u32,
            vertex_count <= i32::MAX ==> m.vertex_offset == vertex_count,
            index_len <= u32::MAX ==> m.first_index == index_len,
            index_count <= u32::MAX ==> m.index_count == index_count,
    {
        Mesh {
            first_index: index_len as u32,
            index_count: index_count as u32,
            vertex_offset: vertex_count as i32,
        }
    }
}

/// Where the client finds its world.
#[derive(Debug)]
pub enum Resolver {
    /// Create a new world and serve it locally.
    Create { token: String, port: u16 },
    /// Open the existing local world.
    Open { token: String, port: u16 },
    /// Join a world served elsewhere.
    Remote { hostname: String, port: u16, token: String, skip_verification: bool },
}

impl Resolver {
    /// Whether the world is served by this process.
    pub fn is_local(&self) -> (r: bool)
        ensures
            r <==> !(self is Remote),
    {
        match self {
            Resolver::Create { .. } => true,
            Resolver::Open { .. } => true,
            Resolver::Remote { .. } => false,
        }
    }

    /// Whether a new world must be created before it is served.
    pub fn creates_world(&self) -> (r: bool)
        ensures
            r <==> self is Create,
    {
        match self {
            Resolver::Create { .. } => true,
            _ => false,
        }
    }
}

/// The shader compiler could not be set up.
#[derive(Clone, Copy, PartialEq, Eq, Debug)]
pub struct CompilerInitializationError;

/// Each movement key drives its own direction: W forward, A left, S
/// backward, D right. The key's field follows the press state, nothing else
/// of the state changes, and the key asks for no action.
pub proof fn lemma_movement_keys(s: InputState, pressed: bool)
    ensures
        spec_key(s, Key::W, pressed) == (InputState {
            control: ControlState {
                forward: pressed,
                backward: s.control.backward,
                left: s.control.left,
                right: s.control.right,
            },
            windows: s.windows,
            vsync: s.vsync,
            grab: s.grab,
        }),
        spec_key(s, Key::A, pressed) == (InputState {
            control: ControlState {
                forward: s.control.forward,
                backward: s.control.backward,
                left: pressed,
                right: s.control.right,
            },
            windows: s.windows,
            vsync: s.vsync,
            grab: s.grab,
        }),
        spec_key(s, Key::S, pressed) == (InputState {
            control: ControlState {
                forward: s.control.forward,
                backward: pressed,
                left: s.control.left,
                right: s.control.right,
            },
            windows: s.windows,
            vsync: s.vsync,
            grab: s.grab,
        }),
        spec_key(s, Key::D, pressed) == (InputState {
            control: ControlState {
                forward: s.control.forward,
                backward: s.control.backward,
                left: s.control.left,
                right: pressed,
            },
            windows: s.windows,
            vsync: s.vsync,
            grab: s.grab,
        }),
        spec_key_action(s, Key::W, pressed) == InputAction::Nothing,
        spec_key_action(s, Key::A, pressed) == InputAction::Nothing,
        spec_key_action(s, Key::S, pressed) == InputAction::Nothing,
        spec_key_action(s, Key::D, pressed) == InputAction::Nothing,
{
}

/// Only window events are ever taken before the client's own handling:
/// cursor motion exactly when the cursor is grabbed or the GUI consumed it,
/// another window event exactly when the GUI consumed it. Every other
/// message but an exit request or a disconnect (device events such as raw
/// mouse motion among them) is handled, whatever the grab and the GUI.
pub proof fn lemma_only_window_events_taken(kind: MessageKind, grabbed: bool, gui_consumed: bool)
    ensures
        spec_message_flow(kind, grabbed, gui_consumed) == MessageFlow::Taken ==> (kind
            == MessageKind::CursorMoved || kind == MessageKind::WindowEvent),
        kind == MessageKind::CursorMoved ==> (spec_message_flow(kind, grabbed, gui_consumed)
            == MessageFlow::Taken <==> (grabbed || gui_consumed)),
        kind == MessageKind::WindowEvent ==> (spec_message_flow(kind, grabbed, gui_consumed)
            == MessageFlow::Taken <==> gui_consumed),
        kind != MessageKind::ExitRequested && kind != MessageKind::Disconnected && kind
            != MessageKind::CursorMoved && kind != MessageKind::WindowEvent ==> spec_message_flow(
            kind,
            grabbed,
            gui_consumed,
        ) == MessageFlow::Handle,
{
}

/// With limiting off, logging only appends: every earlier record stays, in
/// order, and the new one comes last, whatever the limit. With limiting on,
/// a log with room for the record also just appends.
pub proof fn lemma_log_appends(records: Seq<LogRecord>, r: LogRecord, limit: usize)
    ensures
        spec_logged(records, r, false, limit) == records.push(r),
        records.len() < limit ==> spec_logged(records, r, true, limit) == records.push(r),
        spec_logged(records, r, false, limit).len() == records.len() + 1,
{
}

} // verus!
