//! What the user's actions and the capture worker's reports do to the
//! application: the state machine, the status line and the frame counter.
//! Each function returns what the caller has to do next.

use crate::capture::CaptureTarget;
use crate::export::{
    existing, gif_config, plan_export, spec_export_fps, ExportError, ExportPlan,
    ExportRefusal, GifExportConfig, DEFAULT_FPS, DEFAULT_QUALITY,
};
use crate::geometry::{clamp_span, clamped_extent, clamped_origin, max_int, Rect};
use crate::overlay::is_coordinate;
use crate::state::{
    legal, AppState, RecordingSession, RecordingTarget, StateMachine, Transition,
};
use crate::text::{decimal, frame_path_list, push_decimal, views};
use crate::worker::{CaptureCommand, CaptureResult, NANOS_PER_SEC};
use vstd::prelude::*;
use vstd::string::*;

verus! {

/// The frame rate of every recording.
pub const RECORDING_FPS: u8 = 15;

/// A monitor: its handle and its edges in screen coordinates.
#[derive(Debug, Clone, Copy, PartialEq, Eq, Structural)]
pub struct MonitorInfo {
    pub hmonitor: isize,
    pub left: i32,
    pub top: i32,
    pub right: i32,
    pub bottom: i32,
}

impl MonitorInfo {
    /// The monitor's width and height are coordinates themselves.
    pub open spec fn wf(&self) -> bool {
        self.right - self.left <= i32::MAX && self.bottom - self.top <= i32::MAX
    }

    /// The monitor's width; edges in the wrong order give none.
    pub open spec fn spec_width(&self) -> int {
        max_int(self.right - self.left, 0)
    }

    /// The monitor's height; edges in the wrong order give none.
    pub open spec fn spec_height(&self) -> int {
        max_int(self.bottom - self.top, 0)
    }
}

/// The part of a selection that lies on a monitor, in the monitor's own
/// pixel space; none if no pixel of the selection lies on it.
pub open spec fn spec_monitor_crop(rect: Rect, monitor: MonitorInfo) -> Option<Rect> {
    let x = clamped_origin(rect.x - monitor.left);
    let y = clamped_origin(rect.y - monitor.top);
    let w = clamped_extent(rect.x - monitor.left, rect.width as int, monitor.spec_width());
    let h = clamped_extent(rect.y - monitor.top, rect.height as int, monitor.spec_height());
    if w == 0 || h == 0 {
        None
    } else {
        Some(Rect { x: x as i32, y: y as i32, width: w as u32, height: h as u32 })
    }
}

/// The region that is really recorded, in screen coordinates: the crop
/// rectangle moved back to the screen, or the selection itself where there
/// is no crop rectangle.
pub open spec fn spec_recording_rect(rect: Rect, monitor: MonitorInfo) -> Rect {
    match spec_monitor_crop(rect, monitor) {
        Some(c) => Rect {
            x: (monitor.left + c.x) as i32,
            y: (monitor.top + c.y) as i32,
            width: c.width,
            height: c.height,
        },
        None => rect,
    }
}

/// The point in the middle of a selection, by which its monitor is found.
pub fn selection_center(rect: &Rect) -> (c: (i32, i32))
    requires
        is_coordinate(rect.x + rect.width / 2),
        is_coordinate(rect.y + rect.height / 2),
    ensures
        c.0 == rect.x + rect.width / 2,
        c.1 == rect.y + rect.height / 2,
{
    let x: i64 = rect.x as i64 + (rect.width / 2) as i64;
    let y: i64 = rect.y as i64 + (rect.height / 2) as i64;
    (x as i32, y as i32)
}

/// Turns a selection on the screen into a monitor capture: the target, the
/// crop rectangle in the monitor's own pixel space, and the region that is
/// recorded. A selection that starts left of or above the monitor is cut to
/// it: the origin moves to the monitor's edge and the extent shrinks by as
/// much; what reaches past the monitor is cut too.
pub fn determine_monitor_capture(rect: &Rect, monitor: &MonitorInfo) -> (r: (
    RecordingTarget,
    Option<Rect>,
    Rect,
))
    requires
        monitor.wf(),
    ensures
        r.0 == (RecordingTarget::Monitor { hmonitor: monitor.hmonitor, region: *rect }),
        r.1 == spec_monitor_crop(*rect, *monitor),
        r.2 == spec_recording_rect(*rect, *monitor),
        r.1.is_some() ==> r.1.unwrap().x >= 0 && r.1.unwrap().y >= 0 && r.1.unwrap().spec_right()
            <= monitor.spec_width() && r.1.unwrap().spec_bottom() <= monitor.spec_height(),
{
    let width: i64 = if monitor.right > monitor.left {
        monitor.right as i64 - monitor.left as i64
    } else {
        0
    };
    let height: i64 = if monitor.bottom > monitor.top {
        monitor.bottom as i64 - monitor.top as i64
    } else {
        0
    };
    let rel_x: i64 = rect.x as i64 - monitor.left as i64;
    let rel_y: i64 = rect.y as i64 - monitor.top as i64;
    let w: u32 = clamp_span(rel_x, rect.width, width as u32);
    let h: u32 = clamp_span(rel_y, rect.height, height as u32);
    let crop: Option<Rect> = if w == 0 || h == 0 {
        None
    } else {
        let x: i64 = if rel_x < 0 { 0 } else { rel_x };
        let y: i64 = if rel_y < 0 { 0 } else { rel_y };
        Some(Rect { x: x as i32, y: y as i32, width: w, height: h })
    };
    let recording: Rect = match crop {
        Some(c) => Rect {
            x: (monitor.left as i64 + c.x as i64) as i32,
            y: (monitor.top as i64 + c.y as i64) as i32,
            width: c.width,
            height: c.height,
        },
        None => *rect,
    };
    (RecordingTarget::Monitor { hmonitor: monitor.hmonitor, region: *rect }, crop, recording)
}

/// The crop rectangle of a monitor capture covers exactly the pixels of the
/// selection that lie on the monitor.
pub proof fn lemma_monitor_crop_is_intersection(rect: Rect, monitor: MonitorInfo, x: int, y: int)
    requires
        monitor.wf(),
    ensures
        (spec_monitor_crop(rect, monitor) matches Some(c) && c.spec_contains(
            x - monitor.left,
            y - monitor.top,
        )) <==> (rect.spec_contains(x, y) && monitor.left <= x < monitor.left
            + monitor.spec_width() && monitor.top <= y < monitor.top + monitor.spec_height()),
{
}

/// The name of a session's directory for a token that tells sessions apart.
pub open spec fn spec_session_dir_name(token: Seq<char>) -> Seq<char> {
    "tinycapture_"@ + token
}

/// The name of a session's directory for a token that tells sessions apart.
pub fn session_dir_name(token: &str) -> (name: String)
    ensures
        name@ == spec_session_dir_name(token@),
{
    String::from_str("tinycapture_").concat(token)
}

/// `uuid::Uuid::new_v4`, written out as text: a new random identifier in the
/// hyphenated form, which has thirty-six characters.
#[verifier::external_body]
fn random_token() -> (token: String)
    ensures
        token@.len() == 36,
{
    uuid::Uuid::new_v4().to_string()
}

/// The name of a directory for a new session: the fixed prefix and a new
/// random token.
pub fn new_session_dir_name() -> (name: String)
    ensures
        exists|token: Seq<char>| token.len() == 36 && name@ == spec_session_dir_name(token),
{
    let token = random_token();
    session_dir_name(token.as_str())
}

/// The whole seconds nearest to a duration in nanoseconds, halves rounded up.
pub open spec fn rounded_secs(nanos: u64) -> u64 {
    (nanos / NANOS_PER_SEC + if nanos % NANOS_PER_SEC >= NANOS_PER_SEC / 2 {
        1int
    } else {
        0int
    }) as u64
}

/// The status line while recording, after the given whole seconds.
pub open spec fn recording_text(elapsed_secs: u64) -> Seq<char> {
    "录制中... "@ + decimal(elapsed_secs as nat) + "s"@
}

/// The status line after a recording of the given duration.
pub open spec fn recorded_text(duration_nanos: u64) -> Seq<char> {
    "录制完成 ("@ + decimal(rounded_secs(duration_nanos) as nat) + "s)"@
}

/// The status line after an error of the capture worker.
pub open spec fn error_text(message: Seq<char>) -> Seq<char> {
    "错误: "@ + message
}

/// The status line where recorded frames have no files.
pub open spec fn no_files_text(expected: usize) -> Seq<char> {
    "没有找到录制的帧文件（预期 "@ + decimal(expected as nat) + " 帧）"@
}

/// The status line after an export to a path.
pub open spec fn exported_text(path: Seq<char>) -> Seq<char> {
    "已导出: "@ + path
}

/// The status line after a failed export.
pub open spec fn export_failed_text(message: Seq<char>) -> Seq<char> {
    "导出失败: "@ + message
}

/// What the user interface shows and the state machine behind it.
pub struct UiState {
    pub state_machine: StateMachine,
    pub status_text: String,
    pub frame_count: usize,
}

impl UiState {
    /// The machine's state.
    pub open spec fn state(&self) -> AppState {
        self.state_machine.spec_state()
    }

    /// The machine's session.
    pub open spec fn session(&self) -> Option<RecordingSession> {
        self.state_machine.spec_session()
    }

    /// An idle application.
    pub fn new() -> (ui: UiState)
        ensures
            ui.state() == AppState::Idle,
            ui.session().is_none(),
            ui.status_text@ == "就绪"@,
            ui.frame_count == 0,
    {
        UiState {
            state_machine: StateMachine::new(),
            status_text: String::from_str("就绪"),
            frame_count: 0,
        }
    }

    /// Which of the three actions are enabled: record, stop, export.
    pub fn enabled_actions(&self) -> (r: (bool, bool, bool))
        ensures
            r.0 == self.state().spec_can_record(),
            r.1 == self.state().spec_can_stop(),
            r.2 == self.state().spec_can_export(),
    {
        let state = self.state_machine.state();
        (state.can_record(), state.can_stop(), state.can_export())
    }

    /// The line that shows the frame counter; none while it is zero.
    pub fn frame_counter_text(&self) -> (r: Option<String>)
        ensures
            r.is_some() == (self.frame_count > 0),
            r.is_some() ==> r.unwrap()@ == "已录制帧数: "@ + decimal(self.frame_count as nat),
    {
        if self.frame_count > 0 {
            let mut text = String::from_str("已录制帧数: ");
            push_decimal(&mut text, self.frame_count as u64);
            Some(text)
        } else {
            None
        }
    }

    /// The user asks to record: selecting begins if the machine allows it.
    /// The result tells whether the picker is to be shown.
    pub fn on_record_click(&mut self) -> (ok: bool)
        ensures
            ok == legal(old(self).state(), Transition::StartSelecting),
            old(self).state_machine.stepped(Transition::StartSelecting, &final(self).state_machine),
            final(self).frame_count == old(self).frame_count,
            final(self).status_text@ == if ok {
                "选择区域..."@
            } else {
                old(self).status_text@
            },
    {
        if !self.state_machine.start_selecting() {
            return false;
        }
        self.status_text = String::from_str("选择区域...");
        true
    }

    /// The picker returned a region. A session for the monitor capture begins
    /// if the machine is selecting; the result is the command for the capture
    /// worker, or none if the machine was not selecting, in which case
    /// nothing changes.
    pub fn on_region_selected(&mut self, rect: Rect, monitor: MonitorInfo, temp_dir: String) -> (cmd:
        Option<CaptureCommand>)
        requires
            monitor.wf(),
        ensures
            cmd.is_some() == (old(self).state() == AppState::Selecting),
            cmd.is_none() ==> final(self).state() == old(self).state() && final(self).session()
                == old(self).session() && final(self).status_text@ == old(self).status_text@
                && final(self).frame_count == old(self).frame_count,
            cmd.is_some() ==> {
                &&& final(self).state() == AppState::Recording
                &&& final(self).session() == Some(
                    RecordingSession {
                        target: RecordingTarget::Monitor {
                            hmonitor: monitor.hmonitor,
                            region: rect,
                        },
                        region: spec_recording_rect(rect, monitor),
                        temp_dir: temp_dir,
                        frame_count: 0,
                        duration_nanos: 0,
                        fps: RECORDING_FPS,
                    },
                )
                &&& final(self).status_text@ == "录制中..."@
                &&& final(self).frame_count == 0
                &&& cmd.unwrap() is Start
                &&& cmd.unwrap()->target == CaptureTarget::Monitor(monitor.hmonitor)
                &&& cmd.unwrap()->crop_rect == spec_monitor_crop(rect, monitor)
                &&& cmd.unwrap()->output_dir@ == temp_dir@
                &&& cmd.unwrap()->fps == RECORDING_FPS
            },
    {
        let (target, crop_rect, recording_rect) = determine_monitor_capture(&rect, &monitor);
        let output_dir = temp_dir.clone();
        let session = RecordingSession::new(target, recording_rect, temp_dir, RECORDING_FPS);
        if !self.state_machine.start_recording(session) {
            return None;
        }
        self.status_text = String::from_str("录制中...");
        self.frame_count = 0;
        Some(
            CaptureCommand::Start {
                target: CaptureTarget::Monitor(monitor.hmonitor),
                crop_rect,
                output_dir,
                fps: RECORDING_FPS,
            },
        )
    }

    /// The picker returned a window. A session for the window capture begins
    /// if the machine is selecting; the result is the command for the capture
    /// worker, or none if the machine was not selecting, in which case
    /// nothing changes.
    pub fn on_window_selected(&mut self, hwnd: isize, rect: Rect, temp_dir: String) -> (cmd: Option<
        CaptureCommand,
    >)
        ensures
            cmd.is_some() == (old(self).state() == AppState::Selecting),
            cmd.is_none() ==> final(self).state() == old(self).state() && final(self).session()
                == old(self).session() && final(self).status_text@ == old(self).status_text@
                && final(self).frame_count == old(self).frame_count,
            cmd.is_some() ==> {
                &&& final(self).state() == AppState::Recording
                &&& final(self).session() == Some(
                    RecordingSession {
                        target: RecordingTarget::Window { hwnd },
                        region: rect,
                        temp_dir: temp_dir,
                        frame_count: 0,
                        duration_nanos: 0,
                        fps: RECORDING_FPS,
                    },
                )
                &&& final(self).status_text@ == "录制中..."@
                &&& final(self).frame_count == 0
                &&& cmd.unwrap() is Start
                &&& cmd.unwrap()->target == CaptureTarget::Window(hwnd)
                &&& cmd.unwrap()->crop_rect.is_none()
                &&& cmd.unwrap()->output_dir@ == temp_dir@
                &&& cmd.unwrap()->fps == RECORDING_FPS
            },
    {
        let output_dir = temp_dir.clone();
        let session = RecordingSession::new(
            RecordingTarget::Window { hwnd },
            rect,
            temp_dir,
            RECORDING_FPS,
        );
        if !self.state_machine.start_recording(session) {
            return None;
        }
        self.status_text = String::from_str("录制中...");
        self.frame_count = 0;
        Some(
            CaptureCommand::Start {
                target: CaptureTarget::Window(hwnd),
                crop_rect: None,
                output_dir,
                fps: RECORDING_FPS,
            },
        )
    }

    /// The picker was cancelled or failed: the machine leaves the selecting
    /// state, and the status line says so.
    pub fn on_selection_cancelled(&mut self) -> (ok: bool)
        ensures
            ok == legal(old(self).state(), Transition::CancelSelecting),
            old(self).state_machine.stepped(Transition::CancelSelecting, &final(self).state_machine),
            final(self).frame_count == old(self).frame_count,
            final(self).status_text@ == "已取消"@,
    {
        let ok = self.state_machine.cancel_selecting();
        self.status_text = String::from_str("已取消");
        ok
    }

    /// The user asks to stop: the machine leaves the recording state, the
    /// status line says that the recording is complete, and the result is
    /// the command for the capture worker.
    pub fn on_stop_click(&mut self) -> (cmd: CaptureCommand)
        ensures
            cmd is Stop,
            old(self).state_machine.stepped(Transition::StopRecording, &final(self).state_machine),
            final(self).frame_count == old(self).frame_count,
            final(self).status_text@ == "录制完成"@,
    {
        let _ = self.state_machine.stop_recording();
        self.status_text = String::from_str("录制完成");
        CaptureCommand::Stop
    }

    /// The paths at which the session's frames are expected, by index; none
    /// without a session.
    pub fn expected_frames(&self) -> (paths: Option<Vec<String>>)
        ensures
            paths.is_some() == self.session().is_some(),
            paths.is_some() ==> views(paths.unwrap()@) == frame_path_list(
                self.session().unwrap().temp_dir@,
                self.session().unwrap().frame_count as nat,
            ),
    {
        match self.state_machine.session() {
            Some(s) => Some(s.all_frame_paths()),
            None => None,
        }
    }

    /// The user asks to export. `exists` tells for each expected frame, by
    /// index, whether its file is there. Without a session nothing happens.
    /// A session without frames, or without any file, is refused and the
    /// status line says why. Else the result is the plan of the export: the
    /// frames that are there and the frame rate. The machine stays as it is.
    pub fn on_export_click(&mut self, exists: &Vec<bool>) -> (plan: Option<ExportPlan>)
        ensures
            final(self).state_machine == old(self).state_machine,
            final(self).frame_count == old(self).frame_count,
            match old(self).session() {
                None => plan.is_none() && final(self).status_text@ == old(self).status_text@,
                Some(s) => {
                    let valid = existing(
                        frame_path_list(s.temp_dir@, s.frame_count as nat),
                        exists@,
                    );
                    &&& s.frame_count == 0 ==> plan.is_none() && final(self).status_text@
                        == "无可导出的帧，请先录制"@
                    &&& s.frame_count > 0 && valid.len() == 0 ==> plan.is_none() && final(self).status_text@ == no_files_text(s.frame_count)
                    &&& s.frame_count > 0 && valid.len() > 0 ==> {
                        &&& plan.is_some()
                        &&& views(plan.unwrap().frames@) == valid
                        &&& plan.unwrap().missing == s.frame_count - valid.len()
                        &&& plan.unwrap().fps == spec_export_fps(
                            s.frame_count as nat,
                            s.duration_nanos as nat,
                            DEFAULT_FPS,
                        )
                        &&& final(self).status_text@ == old(self).status_text@
                    }
                },
            },
    {
        let planned = match self.state_machine.session() {
            Some(s) => plan_export(s, exists),
            None => {
                return None;
            },
        };
        match planned {
            Ok(plan) => Some(plan),
            Err(ExportRefusal::NothingRecorded) => {
                self.status_text = String::from_str("无可导出的帧，请先录制");
                None
            },
            Err(ExportRefusal::NoValidFrames { expected }) => {
                let mut text = String::from_str("没有找到录制的帧文件（预期 ");
                push_decimal(&mut text, expected as u64);
                text.append(" 帧）");
                self.status_text = text;
                None
            },
        }
    }

    /// The user chose where the export goes: the machine begins exporting if
    /// it holds a finished recording, and the result is what the encoder is
    /// told. Else nothing changes and there is no export.
    pub fn begin_export(&mut self, output_path: String, fps: u8) -> (config: Option<
        GifExportConfig,
    >)
        ensures
            config.is_some() == legal(old(self).state(), Transition::StartExporting),
            old(self).state_machine.stepped(Transition::StartExporting, &final(self).state_machine),
            final(self).frame_count == old(self).frame_count,
            final(self).status_text@ == if config.is_some() {
                "导出中..."@
            } else {
                old(self).status_text@
            },
            config.is_some() ==> {
                let c = config.unwrap();
                &&& c.output_path@ == output_path@
                &&& c.fps == fps
                &&& c.quality == DEFAULT_QUALITY
                &&& c.width.is_none()
                &&& c.height.is_none()
                &&& !c.fast
            },
    {
        if !self.state_machine.start_exporting() {
            return None;
        }
        self.status_text = String::from_str("导出中...");
        Some(gif_config(output_path, fps))
    }

    /// The export ended. After a success the machine is idle without a
    /// session, and the result is the session's directory, which the caller
    /// removes. After a failure the machine holds the recording again, so
    /// that the export can be tried once more. The status line tells which.
    /// Where no export was under way the machine stays as it is.
    pub fn finish_export(&mut self, outcome: Result<String, ExportError>) -> (remove: Option<String>)
        ensures
            final(self).frame_count == old(self).frame_count,
            match outcome {
                Ok(path) => {
                    &&& old(self).state_machine.stepped(
                        Transition::FinishExporting,
                        &final(self).state_machine,
                    )
                    &&& final(self).status_text@ == exported_text(path@)
                    &&& match remove {
                        Some(dir) => old(self).state() == AppState::Exporting && dir@ == old(self).session().unwrap().temp_dir@,
                        None => old(self).state() != AppState::Exporting,
                    }
                },
                Err(e) => {
                    &&& old(self).state_machine.stepped(
                        Transition::CancelExporting,
                        &final(self).state_machine,
                    )
                    &&& final(self).status_text@ == export_failed_text(e.spec_message())
                    &&& remove.is_none()
                },
            },
    {
        match outcome {
            Ok(path) => {
                let exporting = matches!(self.state_machine.state(), AppState::Exporting);
                let dir: Option<String> = match self.state_machine.session() {
                    Some(s) => if exporting {
                        Some(s.temp_dir.clone())
                    } else {
                        None
                    },
                    None => None,
                };
                let _ = self.state_machine.finish_exporting();
                self.status_text = String::from_str("已导出: ").concat(path.as_str());
                dir
            },
            Err(e) => {
                let _ = self.state_machine.cancel_exporting();
                self.status_text = String::from_str("导出失败: ").concat(e.message().as_str());
                None
            },
        }
    }

    /// Takes a report of the capture worker. Progress shows while recording.
    /// A stop writes the frame count and the duration into the session. An
    /// error resets the machine to idle; the result is the directory of the
    /// session that was lost, which the caller removes.
    pub fn result_handler(&mut self, report: CaptureResult) -> (remove: Option<String>)
        ensures
            match report {
                CaptureResult::Started => {
                    &&& remove.is_none()
                    &&& final(self).state() == old(self).state()
                    &&& final(self).session() == old(self).session()
                    &&& final(self).status_text@ == old(self).status_text@
                    &&& final(self).frame_count == old(self).frame_count
                },
                CaptureResult::Progress { elapsed_secs, frame_count } => {
                    &&& remove.is_none()
                    &&& final(self).state() == old(self).state()
                    &&& final(self).session() == old(self).session()
                    &&& old(self).state() == AppState::Recording ==> final(self).frame_count
                        == frame_count && final(self).status_text@ == recording_text(elapsed_secs)
                    &&& old(self).state() != AppState::Recording ==> final(self).frame_count
                        == old(self).frame_count && final(self).status_text@ == old(self).status_text@
                },
                CaptureResult::Stopped { frame_count, duration_nanos } => {
                    &&& remove.is_none()
                    &&& final(self).state() == old(self).state()
                    &&& final(self).frame_count == frame_count
                    &&& final(self).status_text@ == recorded_text(duration_nanos)
                    &&& final(self).session() == match old(self).session() {
                        Some(s) => Some(RecordingSession { frame_count, duration_nanos, ..s }),
                        None => None,
                    }
                },
                CaptureResult::Error(message) => {
                    &&& final(self).state() == AppState::Idle
                    &&& final(self).session().is_none()
                    &&& final(self).frame_count == old(self).frame_count
                    &&& final(self).status_text@ == error_text(message@)
                    &&& match remove {
                        Some(dir) => old(self).session().is_some() && dir@ == old(self).session().unwrap().temp_dir@,
                        None => old(self).session().is_none(),
                    }
                },
            },
    {
        match report {
            CaptureResult::Started => None,
            CaptureResult::Progress { elapsed_secs, frame_count } => {
                if matches!(self.state_machine.state(), AppState::Recording) {
                    self.frame_count = frame_count;
                    let mut text = String::from_str("录制中... ");
                    push_decimal(&mut text, elapsed_secs);
                    text.append("s");
                    self.status_text = text;
                }
                None
            },
            CaptureResult::Stopped { frame_count, duration_nanos } => {
                self.frame_count = frame_count;
                let _ = self.state_machine.set_recording_result(frame_count, duration_nanos);
                let half: u64 = if duration_nanos % NANOS_PER_SEC >= NANOS_PER_SEC / 2 {
                    1
                } else {
                    0
                };
                let secs: u64 = duration_nanos / NANOS_PER_SEC + half;
                let mut text = String::from_str("录制完成 (");
                push_decimal(&mut text, secs);
                text.append("s)");
                self.status_text = text;
                None
            },
            CaptureResult::Error(message) => {
                self.status_text = String::from_str("错误: ").concat(message.as_str());
                let dir: Option<String> = match self.state_machine.session() {
                    Some(s) => Some(s.temp_dir.clone()),
                    None => None,
                };
                self.state_machine.reset();
                dir
            },
        }
    }
}

} // verus!
