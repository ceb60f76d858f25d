use tinycapture::capture::CaptureTarget;
use tinycapture::control::{
    determine_monitor_capture, new_session_dir_name, selection_center, session_dir_name,
    MonitorInfo, UiState,
};
use tinycapture::export::ExportError;
use tinycapture::geometry::Rect;
use tinycapture::state::{AppState, RecordingTarget};
use tinycapture::worker::{CaptureCommand, CaptureResult};

const SEC: u64 = 1_000_000_000;

fn monitor() -> MonitorInfo {
    MonitorInfo { hmonitor: 9, left: 1920, top: 0, right: 3840, bottom: 1080 }
}

fn recorded(frames: usize, nanos: u64) -> UiState {
    let mut ui = UiState::new();
    assert!(ui.on_record_click());
    assert!(ui.on_window_selected(5, Rect::new(0, 0, 100, 100), "tmp/s".to_string()).is_some());
    assert!(matches!(ui.on_stop_click(), CaptureCommand::Stop));
    assert!(ui.result_handler(CaptureResult::Stopped { frame_count: frames, duration_nanos: nanos }).is_none());
    ui
}

#[test]
fn selection_inside_the_monitor() {
    let rect = Rect::new(2000, 100, 640, 480);
    let (target, crop, recording) = determine_monitor_capture(&rect, &monitor());
    assert_eq!(target, RecordingTarget::Monitor { hmonitor: 9, region: rect });
    assert_eq!(crop, Some(Rect::new(80, 100, 640, 480)));
    assert_eq!(recording, rect);
}

#[test]
fn selection_that_starts_before_the_monitor() {
    let rect = Rect::new(1900, -30, 100, 200);
    let (_, crop, recording) = determine_monitor_capture(&rect, &monitor());
    assert_eq!(crop, Some(Rect::new(0, 0, 80, 170)));
    assert_eq!(recording, Rect::new(1920, 0, 80, 170));
}

#[test]
fn selection_that_reaches_past_the_monitor() {
    let rect = Rect::new(3800, 1000, 100, 200);
    let (_, crop, recording) = determine_monitor_capture(&rect, &monitor());
    assert_eq!(crop, Some(Rect::new(1880, 1000, 40, 80)));
    assert_eq!(recording, Rect::new(3800, 1000, 40, 80));
}

#[test]
fn selection_off_the_monitor_has_no_crop() {
    let rect = Rect::new(0, 0, 100, 100);
    let (target, crop, recording) = determine_monitor_capture(&rect, &monitor());
    assert_eq!(target, RecordingTarget::Monitor { hmonitor: 9, region: rect });
    assert_eq!(crop, None);
    assert_eq!(recording, rect);
    let flat = MonitorInfo { hmonitor: 1, left: 0, top: 0, right: 0, bottom: 1080 };
    assert_eq!(determine_monitor_capture(&rect, &flat).1, None);
    let past = Rect::new(3840, 10, 50, 50);
    assert_eq!(determine_monitor_capture(&past, &monitor()).1, None);
}

#[test]
fn center_of_a_selection() {
    assert_eq!(selection_center(&Rect::new(100, 200, 50, 31)), (125, 215));
    assert_eq!(selection_center(&Rect::new(-100, -200, 50, 30)), (-75, -185));
}

#[test]
fn session_directories_have_a_fresh_name() {
    assert_eq!(session_dir_name("abc"), "tinycapture_abc");
    let a = new_session_dir_name();
    let b = new_session_dir_name();
    assert!(a.starts_with("tinycapture_"));
    assert_eq!(a.chars().count(), 48);
    assert_ne!(a, "tinycapture_");
    assert_ne!(a, b);
}

#[test]
fn recording_a_region() {
    let mut ui = UiState::new();
    assert_eq!(ui.status_text, "就绪");
    assert!(ui.on_record_click());
    assert_eq!(ui.status_text, "选择区域...");
    assert!(!ui.on_record_click());
    let cmd = ui.on_region_selected(Rect::new(1900, 10, 100, 100), monitor(), "tmp/x".to_string());
    match cmd {
        Some(CaptureCommand::Start { target, crop_rect, output_dir, fps }) => {
            assert_eq!(target, CaptureTarget::Monitor(9));
            assert_eq!(crop_rect, Some(Rect::new(0, 10, 80, 100)));
            assert_eq!(output_dir, "tmp/x");
            assert_eq!(fps, 15);
        }
        _ => panic!("a selection starts a capture"),
    }
    assert_eq!(*ui.state_machine.state(), AppState::Recording);
    assert_eq!(ui.status_text, "录制中...");
    let s = ui.state_machine.session().unwrap();
    assert_eq!(s.region, Rect::new(1920, 10, 80, 100));
    assert_eq!(s.temp_dir, "tmp/x");
    assert_eq!(s.fps, 15);
}

#[test]
fn selection_outside_the_selecting_state_is_ignored() {
    let mut ui = UiState::new();
    assert!(ui.on_region_selected(Rect::new(0, 0, 50, 50), monitor(), "d".to_string()).is_none());
    assert!(ui.on_window_selected(1, Rect::new(0, 0, 50, 50), "d".to_string()).is_none());
    assert_eq!(*ui.state_machine.state(), AppState::Idle);
    assert_eq!(ui.status_text, "就绪");
}

#[test]
fn cancelled_selection_returns_to_idle() {
    let mut ui = UiState::new();
    ui.on_record_click();
    assert!(ui.on_selection_cancelled());
    assert_eq!(*ui.state_machine.state(), AppState::Idle);
    assert_eq!(ui.status_text, "已取消");
}

#[test]
fn progress_shows_while_recording() {
    let mut ui = UiState::new();
    ui.on_record_click();
    ui.on_window_selected(5, Rect::new(0, 0, 100, 100), "tmp/s".to_string());
    ui.result_handler(CaptureResult::Started);
    assert_eq!(ui.status_text, "录制中...");
    ui.result_handler(CaptureResult::Progress { elapsed_secs: 12, frame_count: 170 });
    assert_eq!(ui.status_text, "录制中... 12s");
    assert_eq!(ui.frame_count, 170);
    ui.on_stop_click();
    ui.result_handler(CaptureResult::Progress { elapsed_secs: 13, frame_count: 180 });
    assert_eq!(ui.status_text, "录制完成");
    assert_eq!(ui.frame_count, 170);
}

#[test]
fn stop_report_fills_the_session() {
    let ui = recorded(150, 10 * SEC + SEC / 2);
    assert_eq!(ui.status_text, "录制完成 (11s)");
    assert_eq!(ui.frame_count, 150);
    let s = ui.state_machine.session().unwrap();
    assert_eq!((s.frame_count, s.duration_nanos), (150, 10 * SEC + SEC / 2));
    assert_eq!(recorded(3, 10 * SEC + SEC / 2 - 1).status_text, "录制完成 (10s)");
    assert_eq!(recorded(3, u64::MAX).status_text, "录制完成 (18446744074s)");
}

#[test]
fn worker_error_resets_and_names_the_directory() {
    let mut ui = UiState::new();
    ui.on_record_click();
    ui.on_window_selected(5, Rect::new(0, 0, 100, 100), "tmp/s".to_string());
    let remove = ui.result_handler(CaptureResult::Error("Capture not supported".to_string()));
    assert_eq!(remove.as_deref(), Some("tmp/s"));
    assert_eq!(ui.status_text, "错误: Capture not supported");
    assert_eq!(*ui.state_machine.state(), AppState::Idle);
    assert!(ui.state_machine.session().is_none());
    assert_eq!(ui.result_handler(CaptureResult::Error("again".to_string())), None);
}

#[test]
fn export_with_missing_files_goes_on() {
    let mut ui = recorded(10, 2 * SEC);
    assert_eq!(ui.expected_frames().unwrap().len(), 10);
    let exists = vec![true, true, true, false, false, false, true, true, true, true];
    let plan = ui.on_export_click(&exists).unwrap();
    assert_eq!(plan.frames.len(), 7);
    assert_eq!(plan.missing, 3);
    assert_eq!(plan.fps, 5);
    let config = ui.begin_export("out.gif".to_string(), plan.fps).unwrap();
    assert_eq!((config.output_path.as_str(), config.fps, config.quality), ("out.gif", 5, 90));
    assert_eq!(*ui.state_machine.state(), AppState::Exporting);
    assert_eq!(ui.status_text, "导出中...");
    let remove = ui.finish_export(Ok("out.gif".to_string()));
    assert_eq!(remove.as_deref(), Some("tmp/s"));
    assert_eq!(ui.status_text, "已导出: out.gif");
    assert_eq!(*ui.state_machine.state(), AppState::Idle);
    assert!(ui.state_machine.session().is_none());
}

#[test]
fn export_without_files_is_refused() {
    let mut ui = recorded(10, 2 * SEC);
    assert!(ui.on_export_click(&vec![false; 10]).is_none());
    assert_eq!(ui.status_text, "没有找到录制的帧文件（预期 10 帧）");
    assert_eq!(*ui.state_machine.state(), AppState::Recorded);
    let mut empty = recorded(0, 2 * SEC);
    assert!(empty.on_export_click(&Vec::new()).is_none());
    assert_eq!(empty.status_text, "无可导出的帧，请先录制");
    let mut idle = UiState::new();
    assert!(idle.expected_frames().is_none());
    assert!(idle.on_export_click(&Vec::new()).is_none());
    assert_eq!(idle.status_text, "就绪");
    assert!(idle.begin_export("o".to_string(), 15).is_none());
}

#[test]
fn failed_export_can_be_tried_again() {
    let mut ui = recorded(5, SEC);
    ui.begin_export("o.gif".to_string(), 5).unwrap();
    let remove = ui.finish_export(Err(ExportError::GifEncode("boom".to_string())));
    assert_eq!(remove, None);
    assert_eq!(ui.status_text, "导出失败: GIF encoding error: boom");
    assert_eq!(*ui.state_machine.state(), AppState::Recorded);
    assert_eq!(ui.state_machine.session().unwrap().frame_count, 5);
    assert!(ui.begin_export("o.gif".to_string(), 5).is_some());
}

#[test]
fn actions_and_counter_follow_the_state() {
    let mut ui = UiState::new();
    assert_eq!(ui.enabled_actions(), (true, false, false));
    assert_eq!(ui.frame_counter_text(), None);
    ui.on_record_click();
    assert_eq!(ui.enabled_actions(), (false, false, false));
    ui.on_window_selected(5, Rect::new(0, 0, 100, 100), "tmp/s".to_string());
    assert_eq!(ui.enabled_actions(), (false, true, false));
    ui.result_handler(CaptureResult::Progress { elapsed_secs: 1, frame_count: 14 });
    assert_eq!(ui.frame_counter_text().as_deref(), Some("已录制帧数: 14"));
    ui.on_stop_click();
    assert_eq!(ui.enabled_actions(), (true, false, true));
}
