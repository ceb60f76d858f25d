use tinycapture::export::{
    derive_export_fps, gif_config, plan_export, presentation_nanos, select_existing, ExportConfig,
    ExportError, ExportFormat, ExportRefusal, GifExportConfig, GifExporter, PngExporter,
};
use tinycapture::geometry::Rect;
use tinycapture::state::{RecordingSession, RecordingTarget};

const SEC: u64 = 1_000_000_000;

fn session(frames: usize, nanos: u64) -> RecordingSession {
    let mut s = RecordingSession::new(
        RecordingTarget::Monitor { hmonitor: 1, region: Rect::new(0, 0, 10, 10) },
        Rect::new(0, 0, 10, 10),
        "t".to_string(),
        15,
    );
    s.frame_count = frames;
    s.duration_nanos = nanos;
    s
}

#[test]
fn fps_is_frames_over_seconds() {
    assert_eq!(derive_export_fps(150, 10 * SEC, 15), 15);
    assert_eq!(derive_export_fps(100, 10 * SEC, 15), 10);
    assert_eq!(derive_export_fps(300, 10 * SEC, 15), 30);
}

#[test]
fn fps_falls_back_without_time_or_frames() {
    assert_eq!(derive_export_fps(1, 0, 15), 15);
    assert_eq!(derive_export_fps(0, 10 * SEC, 15), 15);
    assert_eq!(derive_export_fps(0, 0, 24), 24);
}

#[test]
fn fps_is_rounded_and_clamped() {
    assert_eq!(derive_export_fps(145, 10 * SEC, 15), 15);
    assert_eq!(derive_export_fps(144, 10 * SEC, 15), 14);
    assert_eq!(derive_export_fps(1, 100 * SEC, 15), 1);
    assert_eq!(derive_export_fps(1, 2 * SEC, 15), 1);
    assert_eq!(derive_export_fps(1000, SEC, 15), 60);
    assert_eq!(derive_export_fps(60, SEC, 15), 60);
    assert_eq!(derive_export_fps(61, SEC, 15), 60);
    assert_eq!(derive_export_fps(usize::MAX, 1, 15), 60);
    assert_eq!(derive_export_fps(1, u64::MAX, 15), 1);
}

#[test]
fn timestamps_are_index_over_rate() {
    assert_eq!(presentation_nanos(0, 15), 0);
    assert_eq!(presentation_nanos(15, 15), SEC as u128);
    assert_eq!(presentation_nanos(1, 10), 100_000_000);
    assert_eq!(presentation_nanos(7, 3), 2_333_333_333);
    let mut last = presentation_nanos(0, 255);
    for i in 1..2000 {
        let t = presentation_nanos(i, 255);
        assert!(t > last);
        last = t;
    }
}

#[test]
fn existing_frames_are_kept_in_order() {
    let paths: Vec<String> = vec!["a".into(), "b".into(), "c".into(), "d".into()];
    assert_eq!(select_existing(&paths, &vec![true, false, true, true]), vec!["a", "c", "d"]);
    assert_eq!(select_existing(&paths, &vec![true, true, true, true]), paths);
    assert!(select_existing(&paths, &vec![false; 4]).is_empty());
    assert_eq!(select_existing(&paths, &vec![false, true]), vec!["b"]);
    assert_eq!(select_existing(&paths, &vec![true; 9]), paths);
}

#[test]
fn export_goes_on_with_the_frames_that_are_there() {
    let s = session(10, 2 * SEC);
    let exists = vec![true, true, false, true, true, false, true, true, false, true];
    let plan = plan_export(&s, &exists).unwrap();
    assert_eq!(plan.frames.len(), 7);
    assert_eq!(plan.missing, 3);
    assert_eq!(plan.fps, 5);
    assert_eq!(plan.frames[0], "t/frame_00000.png");
    assert_eq!(plan.frames[2], "t/frame_00003.png");
    assert_eq!(plan.frames[6], "t/frame_00009.png");
}

#[test]
fn export_of_a_complete_recording() {
    let s = session(150, 10 * SEC);
    let plan = plan_export(&s, &vec![true; 150]).unwrap();
    assert_eq!(plan.frames.len(), 150);
    assert_eq!(plan.missing, 0);
    assert_eq!(plan.fps, 15);
    assert_eq!(plan.frames, s.all_frame_paths());
}

#[test]
fn export_without_valid_frames_is_refused() {
    let s = session(10, SEC);
    assert_eq!(
        plan_export(&s, &vec![false; 10]).unwrap_err(),
        ExportRefusal::NoValidFrames { expected: 10 }
    );
    assert_eq!(
        plan_export(&s, &Vec::new()).unwrap_err(),
        ExportRefusal::NoValidFrames { expected: 10 }
    );
    assert_eq!(
        plan_export(&session(0, SEC), &vec![true; 4]).unwrap_err(),
        ExportRefusal::NothingRecorded
    );
    assert!(matches!(GifExporter::export_from_pngs(0), Err(ExportError::NoFrames)));
    assert!(GifExporter::export_from_pngs(7).is_ok());
}

#[test]
fn defaults() {
    let c = ExportConfig::default();
    assert_eq!((c.format, c.output_path.as_str(), c.fps, c.quality), (ExportFormat::Gif, "", 15, 90));
    let g = GifExportConfig::default();
    assert_eq!((g.output_path.as_str(), g.fps, g.quality), ("", 15, 90));
    assert_eq!((g.width, g.height, g.fast), (None, None, false));
    let made = gif_config("o.gif".to_string(), 12);
    assert_eq!((made.output_path.as_str(), made.fps, made.quality), ("o.gif", 12, 90));
    assert_eq!((made.width, made.height, made.fast), (None, None, false));
}

#[test]
fn export_error_messages() {
    assert_eq!(ExportError::Io("x".to_string()).message(), "IO error: x");
    assert_eq!(ExportError::Image("y".to_string()).message(), "Image error: y");
    assert_eq!(ExportError::GifEncode("z".to_string()).message(), "GIF encoding error: z");
    assert_eq!(ExportError::NoFrames.message(), "No frames to export");
    assert_eq!(ExportError::Cancelled.message(), "Export cancelled");
}

#[test]
fn exporter_admits_frames_only_after_the_start() {
    let mut e = GifExporter::new(gif_config("out.gif".to_string(), 10)).unwrap();
    assert!(matches!(e.add_frame(), Err(ExportError::GifEncode(ref m)) if m == "Exporter not started"));
    assert!(e.start(Err(ExportError::GifEncode("bad".to_string()))).is_err());
    assert!(e.add_frame().is_err());
    assert!(e.start(Ok(())).is_ok());
    assert_eq!(e.add_frame().unwrap(), 0);
    assert_eq!(e.add_frame().unwrap(), 100_000_000);
    assert_eq!(e.add_frame().unwrap(), 200_000_000);
    assert_eq!(e.finish(Ok(())).unwrap(), "out.gif");
}

#[test]
fn exporter_without_frames_has_nothing_to_finish() {
    let mut e = GifExporter::new(gif_config("out.gif".to_string(), 10)).unwrap();
    e.start(Ok(())).unwrap();
    assert!(matches!(e.finish(Ok(())), Err(ExportError::NoFrames)));
    let mut f = GifExporter::new(gif_config("out.gif".to_string(), 10)).unwrap();
    f.start(Ok(())).unwrap();
    f.add_frame().unwrap();
    let r = f.finish(Err(ExportError::Io("full".to_string())));
    assert!(matches!(r, Err(ExportError::Io(ref m)) if m == "full"));
}

#[test]
fn png_sequence_destinations() {
    assert!(matches!(PngExporter::export(0, "o"), Err(ExportError::NoFrames)));
    assert_eq!(
        PngExporter::export(3, "o").unwrap(),
        vec!["o/frame_00000.png", "o/frame_00001.png", "o/frame_00002.png"]
    );
}
