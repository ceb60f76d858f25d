use tinycapture::capture::CaptureError;
use tinycapture::frame::{FrameData, FrameProcessor, RgbaImage};
use tinycapture::geometry::Rect;

fn numbered(width: u32, height: u32) -> FrameData {
    let mut data = Vec::new();
    for y in 0..height {
        for x in 0..width {
            data.push(x as u8);
            data.push(y as u8);
            data.push(200);
            data.push(255);
        }
    }
    FrameData::new(data, width, height, 99).unwrap()
}

#[test]
fn frame_needs_four_bytes_a_pixel() {
    assert!(FrameData::new(vec![0; 24], 3, 2, 0).is_some());
    assert!(FrameData::new(vec![0; 23], 3, 2, 0).is_none());
    assert!(FrameData::new(vec![0; 25], 3, 2, 0).is_none());
    assert!(FrameData::new(Vec::new(), 0, 7, 0).is_some());
    assert!(FrameData::new(Vec::new(), u32::MAX, u32::MAX, 0).is_none());
}

#[test]
fn crop_takes_the_region() {
    let f = numbered(8, 6);
    let c = f.crop(&Rect::new(2, 1, 3, 2));
    assert_eq!((c.width, c.height, c.timestamp), (3, 2, 99));
    assert_eq!(
        c.data,
        vec![
            2, 1, 200, 255, 3, 1, 200, 255, 4, 1, 200, 255, 2, 2, 200, 255, 3, 2, 200, 255, 4, 2,
            200, 255
        ]
    );
}

#[test]
fn crop_with_negative_origin_is_cut_to_the_frame() {
    let f = numbered(8, 6);
    let c = f.crop(&Rect::new(-2, -1, 4, 3));
    assert_eq!((c.width, c.height), (2, 2));
    assert_eq!(c.data, vec![0, 0, 200, 255, 1, 0, 200, 255, 0, 1, 200, 255, 1, 1, 200, 255]);
}

#[test]
fn crop_past_the_frame_is_cut() {
    let f = numbered(8, 6);
    let c = f.crop(&Rect::new(6, 5, 10, 10));
    assert_eq!((c.width, c.height), (2, 1));
    assert_eq!(c.data, vec![6, 5, 200, 255, 7, 5, 200, 255]);
    let none = f.crop(&Rect::new(8, 0, 4, 4));
    assert_eq!((none.width, none.height), (0, 4));
    assert!(none.data.is_empty());
}

#[test]
fn crop_of_the_whole_frame_is_the_frame() {
    let f = numbered(5, 4);
    let c = f.crop(&Rect::new(0, 0, 5, 4));
    assert_eq!(c.data, f.data);
    assert_eq!((c.width, c.height), (5, 4));
}

#[test]
fn red_and_blue_change_places() {
    let f = FrameData::new(vec![1, 2, 3, 4, 5, 6, 7, 8], 2, 1, 0).unwrap();
    assert_eq!(f.to_rgba_bytes(), vec![3, 2, 1, 4, 7, 6, 5, 8]);
    let ragged = FrameData { data: vec![1, 2, 3, 4, 5, 6], width: 1, height: 1, timestamp: 0 };
    assert_eq!(ragged.to_rgba_bytes(), vec![3, 2, 1, 4, 5, 6]);
    let twice = FrameData { data: f.to_rgba_bytes(), width: 2, height: 1, timestamp: 0 };
    assert_eq!(twice.to_rgba_bytes(), f.data);
}

#[test]
fn image_holds_the_swapped_bytes() {
    let f = numbered(3, 2);
    let img = f.to_rgba_image();
    assert_eq!(img.dimensions(), (3, 2));
    let bytes = img.into_raw();
    assert_eq!(bytes, f.to_rgba_bytes());
    assert_ne!(bytes, f.data);
    assert_eq!(&bytes[0..4], &[200, 0, 0, 255]);
}

#[test]
fn image_from_raw_needs_enough_bytes() {
    assert!(RgbaImage::from_raw(2, 2, vec![0; 15]).is_none());
    let exact = RgbaImage::from_raw(2, 2, vec![9; 16]).unwrap();
    assert_eq!(exact.dimensions(), (2, 2));
    assert_eq!(exact.into_raw(), vec![9; 16]);
    let more = RgbaImage::from_raw(1, 2, vec![1; 20]).unwrap();
    assert_eq!(more.dimensions(), (1, 2));
    assert_eq!(more.into_raw().len(), 20);
}

#[test]
fn processor_numbers_frames_from_zero() {
    let mut p = FrameProcessor::new("out".to_string());
    assert_eq!(p.frame_count(), 0);
    assert!(p.get_frame_paths().is_empty());
    let (path, frame) = p.prepare_frame(numbered(2, 2));
    assert_eq!(path, "out/frame_00000.png");
    assert_eq!(frame.data, numbered(2, 2).data);
    assert_eq!(p.process_frame(Ok(())).unwrap(), "out/frame_00000.png");
    assert_eq!(p.frame_count(), 1);
    let (next, _) = p.prepare_frame(numbered(2, 2));
    assert_eq!(next, "out/frame_00001.png");
}

#[test]
fn failed_write_is_not_counted() {
    let mut p = FrameProcessor::new("out".to_string());
    let r = p.process_frame(Err(CaptureError::Io("disk full".to_string())));
    assert!(matches!(r, Err(CaptureError::Io(ref e)) if e == "disk full"));
    assert_eq!(p.frame_count(), 0);
    assert_eq!(p.prepare_frame(numbered(1, 1)).0, "out/frame_00000.png");
}

#[test]
fn frame_paths_follow_the_count() {
    let mut p = FrameProcessor::new("/tmp/rec".to_string());
    for _ in 0..12 {
        p.process_frame(Ok(())).unwrap();
    }
    let paths = p.get_frame_paths();
    assert_eq!(paths.len(), 12);
    for (i, path) in paths.iter().enumerate() {
        assert_eq!(*path, format!("/tmp/rec/frame_{:05}.png", i));
    }
    assert_eq!(p.get_frame_paths(), paths);
    p.reset();
    assert_eq!(p.frame_count(), 0);
    assert!(p.get_frame_paths().is_empty());
}

#[test]
fn processor_crops_where_asked() {
    let mut p = FrameProcessor::new("o".to_string());
    p.set_crop_rect(Some(Rect::new(1, 1, 2, 2)));
    let (_, frame) = p.prepare_frame(numbered(4, 4));
    assert_eq!((frame.width, frame.height), (2, 2));
    assert_eq!(frame.data, vec![1, 1, 200, 255, 2, 1, 200, 255, 1, 2, 200, 255, 2, 2, 200, 255]);
    p.set_crop_rect(None);
    let (_, whole) = p.prepare_frame(numbered(4, 4));
    assert_eq!((whole.width, whole.height), (4, 4));
}

#[test]
fn encoder_image_has_one_pixel_for_each_four_bytes() {
    let f = numbered(3, 2);
    let out = tinycapture::pixels::rgba_image_to_imgvec(f.to_rgba_image());
    assert_eq!((out.width(), out.height()), (3, 2));
    let pixels = out.into_buf();
    assert_eq!(pixels.len(), 6);
    assert_eq!((pixels[0].r, pixels[0].g, pixels[0].b, pixels[0].a), (200, 0, 0, 255));
    assert_eq!((pixels[4].r, pixels[4].g, pixels[4].b, pixels[4].a), (200, 1, 1, 255));
    let grouped = tinycapture::pixels::group_pixels(&vec![1, 2, 3, 4, 5, 6, 7, 8, 9]);
    assert_eq!(grouped.len(), 2);
    assert_eq!((grouped[1].r, grouped[1].g, grouped[1].b, grouped[1].a), (5, 6, 7, 8));
}

#[test]
fn encoder_image_needs_a_column() {
    let empty = RgbaImage::from_raw(0, 3, Vec::new()).unwrap();
    assert!(tinycapture::pixels::try_rgba_image_to_imgvec(empty).is_none());
    let one = RgbaImage::from_raw(1, 1, vec![1, 2, 3, 4]).unwrap();
    let out = tinycapture::pixels::try_rgba_image_to_imgvec(one).unwrap();
    assert_eq!((out.width(), out.height()), (1, 1));
    assert_eq!(out.into_buf()[0].b, 3);
}
