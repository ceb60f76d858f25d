//! The frame source's own rules: what it captures, which region of a frame it
//! copies, and how the rows of a mapped surface become a frame.

use crate::frame::FrameData;
use crate::geometry::Rect;
use vstd::prelude::*;
use vstd::string::*;

verus! {

/// What a capture session is bound to.
#[derive(Debug, Clone, Copy, PartialEq, Eq, Structural)]
pub enum CaptureTarget {
    Window(isize),
    Monitor(isize),
}

/// Why a capture failed. Errors of the platform and of the image encoder are
/// carried as their text.
#[derive(Debug, Clone)]
pub enum CaptureError {
    Windows(String),
    D3D11(String),
    NotSupported,
    InvalidTarget,
    FramePool(String),
    Io(String),
    Image(String),
    Stopped,
}

impl CaptureError {
    /// The message of an error.
    pub open spec fn spec_message(&self) -> Seq<char> {
        match self {
            CaptureError::Windows(e) => "Windows API error: "@ + e@,
            CaptureError::D3D11(e) => "D3D11 error: "@ + e@,
            CaptureError::NotSupported => "Capture not supported"@,
            CaptureError::InvalidTarget => "Invalid capture target"@,
            CaptureError::FramePool(e) => "Frame pool error: "@ + e@,
            CaptureError::Io(e) => "IO error: "@ + e@,
            CaptureError::Image(e) => "Image error: "@ + e@,
            CaptureError::Stopped => "Capture stopped"@,
        }
    }

    /// The message of the error, for the status line.
    pub fn message(&self) -> (s: String)
        ensures
            s@ == self.spec_message(),
    {
        match self {
            CaptureError::Windows(e) => String::from_str("Windows API error: ").concat(e.as_str()),
            CaptureError::D3D11(e) => String::from_str("D3D11 error: ").concat(e.as_str()),
            CaptureError::NotSupported => String::from_str("Capture not supported"),
            CaptureError::InvalidTarget => String::from_str("Invalid capture target"),
            CaptureError::FramePool(e) => String::from_str("Frame pool error: ").concat(e.as_str()),
            CaptureError::Io(e) => String::from_str("IO error: ").concat(e.as_str()),
            CaptureError::Image(e) => String::from_str("Image error: ").concat(e.as_str()),
            CaptureError::Stopped => String::from_str("Capture stopped"),
        }
    }
}

/// A size reported by the platform, as a count of pixels: a negative size
/// counts as none.
pub open spec fn spec_extent(size: i32) -> u32 {
    if size < 0 {
        0u32
    } else {
        size as u32
    }
}

/// A size reported by the platform, as a count of pixels.
pub fn extent(size: i32) -> (r: u32)
    ensures
        r == spec_extent(size),
{
    if size < 0 {
        0
    } else {
        size as u32
    }
}

/// The region of a captured surface that is copied: the whole surface
/// without a crop rectangle, else the crop rectangle cut to the surface.
pub open spec fn spec_copy_region(width: i32, height: i32, crop: Option<Rect>) -> Rect {
    match crop {
        Some(rect) => rect.spec_clamp_to(spec_extent(width), spec_extent(height)),
        None => Rect { x: 0, y: 0, width: spec_extent(width), height: spec_extent(height) },
    }
}

/// The state of a frame source: whether a capture session runs, and the crop
/// rectangle in the target's own pixel space.
#[derive(Debug, Clone, Copy, PartialEq, Eq, Structural)]
pub struct CaptureController {
    pub crop_rect: Option<Rect>,
    pub running: bool,
}

impl CaptureController {
    /// A source that is not running and crops nothing.
    pub fn new() -> (c: CaptureController)
        ensures
            c == (CaptureController { crop_rect: None, running: false }),
    {
        CaptureController { crop_rect: None, running: false }
    }

    /// Sets the crop rectangle, in physical pixels relative to the target.
    pub fn set_crop_rect(&mut self, rect: Option<Rect>)
        ensures
            *final(self) == (CaptureController { crop_rect: rect, ..*old(self) }),
    {
        self.crop_rect = rect;
    }

    /// Notes the outcome of starting a session on the platform: the source
    /// runs if the session was established, and is unchanged if it was not.
    pub fn start(&mut self, established: Result<(), CaptureError>) -> (r: Result<(), CaptureError>)
        ensures
            r == established,
            established.is_ok() ==> *final(self) == (CaptureController {
                running: true,
                ..*old(self)
            }),
            established.is_err() ==> *final(self) == *old(self),
    {
        if established.is_ok() {
            self.running = true;
        }
        established
    }

    /// Stops the source. Stopping a source that is not running changes nothing.
    pub fn stop(&mut self)
        ensures
            *final(self) == (CaptureController { running: false, ..*old(self) }),
    {
        self.running = false;
    }

    /// Whether a session runs.
    pub fn is_running(&self) -> (r: bool)
        ensures
            r == self.running,
    {
        self.running
    }

    /// The region to copy out of a surface of the given size; none while
    /// the source is not running.
    pub fn copy_region(&self, width: i32, height: i32) -> (r: Option<Rect>)
        ensures
            r == if self.running {
                Some(spec_copy_region(width, height, self.crop_rect))
            } else {
                None
            },
    {
        if !self.running {
            return None;
        }
        let w: u32 = extent(width);
        let h: u32 = extent(height);
        match self.crop_rect {
            Some(rect) => Some(rect.clamp_to(w, h)),
            None => Some(Rect { x: 0, y: 0, width: w, height: h }),
        }
    }
}

/// Whether a mapped surface of `len` bytes, whose rows lie `row_pitch` bytes
/// apart, holds `height` rows of `width` pixels of four bytes.
pub open spec fn surface_holds(len: int, row_pitch: int, width: int, height: int) -> bool {
    height == 0 || width == 0 || (4 * width <= row_pitch && height * row_pitch <= len)
}

/// The pixel bytes of the first `height` rows of a mapped surface, row after
/// row without the padding between them.
pub open spec fn packed_rows(mapped: Seq<u8>, row_pitch: int, width: int, height: nat) -> Seq<u8>
    decreases height,
{
    if height == 0 {
        Seq::empty()
    } else {
        packed_rows(mapped, row_pitch, width, (height - 1) as nat) + mapped.subrange(
            (height - 1) * row_pitch,
            (height - 1) * row_pitch + 4 * width,
        )
    }
}

/// The bytes of a frame of `width` by `height` pixels read from a mapped
/// surface; without a pixel the frame has no bytes.
pub open spec fn spec_surface_bytes(mapped: Seq<u8>, row_pitch: int, width: int, height: int) -> Seq<
    u8,
> {
    if width == 0 || height == 0 {
        Seq::empty()
    } else {
        packed_rows(mapped, row_pitch, width, height as nat)
    }
}

/// The packed rows have four bytes for each pixel.
pub proof fn lemma_packed_rows_len(mapped: Seq<u8>, row_pitch: int, width: int, height: nat)
    requires
        0 <= width,
        4 * width <= row_pitch,
        height * row_pitch <= mapped.len(),
    ensures
        packed_rows(mapped, row_pitch, width, height).len() == 4 * width * height,
    decreases height,
{
    if height > 0 {
        let above = (height - 1) as nat;
        assert(above * row_pitch + row_pitch == height * row_pitch) by (nonlinear_arith)
            requires
                above == height - 1,
        ;
        assert(above * row_pitch >= 0) by (nonlinear_arith)
            requires
                above >= 0,
                row_pitch >= 0,
        ;
        lemma_packed_rows_len(mapped, row_pitch, width, above);
        assert(4 * width * above + 4 * width == 4 * width * height) by (nonlinear_arith)
            requires
                above == height - 1,
        ;
        assert(mapped.subrange(above * row_pitch, above * row_pitch + 4 * width).len() == 4
            * width);
    } else {
        assert(4 * width * 0 == 0);
    }
}

/// Reads a frame out of a mapped surface: `height` rows of `width` pixels of
/// four bytes, the rows `row_pitch` bytes apart. The result is none exactly
/// if the surface is too small for that.
pub fn read_surface(
    mapped: &[u8],
    row_pitch: usize,
    width: u32,
    height: u32,
    timestamp: u64,
) -> (r: Option<FrameData>)
    ensures
        r.is_some() <==> surface_holds(
            mapped@.len() as int,
            row_pitch as int,
            width as int,
            height as int,
        ),
        r.is_some() ==> {
            let f = r.unwrap();
            &&& f.width == width
            &&& f.height == height
            &&& f.timestamp == timestamp
            &&& f.data@ == spec_surface_bytes(
                mapped@,
                row_pitch as int,
                width as int,
                height as int,
            )
            &&& f.wf()
        },
{
    let mut data: Vec<u8> = Vec::new();
    if width == 0 || height == 0 {
        assert(4 * width * height == 0) by (nonlinear_arith)
            requires
                width == 0 || height == 0,
        ;
        return Some(FrameData { data, width, height, timestamp });
    }
    if row_pitch / 4 < width as usize {
        return None;
    }
    if mapped.len() / row_pitch < height as usize {
        proof {
            assert(height as int * row_pitch as int > mapped@.len()) by (nonlinear_arith)
                requires
                    (mapped@.len() as int) / (row_pitch as int) < height as int,
                    row_pitch > 0,
            ;
        }
        return None;
    }
    proof {
        assert(height as int * row_pitch as int <= mapped@.len()) by (nonlinear_arith)
            requires
                (mapped@.len() as int) / (row_pitch as int) >= height as int,
                row_pitch > 0,
        ;
    }
    let row_len: usize = 4 * (width as usize);
    let len: usize = mapped.len();
    let mut y: usize = 0;
    while y < height as usize
        invariant
            y <= height,
            len == mapped@.len(),
            row_len == 4 * width,
            row_len <= row_pitch,
            height as int * row_pitch as int <= mapped@.len(),
            data@ == packed_rows(mapped@, row_pitch as int, width as int, y as nat),
        decreases height - y,
    {
        proof {
            assert((y + 1) * row_pitch <= height * row_pitch) by (nonlinear_arith)
                requires
                    y < height,
                    row_pitch >= 0,
            ;
            assert((y + 1) * row_pitch == y * row_pitch + row_pitch) by (nonlinear_arith);
            assert(y * row_pitch >= 0) by (nonlinear_arith)
                requires
                    y >= 0,
                    row_pitch >= 0,
            ;
        }
        let start: usize = y * row_pitch;
        let mut k: usize = 0;
        while k < row_len
            invariant
                k <= row_len,
                len == mapped@.len(),
                start + row_len <= mapped@.len(),
                data@ == packed_rows(mapped@, row_pitch as int, width as int, y as nat)
                    + mapped@.subrange(start as int, start + k),
            decreases row_len - k,
        {
            data.push(mapped[start + k]);
            k = k + 1;
            assert(data@ =~= packed_rows(mapped@, row_pitch as int, width as int, y as nat)
                + mapped@.subrange(start as int, start + k));
        }
        y = y + 1;
    }
    proof {
        lemma_packed_rows_len(mapped@, row_pitch as int, width as int, height as nat);
    }
    Some(FrameData { data, width, height, timestamp })
}

} // verus!
