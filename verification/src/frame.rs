//! Frames: cropping, channel order, and the frame processor's numbering.

use crate::capture::CaptureError;
use crate::geometry::Rect;
use crate::text::{frame_path, frame_path_list, frame_path_string, frame_paths, views};
use vstd::prelude::*;
use vstd::string::*;

verus! {

/// A captured frame: four bytes for each pixel, blue first, row after row.
/// The timestamp counts nanoseconds on a clock that never runs backwards.
#[derive(Debug, Clone)]
pub struct FrameData {
    pub data: Vec<u8>,
    pub width: u32,
    pub height: u32,
    pub timestamp: u64,
}

/// The bytes of `w` pixels of row `y`, from column `x` on, in an image whose
/// rows hold `stride` pixels of four bytes.
pub open spec fn row_bytes(data: Seq<u8>, stride: int, x: int, y: int, w: int) -> Seq<u8> {
    data.subrange((y * stride + x) * 4, (y * stride + x + w) * 4)
}

/// The bytes of the `h` rows from row `y` on, each cut to the `w` pixels from
/// column `x` on.
pub open spec fn rows(data: Seq<u8>, stride: int, x: int, y: int, w: int, h: nat) -> Seq<u8>
    decreases h,
{
    if h == 0 {
        Seq::empty()
    } else {
        rows(data, stride, x, y, w, (h - 1) as nat) + row_bytes(data, stride, x, y + h - 1, w)
    }
}

/// The bytes of a region of an image; a region without a pixel has none.
pub open spec fn region_bytes(data: Seq<u8>, stride: int, region: Rect) -> Seq<u8> {
    if region.width == 0 || region.height == 0 {
        Seq::empty()
    } else {
        rows(
            data,
            stride,
            region.x as int,
            region.y as int,
            region.width as int,
            region.height as nat,
        )
    }
}

/// The same bytes with the first and third of every four exchanged: blue
/// first becomes red first and back. Bytes past the last whole pixel stay.
pub open spec fn swap_red_blue(data: Seq<u8>) -> Seq<u8> {
    Seq::new(
        data.len(),
        |i: int|
            if (i / 4) * 4 + 4 <= data.len() {
                if i % 4 == 0 {
                    data[i + 2]
                } else if i % 4 == 2 {
                    data[i - 2]
                } else {
                    data[i]
                }
            } else {
                data[i]
            },
    )
}

/// Exchanging red and blue twice gives the bytes back.
pub proof fn lemma_swap_red_blue_twice(data: Seq<u8>)
    ensures
        swap_red_blue(swap_red_blue(data)) =~= data,
{
    let once = swap_red_blue(data);
    assert forall|i: int| 0 <= i < data.len() implies swap_red_blue(once)[i] == data[i] by {
        if (i / 4) * 4 + 4 <= data.len() {
            if i % 4 == 0 {
                assert((i + 2) / 4 == i / 4);
                assert((i + 2) % 4 == 2);
            } else if i % 4 == 2 {
                assert((i - 2) / 4 == i / 4);
                assert((i - 2) % 4 == 0);
            }
        }
    }
}

/// The rows of a region have four bytes for each pixel, and byte `k` of row
/// `r` of the region is byte `k` of the part of row `y + r` of the image that
/// starts at column `x`.
pub proof fn lemma_rows_index(
    data: Seq<u8>,
    stride: int,
    x: int,
    y: int,
    w: int,
    h: nat,
    r: int,
    k: int,
)
    requires
        0 <= x,
        0 <= y,
        0 <= w,
        x + w <= stride,
        (y + h) * stride * 4 <= data.len(),
        0 <= r < h,
        0 <= k < 4 * w,
    ensures
        rows(data, stride, x, y, w, h).len() == 4 * w * h,
        0 <= ((y + r) * stride + x) * 4 + k < data.len(),
        0 <= r * (4 * w) + k < 4 * w * h,
        rows(data, stride, x, y, w, h)[r * (4 * w) + k] == data[((y + r) * stride + x) * 4 + k],
    decreases h,
{
    lemma_rows_len(data, stride, x, y, w, h);
    lemma_row_in_bounds(data.len() as int, stride, x, y, w, h as int, r);
    assert(r * (4 * w) + k < 4 * w * h) by (nonlinear_arith)
        requires
            0 <= r < h,
            0 <= k < 4 * w,
    ;
    assert(r * (4 * w) >= 0) by (nonlinear_arith)
        requires
            0 <= r,
            0 <= w,
    ;
    assert((y + (h - 1)) * stride * 4 <= (y + h) * stride * 4) by (nonlinear_arith)
        requires
            stride >= 0,
    ;
    lemma_rows_len(data, stride, x, y, w, (h - 1) as nat);
    assert(4 * w * (h - 1) == (h - 1) * (4 * w)) by (nonlinear_arith);
    if r == h - 1 {
        lemma_row_in_bounds(data.len() as int, stride, x, y, w, h as int, h - 1);
        assert(rows(data, stride, x, y, w, h)[r * (4 * w) + k] == row_bytes(
            data,
            stride,
            x,
            y + h - 1,
            w,
        )[k]);
    } else {
        assert(r * (4 * w) + k < (h - 1) * (4 * w)) by (nonlinear_arith)
            requires
                0 <= r < h - 1,
                0 <= k < 4 * w,
        ;
        assert((y + (h - 1)) * stride * 4 <= (y + h) * stride * 4) by (nonlinear_arith)
            requires
                stride >= 0,
        ;
        lemma_rows_index(data, stride, x, y, w, (h - 1) as nat, r, k);
    }
}

/// Row `y + r` of a region lies inside the image's bytes.
pub proof fn lemma_row_in_bounds(len: int, stride: int, x: int, y: int, w: int, h: int, r: int)
    requires
        0 <= x,
        0 <= y,
        0 <= w,
        x + w <= stride,
        (y + h) * stride * 4 <= len,
        0 <= r < h,
    ensures
        0 <= (y + r) * stride,
        0 <= ((y + r) * stride + x) * 4,
        ((y + r) * stride + x + w) * 4 <= len,
        ((y + r) * stride + x + w) * 4 == ((y + r) * stride + x) * 4 + 4 * w,
{
    assert((y + r) * stride >= 0) by (nonlinear_arith)
        requires
            y + r >= 0,
            stride >= 0,
    ;
    assert((y + r) * stride + stride <= (y + h) * stride) by (nonlinear_arith)
        requires
            r < h,
            stride >= 0,
    ;
}

/// The rows of a region have four bytes for each pixel.
pub proof fn lemma_rows_len(data: Seq<u8>, stride: int, x: int, y: int, w: int, h: nat)
    requires
        0 <= x,
        0 <= y,
        0 <= w,
        x + w <= stride,
        (y + h) * stride * 4 <= data.len(),
    ensures
        rows(data, stride, x, y, w, h).len() == 4 * w * h,
    decreases h,
{
    if h > 0 {
        assert((y + (h - 1)) * stride * 4 <= (y + h) * stride * 4) by (nonlinear_arith)
            requires
                stride >= 0,
        ;
        lemma_rows_len(data, stride, x, y, w, (h - 1) as nat);
        lemma_row_in_bounds(data.len() as int, stride, x, y, w, h as int, h - 1);
        assert(4 * w * (h - 1) + 4 * w == 4 * w * h) by (nonlinear_arith);
    } else {
        assert(4 * w * 0 == 0);
    }
}

/// What a crop keeps: a region that lies on an image of `width` by `height`
/// pixels has four bytes for each of its pixels, and channel `c` of its pixel
/// in column `px` and row `py` is that channel of the image's pixel in column
/// `region.x + px` and row `region.y + py`.
pub proof fn lemma_region_pixel(
    data: Seq<u8>,
    width: u32,
    height: u32,
    region: Rect,
    px: int,
    py: int,
    c: int,
)
    requires
        data.len() == 4 * width * height,
        region.x >= 0,
        region.y >= 0,
        region.spec_right() <= width,
        region.spec_bottom() <= height,
        0 <= px < region.width,
        0 <= py < region.height,
        0 <= c < 4,
    ensures
        region_bytes(data, width as int, region).len() == 4 * region.width * region.height,
        0 <= (py * region.width + px) * 4 + c < region_bytes(data, width as int, region).len(),
        0 <= ((region.y + py) * width + region.x + px) * 4 + c < data.len(),
        region_bytes(data, width as int, region)[(py * region.width + px) * 4 + c] == data[((
        region.y + py) * width + region.x + px) * 4 + c],
{
    let w = region.width as int;
    let h = region.height as nat;
    let stride = width as int;
    assert((region.y + h) * stride * 4 <= 4 * width * height) by (nonlinear_arith)
        requires
            region.y + h <= height,
            stride == width,
            stride >= 0,
    ;
    lemma_rows_index(data, stride, region.x as int, region.y as int, w, h, py, 4 * px + c);
    assert(py * (4 * w) + (4 * px + c) == (py * w + px) * 4 + c) by (nonlinear_arith);
    assert(((region.y + py) * stride + region.x) * 4 + (4 * px + c) == ((region.y + py) * stride
        + region.x + px) * 4 + c) by (nonlinear_arith);
}

impl FrameData {
    /// The frame has four bytes for each of its pixels.
    pub open spec fn wf(&self) -> bool {
        self.data@.len() == 4 * self.width * self.height
    }

    /// The frame cut to a rectangle, which is first cut to the frame itself.
    pub open spec fn spec_crop_region(&self, rect: &Rect) -> Rect {
        rect.spec_clamp_to(self.width, self.height)
    }

    /// A frame of the given bytes, if there are four for each pixel.
    pub fn new(data: Vec<u8>, width: u32, height: u32, timestamp: u64) -> (r: Option<FrameData>)
        ensures
            r.is_some() <==> data@.len() == 4 * width * height,
            r.is_some() ==> r.unwrap() == (FrameData { data, width, height, timestamp })
                && r.unwrap().wf(),
    {
        assert(width * height <= 0xffff_ffff * 0xffff_ffff) by (nonlinear_arith)
            requires
                width <= 0xffff_ffff,
                height <= 0xffff_ffff,
        ;
        assert(4 * (width * height) == 4 * width * height) by (nonlinear_arith);
        let pixels: u64 = width as u64 * height as u64;
        let len: usize = data.len();
        if pixels > (usize::MAX / 4) as u64 {
            return None;
        }
        if len == 4 * (pixels as usize) {
            assert(4 * (width * height) == 4 * width * height) by (nonlinear_arith);
            Some(FrameData { data, width, height, timestamp })
        } else {
            assert(4 * (width * height) == 4 * width * height) by (nonlinear_arith);
            None
        }
    }

    /// The bytes with red first: the first and third byte of every pixel
    /// change places.
    pub fn to_rgba_bytes(&self) -> (out: Vec<u8>)
        ensures
            out@ == swap_red_blue(self.data@),
    {
        let n: usize = self.data.len();
        let whole: usize = (n / 4) * 4;
        let mut out: Vec<u8> = Vec::new();
        let mut i: usize = 0;
        while i < whole
            invariant
                i <= whole,
                i % 4 == 0,
                whole == (n / 4) * 4,
                n == self.data@.len(),
                out@.len() == i,
                forall|k: int| 0 <= k < i ==> out@[k] == swap_red_blue(self.data@)[k],
            decreases whole - i,
        {
            out.push(self.data[i + 2]);
            out.push(self.data[i + 1]);
            out.push(self.data[i]);
            out.push(self.data[i + 3]);
            proof {
                assert((i as int / 4) * 4 + 4 <= n);
                assert(((i + 1) as int / 4) == i as int / 4);
                assert(((i + 2) as int / 4) == i as int / 4);
                assert(((i + 3) as int / 4) == i as int / 4);
            }
            i = i + 4;
        }
        while i < n
            invariant
                whole <= i <= n,
                whole == (n / 4) * 4,
                n == self.data@.len(),
                out@.len() == i,
                forall|k: int| 0 <= k < i ==> out@[k] == swap_red_blue(self.data@)[k],
            decreases n - i,
        {
            proof {
                assert((i as int / 4) * 4 + 4 > n);
            }
            out.push(self.data[i]);
            i = i + 1;
        }
        assert(out@ =~= swap_red_blue(self.data@));
        out
    }

    /// The frame as an image with red first, of the same size.
    pub fn to_rgba_image(&self) -> (img: RgbaImage)
        requires
            self.wf(),
        ensures
            image_bytes(img) == swap_red_blue(self.data@),
            image_size(img) == (self.width, self.height),
    {
        let bytes = self.to_rgba_bytes();
        let img = image_from_raw(self.width, self.height, bytes);
        img.unwrap()
    }

    /// The frame cut to a rectangle. The rectangle is cut to the frame first:
    /// a negative origin moves to zero and the extent shrinks by as much, and
    /// nothing reaches past the frame.
    pub fn crop(&self, rect: &Rect) -> (r: FrameData)
        requires
            self.wf(),
        ensures
            r.wf(),
            r.width == self.spec_crop_region(rect).width,
            r.height == self.spec_crop_region(rect).height,
            r.timestamp == self.timestamp,
            r.data@ == region_bytes(self.data@, self.width as int, self.spec_crop_region(rect)),
    {
        let region = rect.clamp_to(self.width, self.height);
        let w: u32 = region.width;
        let h: u32 = region.height;
        let mut data: Vec<u8> = Vec::new();
        if w == 0 || h == 0 {
            assert(4 * w * h == 0) by (nonlinear_arith)
                requires
                    w == 0 || h == 0,
            ;
            return FrameData { data, width: w, height: h, timestamp: self.timestamp };
        }
        let stride: usize = self.width as usize;
        let x: usize = region.x as usize;
        let y0: usize = region.y as usize;
        let len: usize = self.data.len();
        proof {
            assert(stride * 4 <= (y0 + h) * stride * 4) by (nonlinear_arith)
                requires
                    y0 + h >= 1,
                    stride >= 0,
            ;
            assert(4 * self.width * self.height == (y0 + h) * stride * 4 + (self.height - (y0
                + h)) * stride * 4) by (nonlinear_arith)
                requires
                    stride == self.width,
            ;
            assert((self.height - (y0 + h)) * stride * 4 >= 0) by (nonlinear_arith)
                requires
                    self.height >= y0 + h,
                    stride >= 0,
            ;
        }
        let row_len: usize = 4 * (w as usize);
        let mut r: usize = 0;
        while r < h as usize
            invariant
                r <= h,
                len == self.data@.len(),
                y0 + h <= self.height,
                row_len == 4 * w,
                stride == self.width,
                0 <= x,
                x + w <= stride,
                (y0 + h) * stride * 4 <= self.data@.len(),
                data@ == rows(self.data@, stride as int, x as int, y0 as int, w as int, r as nat),
            decreases h - r,
        {
            proof {
                lemma_row_in_bounds(
                    self.data@.len() as int,
                    stride as int,
                    x as int,
                    y0 as int,
                    w as int,
                    h as int,
                    r as int,
                );
            }
            let start: usize = ((y0 + r) * stride + x) * 4;
            let mut k: usize = 0;
            while k < row_len
                invariant
                    k <= row_len,
                    len == self.data@.len(),
                    start + row_len <= self.data@.len(),
                    data@ == rows(
                        self.data@,
                        stride as int,
                        x as int,
                        y0 as int,
                        w as int,
                        r as nat,
                    ) + self.data@.subrange(start as int, start + k),
                decreases row_len - k,
            {
                data.push(self.data[start + k]);
                k = k + 1;
                assert(data@ =~= rows(
                    self.data@,
                    stride as int,
                    x as int,
                    y0 as int,
                    w as int,
                    r as nat,
                ) + self.data@.subrange(start as int, start + k));
            }
            r = r + 1;
        }
        proof {
            lemma_rows_len(self.data@, stride as int, x as int, y0 as int, w as int, h as nat);
        }
        FrameData { data, width: w, height: h, timestamp: self.timestamp }
    }
}

/// An image of the `image` crate with red first and four bytes for each
/// pixel, held as a value without a look inside.
#[verifier::external_body]
pub struct RgbaImage {
    inner: image::ImageBuffer<image::Rgba<u8>, Vec<u8>>,
}

/// The bytes that an image holds, row after row.
pub uninterp spec fn image_bytes(img: RgbaImage) -> Seq<u8>;

/// The width and height that an image was made with.
pub uninterp spec fn image_size(img: RgbaImage) -> (u32, u32);

/// `image::ImageBuffer::from_raw` for pixels of four bytes: the buffer becomes
/// the image's own, unchanged, together with the two dimensions, provided it
/// has at least four bytes for each pixel; else there is no image.
#[verifier::external_body]
fn image_from_raw(width: u32, height: u32, bytes: Vec<u8>) -> (img: Option<RgbaImage>)
    ensures
        img.is_some() <==> 4 * width * height <= bytes@.len(),
        img.is_some() ==> image_bytes(img.unwrap()) == bytes@ && image_size(img.unwrap()) == (
            width,
            height,
        ),
{
    match image::ImageBuffer::from_raw(width, height, bytes) {
        Some(inner) => Some(RgbaImage { inner }),
        None => None,
    }
}

/// `image::ImageBuffer::into_raw`: the buffer that the image holds.
#[verifier::external_body]
fn image_into_raw(img: RgbaImage) -> (bytes: Vec<u8>)
    ensures
        bytes@ == image_bytes(img),
{
    img.inner.into_raw()
}

/// `image::ImageBuffer::dimensions`: the width and height of the image.
#[verifier::external_body]
fn image_dimensions(img: &RgbaImage) -> (size: (u32, u32))
    ensures
        size == image_size(*img),
{
    img.inner.dimensions()
}

impl RgbaImage {
    /// An image of the given bytes, if there are at least four for each pixel.
    pub fn from_raw(width: u32, height: u32, bytes: Vec<u8>) -> (img: Option<RgbaImage>)
        ensures
            img.is_some() <==> 4 * width * height <= bytes@.len(),
            img.is_some() ==> image_bytes(img.unwrap()) == bytes@
                && image_size(img.unwrap()) == (width, height),
    {
        image_from_raw(width, height, bytes)
    }

    /// The bytes of the image.
    pub fn into_raw(self) -> (bytes: Vec<u8>)
        ensures
            bytes@ == image_bytes(self),
    {
        image_into_raw(self)
    }

    /// The width and height of the image.
    pub fn dimensions(&self) -> (size: (u32, u32))
        ensures
            size == image_size(*self),
    {
        image_dimensions(self)
    }
}

/// Numbers the frames of a recording and names their files.
pub struct FrameProcessor {
    output_dir: String,
    frame_count: usize,
    crop_rect: Option<Rect>,
}

impl FrameProcessor {
    /// The directory that the frames go to.
    pub closed spec fn spec_output_dir(&self) -> Seq<char> {
        self.output_dir@
    }

    /// How many frames were written.
    pub closed spec fn spec_frame_count(&self) -> nat {
        self.frame_count as nat
    }

    /// The crop rectangle, if frames are cut here.
    pub closed spec fn spec_crop_rect(&self) -> Option<Rect> {
        self.crop_rect
    }

    /// A processor that has written nothing and crops nothing.
    pub fn new(output_dir: String) -> (p: FrameProcessor)
        ensures
            p.spec_output_dir() == output_dir@,
            p.spec_frame_count() == 0,
            p.spec_crop_rect().is_none(),
    {
        FrameProcessor { output_dir, frame_count: 0, crop_rect: None }
    }

    /// Sets the crop rectangle; used where the frame source did not crop.
    pub fn set_crop_rect(&mut self, rect: Option<Rect>)
        ensures
            final(self).spec_crop_rect() == rect,
            final(self).spec_output_dir() == old(self).spec_output_dir(),
            final(self).spec_frame_count() == old(self).spec_frame_count(),
    {
        self.crop_rect = rect;
    }

    /// The frame as it is to be written, and the path it is written to: the
    /// path of the next index, which no frame of this session has yet.
    pub fn prepare_frame(&self, frame: FrameData) -> (r: (String, FrameData))
        requires
            frame.wf(),
        ensures
            r.0@ == frame_path(self.spec_output_dir(), self.spec_frame_count()),
            r.1.wf(),
            self.spec_crop_rect().is_none() ==> r.1 == frame,
            self.spec_crop_rect().is_some() ==> {
                let region = frame.spec_crop_region(&self.spec_crop_rect().unwrap());
                &&& r.1.width == region.width
                &&& r.1.height == region.height
                &&& r.1.timestamp == frame.timestamp
                &&& r.1.data@ == region_bytes(frame.data@, frame.width as int, region)
            },
    {
        let path = frame_path_string(self.output_dir.as_str(), self.frame_count);
        let out = match &self.crop_rect {
            Some(rect) => frame.crop(rect),
            None => frame,
        };
        (path, out)
    }

    /// Takes note of how writing the prepared frame went. A written frame is
    /// counted and its path returned; a failed write leaves the count as it
    /// was and is handed back.
    pub fn process_frame(&mut self, written: Result<(), CaptureError>) -> (r: Result<
        String,
        CaptureError,
    >)
        requires
            old(self).spec_frame_count() < usize::MAX,
        ensures
            final(self).spec_output_dir() == old(self).spec_output_dir(),
            final(self).spec_crop_rect() == old(self).spec_crop_rect(),
            written.is_ok() ==> r.is_ok() && r.unwrap()@ == frame_path(
                old(self).spec_output_dir(),
                old(self).spec_frame_count(),
            ) && final(self).spec_frame_count() == old(self).spec_frame_count() + 1,
            written.is_err() ==> r.is_err() && r.unwrap_err() == written.unwrap_err()
                && final(self).spec_frame_count() == old(self).spec_frame_count(),
    {
        match written {
            Ok(_) => {
                let path = frame_path_string(self.output_dir.as_str(), self.frame_count);
                self.frame_count = self.frame_count + 1;
                Ok(path)
            },
            Err(e) => Err(e),
        }
    }

    /// How many frames were written.
    pub fn frame_count(&self) -> (n: usize)
        ensures
            n == self.spec_frame_count(),
    {
        self.frame_count
    }

    /// The paths of all frames written so far, by index: as many as the count
    /// says, the path at place `i` that of frame `i`.
    pub fn get_frame_paths(&self) -> (paths: Vec<String>)
        ensures
            views(paths@) == frame_path_list(self.spec_output_dir(), self.spec_frame_count()),
            paths.len() == self.spec_frame_count(),
            forall|i: int|
                0 <= i < paths.len() ==> (#[trigger] paths[i])@ == frame_path(
                    self.spec_output_dir(),
                    i as nat,
                ),
    {
        frame_paths(self.output_dir.as_str(), self.frame_count)
    }

    /// Starts counting again from zero.
    pub fn reset(&mut self)
        ensures
            final(self).spec_frame_count() == 0,
            final(self).spec_output_dir() == old(self).spec_output_dir(),
            final(self).spec_crop_rect() == old(self).spec_crop_rect(),
    {
        self.frame_count = 0;
    }
}

} // verus!
