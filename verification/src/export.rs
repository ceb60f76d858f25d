//! The export step: which frames go to the encoder, at what rate, and what
//! the encoder is told.

use crate::state::RecordingSession;
use crate::text::{frame_path, frame_path_list, frame_path_string, views};
use vstd::prelude::*;
use vstd::string::*;

verus! {

/// Why an export failed. Errors of the file system and of the encoders are
/// carried as their text.
#[derive(Debug, Clone)]
pub enum ExportError {
    Io(String),
    Image(String),
    GifEncode(String),
    NoFrames,
    Cancelled,
}

impl ExportError {
    /// The message of an error.
    pub open spec fn spec_message(&self) -> Seq<char> {
        match self {
            ExportError::Io(e) => "IO error: "@ + e@,
            ExportError::Image(e) => "Image error: "@ + e@,
            ExportError::GifEncode(e) => "GIF encoding error: "@ + e@,
            ExportError::NoFrames => "No frames to export"@,
            ExportError::Cancelled => "Export cancelled"@,
        }
    }

    /// The message of the error, for the status line.
    pub fn message(&self) -> (s: String)
        ensures
            s@ == self.spec_message(),
    {
        match self {
            ExportError::Io(e) => String::from_str("IO error: ").concat(e.as_str()),
            ExportError::Image(e) => String::from_str("Image error: ").concat(e.as_str()),
            ExportError::GifEncode(e) => String::from_str("GIF encoding error: ").concat(
                e.as_str(),
            ),
            ExportError::NoFrames => String::from_str("No frames to export"),
            ExportError::Cancelled => String::from_str("Export cancelled"),
        }
    }
}

/// Export format.
#[derive(Debug, Clone, Copy, PartialEq, Eq, Structural)]
pub enum ExportFormat {
    Gif,
    PngSequence,
}

/// The frame rate used where none can be derived.
pub const DEFAULT_FPS: u8 = 15;

/// The quality used where none is asked for.
pub const DEFAULT_QUALITY: u8 = 90;

/// The lowest and the highest frame rate that an export derives.
pub const MIN_EXPORT_FPS: u8 = 1;

pub const MAX_EXPORT_FPS: u8 = 60;

/// Common export configuration.
#[derive(Debug, Clone)]
pub struct ExportConfig {
    pub format: ExportFormat,
    pub output_path: String,
    pub fps: u8,
    pub quality: u8,
}

impl Default for ExportConfig {
    fn default() -> (c: ExportConfig)
        ensures
            c.format == ExportFormat::Gif,
            c.output_path@ == Seq::<char>::empty(),
            c.fps == DEFAULT_FPS,
            c.quality == DEFAULT_QUALITY,
    {
        ExportConfig {
            format: ExportFormat::Gif,
            output_path: String::new(),
            fps: DEFAULT_FPS,
            quality: DEFAULT_QUALITY,
        }
    }
}

/// What the animated-image encoder is told.
#[derive(Debug, Clone)]
pub struct GifExportConfig {
    pub output_path: String,
    pub fps: u8,
    pub quality: u8,
    pub width: Option<u32>,
    pub height: Option<u32>,
    pub fast: bool,
}

impl Default for GifExportConfig {
    fn default() -> (c: GifExportConfig)
        ensures
            c.output_path@ == Seq::<char>::empty(),
            c.fps == DEFAULT_FPS,
            c.quality == DEFAULT_QUALITY,
            c.width.is_none(),
            c.height.is_none(),
            !c.fast,
    {
        GifExportConfig {
            output_path: String::new(),
            fps: DEFAULT_FPS,
            quality: DEFAULT_QUALITY,
            width: None,
            height: None,
            fast: false,
        }
    }
}

/// The whole number nearest to `a / b`, halves rounded up.
pub open spec fn rounded_div(a: nat, b: nat) -> nat
    recommends
        b > 0,
{
    (2 * a + b) / (2 * b)
}

/// A frame rate cut to the range that an export accepts.
pub open spec fn clamped_fps(rate: nat) -> u8 {
    if rate < MIN_EXPORT_FPS {
        MIN_EXPORT_FPS
    } else if rate > MAX_EXPORT_FPS {
        MAX_EXPORT_FPS
    } else {
        rate as u8
    }
}

/// The frame rate of an export: the frames per second that were really
/// captured, rounded to a whole number and cut to the accepted range; the
/// fallback where nothing was captured or no time was measured.
pub open spec fn spec_export_fps(frame_count: nat, duration_nanos: nat, fallback: u8) -> u8 {
    if duration_nanos > 0 && frame_count > 0 {
        clamped_fps(rounded_div(frame_count * 1_000_000_000, duration_nanos))
    } else {
        fallback
    }
}

/// The rounded quotient is within a half of the exact one.
pub proof fn lemma_rounded_div_nearest(a: nat, b: nat)
    requires
        b > 0,
    ensures
        2 * a - b < 2 * rounded_div(a, b) * b <= 2 * a + b,
{
    let q = rounded_div(a, b);
    let n = 2 * a + b;
    let d = 2 * b;
    assert(q * d <= n && n < q * d + d) by (nonlinear_arith)
        requires
            q == n / d,
            d > 0,
            n >= 0,
    ;
    assert(q * d == 2 * q * b) by (nonlinear_arith)
        requires
            d == 2 * b,
    ;
}

/// A derived frame rate lies in the accepted range.
pub proof fn lemma_export_fps_in_range(frame_count: nat, duration_nanos: nat, fallback: u8)
    requires
        duration_nanos > 0,
        frame_count > 0,
    ensures
        MIN_EXPORT_FPS <= spec_export_fps(frame_count, duration_nanos, fallback) <= MAX_EXPORT_FPS,
{
}

/// The frame rate of an export, from what was captured in what time.
pub fn derive_export_fps(frame_count: usize, duration_nanos: u64, fallback: u8) -> (fps: u8)
    ensures
        fps == spec_export_fps(frame_count as nat, duration_nanos as nat, fallback),
{
    if duration_nanos > 0 && frame_count > 0 {
        let frames: u128 = frame_count as u128;
        let nanos: u128 = duration_nanos as u128;
        assert(frames * 1_000_000_000 <= 0xffff_ffff_ffff_ffff * 1_000_000_000) by (nonlinear_arith)
            requires
                frames <= 0xffff_ffff_ffff_ffff,
        ;
        let rate: u128 = (2 * (frames * 1_000_000_000) + nanos) / (2 * nanos);
        if rate < MIN_EXPORT_FPS as u128 {
            MIN_EXPORT_FPS
        } else if rate > MAX_EXPORT_FPS as u128 {
            MAX_EXPORT_FPS
        } else {
            rate as u8
        }
    } else {
        fallback
    }
}

/// When frame `index` is shown at a frame rate, in nanoseconds from the start.
pub open spec fn spec_presentation_nanos(index: nat, fps: u8) -> nat
    recommends
        fps >= 1,
{
    (index * 1_000_000_000) / (fps as nat)
}

/// When frame `index` is shown at a frame rate, in nanoseconds from the start.
pub fn presentation_nanos(index: usize, fps: u8) -> (t: u128)
    requires
        fps >= 1,
    ensures
        t == spec_presentation_nanos(index as nat, fps),
{
    let i: u128 = index as u128;
    assert(i * 1_000_000_000 <= 0xffff_ffff_ffff_ffff * 1_000_000_000) by (nonlinear_arith)
        requires
            i <= 0xffff_ffff_ffff_ffff,
    ;
    (i * 1_000_000_000) / (fps as u128)
}

/// Frames are shown in index order: a later frame has a later time.
pub proof fn lemma_presentation_increases(i: nat, j: nat, fps: u8)
    requires
        fps >= 1,
        i < j,
    ensures
        spec_presentation_nanos(i, fps) < spec_presentation_nanos(j, fps),
{
    let f = fps as nat;
    let a = i * 1_000_000_000;
    let b = j * 1_000_000_000;
    assert(b >= a + 1_000_000_000) by (nonlinear_arith)
        requires
            a == i * 1_000_000_000,
            b == j * 1_000_000_000,
            i < j,
    ;
    assert(a / f < b / f) by (nonlinear_arith)
        requires
            b >= a + 1_000_000_000,
            1 <= f <= 255,
            a >= 0,
    ;
}

/// Whether the file at place `i` is there. A place past the end of the flags
/// counts as missing.
pub open spec fn present(exists: Seq<bool>, i: int) -> bool {
    0 <= i < exists.len() && exists[i]
}

/// The paths whose file exists, in their order.
pub open spec fn existing(paths: Seq<Seq<char>>, exists: Seq<bool>) -> Seq<Seq<char>>
    decreases paths.len(),
{
    if paths.len() == 0 {
        Seq::empty()
    } else {
        let rest = existing(paths.drop_last(), exists);
        let last = paths.len() - 1;
        if present(exists, last) {
            rest.push(paths.last())
        } else {
            rest
        }
    }
}

/// No more paths exist than there are.
pub proof fn lemma_existing_len(paths: Seq<Seq<char>>, exists: Seq<bool>)
    ensures
        existing(paths, exists).len() <= paths.len(),
        (forall|i: int| 0 <= i < paths.len() ==> #[trigger] present(exists, i)) ==> existing(
            paths,
            exists,
        ) == paths,
        (forall|i: int| 0 <= i < paths.len() ==> !#[trigger] present(exists, i)) ==> existing(
            paths,
            exists,
        ).len() == 0,
    decreases paths.len(),
{
    if paths.len() > 0 {
        lemma_existing_len(paths.drop_last(), exists);
        let last = paths.len() - 1;
        if forall|i: int| 0 <= i < paths.len() ==> #[trigger] present(exists, i) {
            assert(present(exists, last));
            assert(paths.drop_last().push(paths.last()) =~= paths);
        }
        if forall|i: int| 0 <= i < paths.len() ==> !#[trigger] present(exists, i) {
            assert(!present(exists, last));
        }
    } else {
        assert(existing(paths, exists) =~= paths);
    }
}

/// Keeps the paths whose file exists, in their order. `exists` tells for each
/// path, by its place, whether its file is there.
pub fn select_existing(paths: &Vec<String>, exists: &Vec<bool>) -> (kept: Vec<String>)
    ensures
        views(kept@) == existing(views(paths@), exists@),
        kept.len() <= paths.len(),
{
    let mut kept: Vec<String> = Vec::new();
    let mut i: usize = 0;
    proof {
        assert(views(paths@).subrange(0, 0) =~= Seq::<Seq<char>>::empty());
        assert(views(kept@) =~= Seq::<Seq<char>>::empty());
    }
    while i < paths.len()
        invariant
            i <= paths.len(),
            views(kept@) == existing(views(paths@).subrange(0, i as int), exists@),
            kept.len() <= i,
        decreases paths.len() - i,
    {
        let ghost before = views(kept@);
        let ghost prefix = views(paths@).subrange(0, i as int + 1);
        proof {
            assert(prefix.drop_last() =~= views(paths@).subrange(0, i as int));
            assert(prefix.last() == paths@[i as int]@);
        }
        if i < exists.len() && exists[i] {
            kept.push(paths[i].clone());
            proof {
                assert(views(kept@) =~= before.push(paths@[i as int]@));
            }
        }
        i = i + 1;
    }
    proof {
        assert(views(paths@).subrange(0, paths@.len() as int) =~= views(paths@));
    }
    kept
}

/// What an export is given to work on.
#[derive(Debug, Clone)]
pub struct ExportPlan {
    /// The frames that exist, in index order.
    pub frames: Vec<String>,
    /// The frame rate for the encoder.
    pub fps: u8,
    /// How many of the expected frames are missing.
    pub missing: usize,
}

/// Why an export does not begin.
#[derive(Debug, Clone, Copy, PartialEq, Eq, Structural)]
pub enum ExportRefusal {
    /// The session has no frames at all.
    NothingRecorded,
    /// Frames were recorded, but none of their files is there.
    NoValidFrames { expected: usize },
}

/// Decides whether a session can be exported. `exists` tells for each frame
/// of the session, by index, whether its file is there. A session without
/// frames is refused; so is one none of whose files is there. Else the export
/// goes on with the files that are there, though some may be missing, at the
/// frame rate that the recording really had.
pub fn plan_export(session: &RecordingSession, exists: &Vec<bool>) -> (r: Result<
    ExportPlan,
    ExportRefusal,
>)
    ensures
        ({
            let expected = frame_path_list(
                session.temp_dir@,
                session.frame_count as nat,
            );
            let valid = existing(expected, exists@);
            &&& session.frame_count == 0 ==> r == Err::<ExportPlan, ExportRefusal>(
                ExportRefusal::NothingRecorded,
            )
            &&& session.frame_count > 0 && valid.len() == 0 ==> r == Err::<
                ExportPlan,
                ExportRefusal,
            >(ExportRefusal::NoValidFrames { expected: session.frame_count })
            &&& session.frame_count > 0 && valid.len() > 0 ==> {
                &&& r.is_ok()
                &&& views(r.unwrap().frames@) == valid
                &&& r.unwrap().missing == session.frame_count - valid.len()
                &&& r.unwrap().fps == spec_export_fps(
                    session.frame_count as nat,
                    session.duration_nanos as nat,
                    DEFAULT_FPS,
                )
            }
        }),
{
    if session.frame_count == 0 {
        return Err(ExportRefusal::NothingRecorded);
    }
    let paths = session.all_frame_paths();
    let frames = select_existing(&paths, exists);
    if frames.len() == 0 {
        return Err(ExportRefusal::NoValidFrames { expected: session.frame_count });
    }
    let missing: usize = session.frame_count - frames.len();
    let fps: u8 = derive_export_fps(session.frame_count, session.duration_nanos, DEFAULT_FPS);
    Ok(ExportPlan { frames, fps, missing })
}

/// The encoder's settings for an export to a path at a frame rate: the
/// default quality, the frames' own size, the slow and thorough mode.
pub fn gif_config(output_path: String, fps: u8) -> (c: GifExportConfig)
    ensures
        c.output_path@ == output_path@,
        c.fps == fps,
        c.quality == DEFAULT_QUALITY,
        c.width.is_none(),
        c.height.is_none(),
        !c.fast,
{
    GifExportConfig {
        output_path,
        fps,
        quality: DEFAULT_QUALITY,
        width: None,
        height: None,
        fast: false,
    }
}

/// The bookkeeping of an encoder run that is fed frame by frame: whether it
/// was started, and how many frames it was given.
pub struct GifExporter {
    config: GifExportConfig,
    started: bool,
    frame_count: usize,
}

impl GifExporter {
    pub closed spec fn spec_config(&self) -> GifExportConfig {
        self.config
    }

    pub closed spec fn spec_started(&self) -> bool {
        self.started
    }

    pub closed spec fn spec_frame_count(&self) -> nat {
        self.frame_count as nat
    }

    /// The text of the error for a frame that comes before the start.
    pub open spec fn not_started_text() -> Seq<char> {
        "Exporter not started"@
    }

    /// An exporter that is not started and has no frames.
    pub fn new(config: GifExportConfig) -> (r: Result<GifExporter, ExportError>)
        ensures
            r.is_ok(),
            r.unwrap().spec_config() == config,
            !r.unwrap().spec_started(),
            r.unwrap().spec_frame_count() == 0,
    {
        Ok(GifExporter { config, started: false, frame_count: 0 })
    }

    /// Takes note of how setting up the encoder went: the exporter is started
    /// if that worked, and unchanged if it did not.
    pub fn start(&mut self, set_up: Result<(), ExportError>) -> (r: Result<(), ExportError>)
        ensures
            r == set_up,
            final(self).spec_config() == old(self).spec_config(),
            final(self).spec_frame_count() == old(self).spec_frame_count(),
            final(self).spec_started() == (old(self).spec_started() || set_up.is_ok()),
    {
        if set_up.is_ok() {
            self.started = true;
        }
        set_up
    }

    /// Admits the next frame and tells when it is shown, in nanoseconds from
    /// the start: frame `i` at `i` over the frame rate. Before the start no
    /// frame is admitted.
    pub fn add_frame(&mut self) -> (r: Result<u128, ExportError>)
        requires
            old(self).spec_config().fps >= 1,
            old(self).spec_frame_count() < usize::MAX,
        ensures
            final(self).spec_config() == old(self).spec_config(),
            final(self).spec_started() == old(self).spec_started(),
            old(self).spec_started() ==> r == Ok::<u128, ExportError>(
                spec_presentation_nanos(old(self).spec_frame_count(), old(self).spec_config().fps) as u128,
            ) && final(self).spec_frame_count() == old(self).spec_frame_count() + 1,
            !old(self).spec_started() ==> r is Err && r->Err_0 is GifEncode
                && r->Err_0->GifEncode_0@ == Self::not_started_text()
                && final(self).spec_frame_count() == old(self).spec_frame_count(),
    {
        if !self.started {
            return Err(ExportError::GifEncode(String::from_str("Exporter not started")));
        }
        let t: u128 = presentation_nanos(self.frame_count, self.config.fps);
        self.frame_count = self.frame_count + 1;
        Ok(t)
    }

    /// Ends the run: without a frame there is nothing to export; else the
    /// outcome of the encoder decides, and success gives the output path.
    pub fn finish(self, encoded: Result<(), ExportError>) -> (r: Result<String, ExportError>)
        ensures
            self.spec_frame_count() == 0 ==> r is Err && r->Err_0 is NoFrames,
            self.spec_frame_count() > 0 && encoded.is_ok() ==> r is Ok && r->Ok_0@
                == self.spec_config().output_path@,
            self.spec_frame_count() > 0 && encoded.is_err() ==> r is Err && r->Err_0
                == encoded->Err_0,
    {
        if self.frame_count == 0 {
            return Err(ExportError::NoFrames);
        }
        match encoded {
            Ok(_) => Ok(self.config.output_path),
            Err(e) => Err(e),
        }
    }

    /// Whether a list of frames can go to the encoder at all: an empty list
    /// is refused before anything is set up.
    pub fn export_from_pngs(png_count: usize) -> (r: Result<(), ExportError>)
        ensures
            png_count == 0 ==> r is Err && r->Err_0 is NoFrames,
            png_count > 0 ==> r is Ok,
    {
        if png_count == 0 {
            Err(ExportError::NoFrames)
        } else {
            Ok(())
        }
    }
}

/// Copies a sequence of frames into a directory under their frame names.
pub struct PngExporter;

impl PngExporter {
    /// Where each of `count` frames goes in the output directory: frame `i`
    /// to the frame path of index `i`. An empty sequence is refused.
    pub fn export(count: usize, output_dir: &str) -> (r: Result<Vec<String>, ExportError>)
        ensures
            count == 0 ==> r is Err && r->Err_0 is NoFrames,
            count > 0 ==> r is Ok && r->Ok_0.len() == count && forall|i: int|
                0 <= i < count ==> (#[trigger] r->Ok_0[i])@ == frame_path(output_dir@, i as nat),
    {
        if count == 0 {
            return Err(ExportError::NoFrames);
        }
        let mut out: Vec<String> = Vec::new();
        let mut i: usize = 0;
        while i < count
            invariant
                i <= count,
                out.len() == i,
                forall|k: int| 0 <= k < i ==> (#[trigger] out[k])@ == frame_path(
                    output_dir@,
                    k as nat,
                ),
            decreases count - i,
        {
            out.push(frame_path_string(output_dir, i));
            i = i + 1;
        }
        Ok(out)
    }
}

} // verus!
