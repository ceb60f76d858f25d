//! The capture worker's decisions: what a command does to it, when it polls
//! the frame source, and what it reports. The caller runs the loop, owns the
//! frame source and the clock, and hands in the time in nanoseconds.

use crate::capture::{CaptureError, CaptureTarget};
use crate::frame::{region_bytes, FrameData, FrameProcessor};
use crate::geometry::Rect;
use crate::text::frame_path;
use vstd::prelude::*;
use vstd::string::*;

verus! {

/// Nanoseconds in a second.
pub const NANOS_PER_SEC: u64 = 1_000_000_000;

/// A command to the capture worker.
#[derive(Debug, Clone)]
pub enum CaptureCommand {
    Start { target: CaptureTarget, crop_rect: Option<Rect>, output_dir: String, fps: u8 },
    Stop,
    Shutdown,
}

/// What the capture worker reports.
#[derive(Debug, Clone)]
pub enum CaptureResult {
    Started,
    Progress { elapsed_secs: u64, frame_count: usize },
    Stopped { frame_count: usize, duration_nanos: u64 },
    Error(String),
}

/// What the caller does after a command.
#[derive(Debug, Clone)]
pub enum WorkerAction {
    /// Build a frame source for the target and start it; report the outcome
    /// with `begin_session`.
    OpenSource { target: CaptureTarget, crop_rect: Option<Rect>, output_dir: String, fps: u8 },
    /// Tear down the frame source, if there is one, and send the report.
    Report(CaptureResult),
    /// Leave the loop.
    Exit,
}

/// The least time between two frames at a frame rate, in nanoseconds.
pub open spec fn spec_frame_interval(fps: u8) -> u64 {
    (NANOS_PER_SEC / (fps as u64)) as u64
}

/// The time from `earlier` to `later`, zero if the clock seems to have gone back.
pub open spec fn spec_elapsed(earlier: u64, later: u64) -> u64 {
    if later >= earlier {
        (later - earlier) as u64
    } else {
        0
    }
}

/// Whether the frame source is polled at time `now`: at least one interval
/// has passed since the last frame.
pub open spec fn polls(last: int, interval: int, now: int) -> bool {
    now - last >= interval
}

/// One turn of the capture loop: the time, and whether the frame source had a
/// frame ready.
pub struct Tick {
    pub now: int,
    pub frame_ready: bool,
}

/// How many frames a capture loop takes over a run of ticks, when the last
/// frame (or the start) was at `last`.
pub open spec fn frames_taken(last: int, interval: int, ticks: Seq<Tick>) -> nat
    decreases ticks.len(),
{
    if ticks.len() == 0 {
        0
    } else {
        let t = ticks[0];
        if polls(last, interval, t.now) && t.frame_ready {
            1 + frames_taken(t.now, interval, ticks.drop_first())
        } else {
            frames_taken(last, interval, ticks.drop_first())
        }
    }
}

/// Every frame taken uses up one interval of the time that is left.
pub proof fn lemma_frames_use_time(last: int, interval: int, ticks: Seq<Tick>, end: int)
    requires
        interval > 0,
        last <= end,
        forall|i: int| 0 <= i < ticks.len() ==> (#[trigger] ticks[i]).now <= end,
    ensures
        frames_taken(last, interval, ticks) * interval <= end - last,
    decreases ticks.len(),
{
    if ticks.len() > 0 {
        let t = ticks[0];
        let rest = ticks.drop_first();
        assert forall|i: int| 0 <= i < rest.len() implies (#[trigger] rest[i]).now <= end by {
            assert(rest[i] == ticks[i + 1]);
        }
        assert(ticks[0].now <= end);
        if polls(last, interval, t.now) && t.frame_ready {
            lemma_frames_use_time(t.now, interval, rest, end);
            let f = frames_taken(t.now, interval, rest) as int;
            assert(frames_taken(last, interval, ticks) == 1 + f);
            assert((1 + f) * interval == interval + f * interval) by (nonlinear_arith);
        } else {
            lemma_frames_use_time(last, interval, rest, end);
            assert(frames_taken(last, interval, ticks) == frames_taken(last, interval, rest));
        }
    } else {
        assert(frames_taken(last, interval, ticks) == 0);
        assert(0 * interval == 0);
    }
}

/// The pacing ceiling: a capture loop that starts at `start` and whose ticks
/// all fall within `duration` after that takes at most `duration / interval`
/// frames, whatever the ticks and whenever frames are ready; so never more
/// than that plus one.
pub proof fn lemma_pacing_ceiling(start: int, interval: int, duration: int, ticks: Seq<Tick>)
    requires
        interval > 0,
        duration >= 0,
        forall|i: int| 0 <= i < ticks.len() ==> (#[trigger] ticks[i]).now <= start + duration,
    ensures
        frames_taken(start, interval, ticks) <= duration / interval,
        frames_taken(start, interval, ticks) <= duration / interval + 1,
{
    lemma_frames_use_time(start, interval, ticks, start + duration);
    let n = frames_taken(start, interval, ticks) as int;
    assert(n <= duration / interval) by (nonlinear_arith)
        requires
            n * interval <= duration,
            interval > 0,
            n >= 0,
    ;
}

/// The least time between two frames at a frame rate, in nanoseconds.
pub fn frame_interval(fps: u8) -> (r: u64)
    requires
        fps >= 1,
    ensures
        r == spec_frame_interval(fps),
        r >= 1,
{
    assert(1_000_000_000int / (fps as int) >= 1) by (nonlinear_arith)
        requires
            1 <= fps <= 255,
    ;
    NANOS_PER_SEC / (fps as u64)
}

/// The time from `earlier` to `later`, zero if the clock seems to have gone back.
pub fn elapsed(earlier: u64, later: u64) -> (r: u64)
    ensures
        r == spec_elapsed(earlier, later),
{
    if later >= earlier {
        later - earlier
    } else {
        0
    }
}

/// The capture worker between two turns of its loop. While a session runs it
/// has a frame processor and a start time; while none runs it has neither.
pub struct CaptureWorker {
    session: Option<ActiveCapture>,
    last_frame_time: u64,
    frame_interval: u64,
    last_progress_secs: u64,
}

/// What belongs to a running session: its frame processor and its start time.
pub struct ActiveCapture {
    processor: FrameProcessor,
    start_time: u64,
}

impl CaptureWorker {
    /// Whether a session runs.
    pub closed spec fn spec_running(&self) -> bool {
        self.session.is_some()
    }

    /// The frames written in the running session; zero without one.
    pub closed spec fn spec_frame_count(&self) -> nat {
        match self.session {
            Some(s) => s.processor.spec_frame_count(),
            None => 0,
        }
    }

    /// The directory of the running session.
    pub closed spec fn spec_output_dir(&self) -> Option<Seq<char>> {
        match self.session {
            Some(s) => Some(s.processor.spec_output_dir()),
            None => None,
        }
    }

    /// The crop rectangle of the running session's processor.
    pub closed spec fn spec_crop_rect(&self) -> Option<Rect> {
        match self.session {
            Some(s) => s.processor.spec_crop_rect(),
            None => None,
        }
    }

    /// When the last frame was taken, or the session started.
    pub closed spec fn spec_last_frame_time(&self) -> u64 {
        self.last_frame_time
    }

    /// The least time between two frames.
    pub closed spec fn spec_interval(&self) -> u64 {
        self.frame_interval
    }

    /// When the running session started.
    pub closed spec fn spec_start_time(&self) -> Option<u64> {
        match self.session {
            Some(s) => Some(s.start_time),
            None => None,
        }
    }

    /// The last whole second that was reported.
    pub closed spec fn spec_last_progress_secs(&self) -> u64 {
        self.last_progress_secs
    }

    /// No session runs, and nothing of one is left.
    pub open spec fn spec_idle(&self) -> bool {
        &&& !self.spec_running()
        &&& self.spec_frame_count() == 0
        &&& self.spec_output_dir().is_none()
        &&& self.spec_start_time().is_none()
    }

    /// Everything but the frame count and the time of the last frame is the
    /// same in both workers.
    pub open spec fn same_session(&self, other: &CaptureWorker) -> bool {
        &&& self.spec_running() == other.spec_running()
        &&& self.spec_output_dir() == other.spec_output_dir()
        &&& self.spec_crop_rect() == other.spec_crop_rect()
        &&& self.spec_interval() == other.spec_interval()
        &&& self.spec_start_time() == other.spec_start_time()
        &&& self.spec_last_progress_secs() == other.spec_last_progress_secs()
    }

    /// The two workers are in the same state.
    pub open spec fn same_as(&self, other: &CaptureWorker) -> bool {
        &&& self.same_session(other)
        &&& self.spec_frame_count() == other.spec_frame_count()
        &&& self.spec_last_frame_time() == other.spec_last_frame_time()
    }

    /// A worker without a session, set to fifteen frames a second.
    pub fn new() -> (w: CaptureWorker)
        ensures
            w.spec_idle(),
            w.spec_interval() == spec_frame_interval(15),
            w.spec_last_frame_time() == 0,
            w.spec_last_progress_secs() == 0,
    {
        CaptureWorker {
            session: None,
            last_frame_time: 0,
            frame_interval: NANOS_PER_SEC / 15,
            last_progress_secs: 0,
        }
    }

    /// Whether a session runs.
    pub fn is_running(&self) -> (r: bool)
        ensures
            r == self.spec_running(),
    {
        self.session.is_some()
    }

    /// The frames written in the running session; zero without one.
    pub fn frame_count(&self) -> (n: usize)
        ensures
            n == self.spec_frame_count(),
    {
        match &self.session {
            Some(s) => s.processor.frame_count(),
            None => 0,
        }
    }

    /// Takes a command. `Start` changes nothing yet: the caller opens the
    /// frame source and reports with `begin_session`. `Stop` ends the session
    /// and reports its frame count and duration; without a session it reports
    /// zero frames in zero time and changes nothing. `Shutdown` ends the loop.
    pub fn command(&mut self, cmd: CaptureCommand, now: u64) -> (action: WorkerAction)
        ensures
            cmd is Start ==> final(self).same_as(old(self)) && action == (
            WorkerAction::OpenSource {
                target: cmd->target,
                crop_rect: cmd->crop_rect,
                output_dir: cmd->output_dir,
                fps: cmd->fps,
            }),
            cmd is Shutdown ==> final(self).same_as(old(self)) && action == WorkerAction::Exit,
            cmd is Stop && !old(self).spec_running() ==> final(self).same_as(old(self)) && action
                == idle_stop_report(),
            !(action is Report && action->Report_0 is Error),
            cmd is Stop ==> {
                &&& final(self).spec_idle()
                &&& final(self).spec_interval() == old(self).spec_interval()
                &&& final(self).spec_last_frame_time() == old(self).spec_last_frame_time()
                &&& final(self).spec_last_progress_secs() == old(self).spec_last_progress_secs()
                &&& action == WorkerAction::Report(
                    CaptureResult::Stopped {
                        frame_count: old(self).spec_frame_count() as usize,
                        duration_nanos: match old(self).spec_start_time() {
                            Some(t) => spec_elapsed(t, now),
                            None => 0,
                        },
                    },
                )
            },
    {
        match cmd {
            CaptureCommand::Start { target, crop_rect, output_dir, fps } => {
                WorkerAction::OpenSource { target, crop_rect, output_dir, fps }
            },
            CaptureCommand::Stop => {
                let frame_count: usize = self.frame_count();
                let duration_nanos: u64 = match &self.session {
                    Some(s) => elapsed(s.start_time, now),
                    None => 0,
                };
                self.session = None;
                WorkerAction::Report(CaptureResult::Stopped { frame_count, duration_nanos })
            },
            CaptureCommand::Shutdown => WorkerAction::Exit,
        }
    }

    /// Takes the outcome of opening and starting a frame source. If that
    /// failed, the error is reported and nothing changes. If it worked, a new
    /// session begins at `now`, with a new processor for the directory that
    /// crops nothing, and `Started` is reported.
    pub fn begin_session(
        &mut self,
        opened: Result<(), CaptureError>,
        output_dir: String,
        fps: u8,
        now: u64,
    ) -> (report: CaptureResult)
        requires
            fps >= 1,
        ensures
            opened.is_err() ==> final(self).same_as(old(self)) && report is Error
                && report->Error_0@ == opened.unwrap_err().spec_message(),
            opened.is_ok() ==> {
                &&& report is Started
                &&& final(self).spec_running()
                &&& final(self).spec_frame_count() == 0
                &&& final(self).spec_output_dir() == Some(output_dir@)
                &&& final(self).spec_crop_rect().is_none()
                &&& final(self).spec_interval() == spec_frame_interval(fps)
                &&& final(self).spec_last_frame_time() == now
                &&& final(self).spec_start_time() == Some(now)
                &&& final(self).spec_last_progress_secs() == 0
            },
    {
        match opened {
            Err(e) => CaptureResult::Error(e.message()),
            Ok(_) => {
                let mut processor = FrameProcessor::new(output_dir);
                processor.set_crop_rect(None);
                self.session = Some(ActiveCapture { processor, start_time: now });
                self.last_frame_time = now;
                self.frame_interval = frame_interval(fps);
                self.last_progress_secs = 0;
                CaptureResult::Started
            },
        }
    }

    /// Whether the frame source is polled now: a session runs and at least
    /// one interval has passed since the last frame.
    pub fn should_poll(&self, now: u64) -> (r: bool)
        ensures
            r == (self.spec_running() && polls(
                self.spec_last_frame_time() as int,
                self.spec_interval() as int,
                now as int,
            )),
    {
        self.session.is_some() && now >= self.last_frame_time && now - self.last_frame_time
            >= self.frame_interval
    }

    /// The frame as it is to be written and the path it goes to; none
    /// without a session.
    pub fn prepare_frame(&self, frame: FrameData) -> (r: Option<(String, FrameData)>)
        requires
            frame.wf(),
        ensures
            r.is_some() == self.spec_running(),
            r.is_some() ==> {
                let (path, out) = r.unwrap();
                &&& path@ == frame_path(self.spec_output_dir().unwrap(), self.spec_frame_count())
                &&& out.wf()
                &&& self.spec_crop_rect().is_none() ==> out == frame
                &&& self.spec_crop_rect().is_some() ==> {
                    let region = frame.spec_crop_region(&self.spec_crop_rect().unwrap());
                    &&& out.width == region.width
                    &&& out.height == region.height
                    &&& out.timestamp == frame.timestamp
                    &&& out.data@ == region_bytes(frame.data@, frame.width as int, region)
                }
            },
    {
        match &self.session {
            Some(s) => Some(s.processor.prepare_frame(frame)),
            None => None,
        }
    }

    /// Takes note that a frame was taken at `now` and how writing it went.
    /// The time of the last frame moves to `now` either way; the frame is
    /// counted only if it was written. Without a session nothing changes.
    pub fn frame_taken(&mut self, written: Result<(), CaptureError>, now: u64)
        requires
            old(self).spec_frame_count() < usize::MAX,
        ensures
            final(self).same_session(old(self)),
            !old(self).spec_running() ==> final(self).same_as(old(self)),
            old(self).spec_running() ==> final(self).spec_last_frame_time() == now
                && final(self).spec_frame_count() == old(self).spec_frame_count() + if written.is_ok() {
                1nat
            } else {
                0nat
            },
    {
        match &mut self.session {
            Some(s) => {
                let _ = s.processor.process_frame(written);
                self.last_frame_time = now;
            },
            None => {},
        }
    }

    /// The progress report that is due at `now`, if one is: a session runs
    /// and a whole second has passed that was not reported yet. The report
    /// holds the whole seconds since the start and the frames written.
    pub fn progress(&mut self, now: u64) -> (report: Option<CaptureResult>)
        ensures
            final(self).spec_running() == old(self).spec_running(),
            final(self).spec_output_dir() == old(self).spec_output_dir(),
            final(self).spec_crop_rect() == old(self).spec_crop_rect(),
            final(self).spec_interval() == old(self).spec_interval(),
            final(self).spec_start_time() == old(self).spec_start_time(),
            final(self).spec_frame_count() == old(self).spec_frame_count(),
            final(self).spec_last_frame_time() == old(self).spec_last_frame_time(),
            match due_progress(
                old(self).spec_start_time(),
                old(self).spec_last_progress_secs(),
                now,
            ) {
                Some(secs) => final(self).spec_last_progress_secs() == secs && report == Some(
                    CaptureResult::Progress {
                        elapsed_secs: secs,
                        frame_count: old(self).spec_frame_count() as usize,
                    },
                ),
                None => final(self).spec_last_progress_secs() == old(self).spec_last_progress_secs() && report.is_none(),
            },
    {
        let started: Option<u64> = match &self.session {
            Some(s) => Some(s.start_time),
            None => None,
        };
        match started {
            Some(start) => {
                let secs: u64 = elapsed(start, now) / NANOS_PER_SEC;
                if secs > self.last_progress_secs {
                    self.last_progress_secs = secs;
                    let frame_count: usize = self.frame_count();
                    Some(CaptureResult::Progress { elapsed_secs: secs, frame_count })
                } else {
                    None
                }
            },
            None => None,
        }
    }
}

/// The whole seconds to report at `now`, if a report is due: a session
/// started at `start`, and more whole seconds have passed than were reported.
pub open spec fn due_progress(start: Option<u64>, reported: u64, now: u64) -> Option<u64> {
    match start {
        Some(t) => {
            let secs = (spec_elapsed(t, now) / NANOS_PER_SEC) as u64;
            if secs > reported {
                Some(secs)
            } else {
                None
            }
        },
        None => None,
    }
}

impl Default for CaptureWorker {
    fn default() -> (w: CaptureWorker)
        ensures
            w.spec_idle(),
    {
        CaptureWorker::new()
    }
}

/// What a stop reports where no session runs: zero frames in zero time.
pub open spec fn idle_stop_report() -> WorkerAction {
    WorkerAction::Report(CaptureResult::Stopped { frame_count: 0, duration_nanos: 0 })
}

} // verus!
