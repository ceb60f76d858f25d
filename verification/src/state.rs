//! The session state machine: which operations are legal in which state, and
//! the one recording session that the machine owns.

use crate::geometry::Rect;
use crate::text::{frame_path, frame_path_list, frame_path_string, frame_paths, views};
use vstd::prelude::*;
use vstd::string::*;

verus! {

/// Application state.
#[derive(Debug, Clone, Copy, PartialEq, Eq, Structural)]
pub enum AppState {
    /// Ready to record.
    Idle,
    /// Selecting a region or a window.
    Selecting,
    /// Recording in progress.
    Recording,
    /// Recording finished, ready to export.
    Recorded,
    /// Exporting in progress.
    Exporting,
}

impl AppState {
    /// The text shown for a state.
    pub open spec fn spec_display_text(&self) -> Seq<char> {
        match self {
            AppState::Idle => "就绪"@,
            AppState::Selecting => "选择区域..."@,
            AppState::Recording => "录制中..."@,
            AppState::Recorded => "录制完成"@,
            AppState::Exporting => "导出中..."@,
        }
    }

    /// A selection may begin: the machine is idle or holds a finished recording.
    pub open spec fn spec_can_record(&self) -> bool {
        *self == AppState::Idle || *self == AppState::Recorded
    }

    /// A recording is running.
    pub open spec fn spec_can_stop(&self) -> bool {
        *self == AppState::Recording
    }

    /// A finished recording waits for export.
    pub open spec fn spec_can_export(&self) -> bool {
        *self == AppState::Recorded
    }

    /// A session belongs to the state: recording, recorded or exporting.
    pub open spec fn holds_session(&self) -> bool {
        *self == AppState::Recording || *self == AppState::Recorded || *self == AppState::Exporting
    }

    /// The text shown for the state.
    pub fn display_text(&self) -> (text: &'static str)
        ensures
            text@ == self.spec_display_text(),
    {
        match self {
            AppState::Idle => "就绪",
            AppState::Selecting => "选择区域...",
            AppState::Recording => "录制中...",
            AppState::Recorded => "录制完成",
            AppState::Exporting => "导出中...",
        }
    }

    /// Whether the record action is enabled.
    pub fn can_record(&self) -> (r: bool)
        ensures
            r == self.spec_can_record(),
    {
        matches!(self, AppState::Idle | AppState::Recorded)
    }

    /// Whether the stop action is enabled.
    pub fn can_stop(&self) -> (r: bool)
        ensures
            r == self.spec_can_stop(),
    {
        matches!(self, AppState::Recording)
    }

    /// Whether the export action is enabled.
    pub fn can_export(&self) -> (r: bool)
        ensures
            r == self.spec_can_export(),
    {
        matches!(self, AppState::Recorded)
    }
}

/// What a recording captures.
#[derive(Debug, Clone, Copy, PartialEq, Eq, Structural)]
pub enum RecordingTarget {
    /// A region of a monitor, in screen coordinates.
    Monitor { hmonitor: isize, region: Rect },
    /// A window.
    Window { hwnd: isize },
}

/// The data of one recording attempt. Durations are whole nanoseconds.
#[derive(Debug, Clone)]
pub struct RecordingSession {
    /// What is captured.
    pub target: RecordingTarget,
    /// The captured region, in screen coordinates.
    pub region: Rect,
    /// The directory that holds the session's frames.
    pub temp_dir: String,
    /// How many frames were captured.
    pub frame_count: usize,
    /// How long the recording ran, in nanoseconds.
    pub duration_nanos: u64,
    /// The frame rate asked for.
    pub fps: u8,
}

impl RecordingSession {
    /// A session that has captured nothing yet.
    pub fn new(target: RecordingTarget, region: Rect, temp_dir: String, fps: u8) -> (s:
        RecordingSession)
        ensures
            s == (RecordingSession {
                target,
                region,
                temp_dir,
                frame_count: 0,
                duration_nanos: 0,
                fps,
            }),
    {
        RecordingSession { target, region, temp_dir, frame_count: 0, duration_nanos: 0, fps }
    }

    /// The path of the frame with the given index.
    pub fn frame_path(&self, index: usize) -> (path: String)
        ensures
            path@ == frame_path(self.temp_dir@, index as nat),
    {
        frame_path_string(self.temp_dir.as_str(), index)
    }

    /// The paths of all frames of the session, in index order.
    pub fn all_frame_paths(&self) -> (paths: Vec<String>)
        ensures
            views(paths@) == frame_path_list(self.temp_dir@, self.frame_count as nat),
            paths.len() == self.frame_count,
            forall|i: int|
                0 <= i < paths.len() ==> (#[trigger] paths[i])@ == frame_path(
                    self.temp_dir@,
                    i as nat,
                ),
    {
        frame_paths(self.temp_dir.as_str(), self.frame_count)
    }
}

/// An operation of the state machine.
pub enum Transition {
    StartSelecting,
    StartRecording(RecordingSession),
    CancelSelecting,
    StopRecording,
    StartExporting,
    FinishExporting,
    CancelExporting,
    Reset,
}

/// Whether the operation is legal in the state.
pub open spec fn legal(state: AppState, t: Transition) -> bool {
    match t {
        Transition::StartSelecting => state == AppState::Idle || state == AppState::Recorded,
        Transition::StartRecording(_) => state == AppState::Selecting,
        Transition::CancelSelecting => state == AppState::Selecting,
        Transition::StopRecording => state == AppState::Recording,
        Transition::StartExporting => state == AppState::Recorded,
        Transition::FinishExporting => state == AppState::Exporting,
        Transition::CancelExporting => state == AppState::Exporting,
        Transition::Reset => true,
    }
}

/// The state that a legal operation leads to.
pub open spec fn target_state(t: Transition) -> AppState {
    match t {
        Transition::StartSelecting => AppState::Selecting,
        Transition::StartRecording(_) => AppState::Recording,
        Transition::CancelSelecting => AppState::Idle,
        Transition::StopRecording => AppState::Recorded,
        Transition::StartExporting => AppState::Exporting,
        Transition::FinishExporting => AppState::Idle,
        Transition::CancelExporting => AppState::Recorded,
        Transition::Reset => AppState::Idle,
    }
}

/// The session that the machine holds after a legal operation.
pub open spec fn target_session(session: Option<RecordingSession>, t: Transition) -> Option<
    RecordingSession,
> {
    match t {
        Transition::StartSelecting => None,
        Transition::StartRecording(s) => Some(s),
        Transition::CancelSelecting => None,
        Transition::StopRecording => session,
        Transition::StartExporting => session,
        Transition::FinishExporting => None,
        Transition::CancelExporting => session,
        Transition::Reset => None,
    }
}

/// The state after an operation: an illegal one changes nothing.
pub open spec fn next_state(state: AppState, t: Transition) -> AppState {
    if legal(state, t) {
        target_state(t)
    } else {
        state
    }
}

/// The session after an operation: an illegal one changes nothing.
pub open spec fn next_session(
    state: AppState,
    session: Option<RecordingSession>,
    t: Transition,
) -> Option<RecordingSession> {
    if legal(state, t) {
        target_session(session, t)
    } else {
        session
    }
}

/// The state machine. It holds a session exactly while it is recording,
/// recorded or exporting.
pub struct StateMachine {
    state: AppState,
    session: Option<RecordingSession>,
}

impl StateMachine {
    #[verifier::type_invariant]
    spec fn inv(&self) -> bool {
        self.session.is_some() <==> self.state.holds_session()
    }

    /// The current state.
    pub closed spec fn spec_state(&self) -> AppState {
        self.state
    }

    /// The current session.
    pub closed spec fn spec_session(&self) -> Option<RecordingSession> {
        self.session
    }

    /// The machine holds a session exactly if it is recording, recorded or
    /// exporting: never one while idle or selecting.
    pub open spec fn paired(&self) -> bool {
        self.spec_session().is_some() <==> self.spec_state().holds_session()
    }

    /// The machine after an operation, as a relation between two machines.
    pub open spec fn stepped(&self, t: Transition, after: &StateMachine) -> bool {
        &&& after.spec_state() == next_state(self.spec_state(), t)
        &&& after.spec_session() == next_session(self.spec_state(), self.spec_session(), t)
        &&& self.paired()
        &&& after.paired()
    }

    /// An idle machine without a session.
    pub fn new() -> (m: StateMachine)
        ensures
            m.spec_state() == AppState::Idle,
            m.spec_session().is_none(),
            m.paired(),
    {
        StateMachine { state: AppState::Idle, session: None }
    }

    /// The current state.
    pub fn state(&self) -> (s: &AppState)
        ensures
            *s == self.spec_state(),
            self.paired(),
    {
        proof {
            use_type_invariant(self);
        }
        &self.state
    }

    /// The current session.
    pub fn session(&self) -> (s: Option<&RecordingSession>)
        ensures
            s.is_some() == self.spec_session().is_some(),
            s.is_some() ==> *s.unwrap() == self.spec_session().unwrap(),
            s.is_some() <==> self.spec_state().holds_session(),
    {
        proof {
            use_type_invariant(self);
        }
        self.session.as_ref()
    }

    /// Selecting begins, from idle or from a finished recording, whose
    /// session the machine lets go of.
    pub fn start_selecting(&mut self) -> (ok: bool)
        ensures
            ok == legal(old(self).spec_state(), Transition::StartSelecting),
            old(self).stepped(Transition::StartSelecting, final(self)),
    {
        proof {
            use_type_invariant(&*self);
        }
        if self.state.can_record() {
            *self = StateMachine { state: AppState::Selecting, session: None };
            true
        } else {
            false
        }
    }

    /// Recording begins with a new session; only while selecting.
    pub fn start_recording(&mut self, session: RecordingSession) -> (ok: bool)
        ensures
            ok == legal(old(self).spec_state(), Transition::StartRecording(session)),
            ok == (old(self).spec_state() == AppState::Selecting),
            old(self).stepped(Transition::StartRecording(session), final(self)),
    {
        proof {
            use_type_invariant(&*self);
        }
        if matches!(self.state, AppState::Selecting) {
            *self = StateMachine { state: AppState::Recording, session: Some(session) };
            true
        } else {
            false
        }
    }

    /// The selection is given up.
    pub fn cancel_selecting(&mut self) -> (ok: bool)
        ensures
            ok == legal(old(self).spec_state(), Transition::CancelSelecting),
            old(self).stepped(Transition::CancelSelecting, final(self)),
    {
        proof {
            use_type_invariant(&*self);
        }
        if matches!(self.state, AppState::Selecting) {
            self.state = AppState::Idle;
            true
        } else {
            false
        }
    }

    /// The recording stops; its session stays.
    pub fn stop_recording(&mut self) -> (ok: bool)
        ensures
            ok == legal(old(self).spec_state(), Transition::StopRecording),
            old(self).stepped(Transition::StopRecording, final(self)),
    {
        proof {
            use_type_invariant(&*self);
        }
        if self.state.can_stop() {
            self.state = AppState::Recorded;
            true
        } else {
            false
        }
    }

    /// The export begins; the session stays.
    pub fn start_exporting(&mut self) -> (ok: bool)
        ensures
            ok == legal(old(self).spec_state(), Transition::StartExporting),
            old(self).stepped(Transition::StartExporting, final(self)),
    {
        proof {
            use_type_invariant(&*self);
        }
        if self.state.can_export() {
            self.state = AppState::Exporting;
            true
        } else {
            false
        }
    }

    /// The export is done: the machine is idle again and lets go of the session.
    pub fn finish_exporting(&mut self) -> (ok: bool)
        ensures
            ok == legal(old(self).spec_state(), Transition::FinishExporting),
            old(self).stepped(Transition::FinishExporting, final(self)),
    {
        proof {
            use_type_invariant(&*self);
        }
        if matches!(self.state, AppState::Exporting) {
            *self = StateMachine { state: AppState::Idle, session: None };
            true
        } else {
            false
        }
    }

    /// The export failed or was given up: the session stays, so that the
    /// export can be tried again.
    pub fn cancel_exporting(&mut self) -> (ok: bool)
        ensures
            ok == legal(old(self).spec_state(), Transition::CancelExporting),
            old(self).stepped(Transition::CancelExporting, final(self)),
    {
        proof {
            use_type_invariant(&*self);
        }
        if matches!(self.state, AppState::Exporting) {
            self.state = AppState::Recorded;
            true
        } else {
            false
        }
    }

    /// Back to idle from any state, without a session.
    pub fn reset(&mut self)
        ensures
            old(self).stepped(Transition::Reset, final(self)),
            final(self).spec_state() == AppState::Idle,
            final(self).spec_session().is_none(),
    {
        proof {
            use_type_invariant(&*self);
        }
        *self = StateMachine { state: AppState::Idle, session: None };
    }

    /// Writes the result of a recording into the session, if there is one:
    /// the frame count and the duration. The state stays.
    pub fn set_recording_result(&mut self, frame_count: usize, duration_nanos: u64) -> (ok: bool)
        ensures
            ok == old(self).spec_session().is_some(),
            final(self).spec_state() == old(self).spec_state(),
            final(self).paired(),
            !ok ==> final(self).spec_session().is_none(),
            ok ==> final(self).spec_session() == Some(
                RecordingSession {
                    frame_count,
                    duration_nanos,
                    ..old(self).spec_session().unwrap()
                },
            ),
    {
        proof {
            use_type_invariant(&*self);
        }
        let updated: Option<RecordingSession> = match &self.session {
            Some(s) => Some(
                RecordingSession {
                    target: s.target,
                    region: s.region,
                    temp_dir: s.temp_dir.clone(),
                    frame_count,
                    duration_nanos,
                    fps: s.fps,
                },
            ),
            None => None,
        };
        let ok = updated.is_some();
        self.session = updated;
        ok
    }

    /// Carries out one operation and tells whether it was legal.
    pub fn apply(&mut self, t: Transition) -> (ok: bool)
        ensures
            ok == legal(old(self).spec_state(), t),
            old(self).stepped(t, final(self)),
    {
        match t {
            Transition::StartSelecting => self.start_selecting(),
            Transition::StartRecording(s) => self.start_recording(s),
            Transition::CancelSelecting => self.cancel_selecting(),
            Transition::StopRecording => self.stop_recording(),
            Transition::StartExporting => self.start_exporting(),
            Transition::FinishExporting => self.finish_exporting(),
            Transition::CancelExporting => self.cancel_exporting(),
            Transition::Reset => {
                self.reset();
                true
            },
        }
    }
}

impl Default for StateMachine {
    fn default() -> (m: StateMachine)
        ensures
            m.spec_state() == AppState::Idle,
            m.spec_session().is_none(),
            m.paired(),
    {
        StateMachine::new()
    }
}

/// An operation that is not legal in a state leaves state and session as
/// they were, whatever the operation and the state.
pub proof fn lemma_illegal_changes_nothing(
    state: AppState,
    session: Option<RecordingSession>,
    t: Transition,
)
    requires
        !legal(state, t),
    ensures
        next_state(state, t) == state,
        next_session(state, session, t) == session,
{
}

/// A recording starts from the selecting state and from no other.
pub proof fn lemma_recording_starts_only_from_selecting(state: AppState, s: RecordingSession)
    ensures
        legal(state, Transition::StartRecording(s)) <==> state == AppState::Selecting,
        next_state(state, Transition::StartRecording(s)) == AppState::Recording ==> state
            == AppState::Selecting || state == AppState::Recording,
{
}

/// The pairing of states and sessions is kept by every operation: if a
/// session is held exactly in the states that own one, the same is true
/// after the operation.
pub proof fn lemma_step_keeps_pairing(
    state: AppState,
    session: Option<RecordingSession>,
    t: Transition,
)
    requires
        session.is_some() <==> state.holds_session(),
    ensures
        next_session(state, session, t).is_some() <==> next_state(state, t).holds_session(),
{
}

} // verus!
