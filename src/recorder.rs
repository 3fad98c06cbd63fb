use vstd::prelude::*;
use vstd::string::*;

use crate::ipc::IpcCommand;
use crate::error::SttError;
use crate::stt::{too_short, AudioData, TranscriptionResult};
use crate::tray::TrayState;

verus! {

/// The recording lifecycle.
#[derive(Debug, Clone, Copy, PartialEq, Eq, Structural)]
pub enum AppState {
    /// Ready to record.
    Idle,
    /// Capturing audio.
    Recording,
    /// Transcribing a finished recording.
    Processing,
    /// A transcription failed; returns to idle by itself.
    Error,
}

impl AppState {
    /// The icon state that shows this state.
    pub fn to_tray_state(self) -> (r: TrayState)
        ensures
            r == match self {
                AppState::Idle => TrayState::Idle,
                AppState::Recording => TrayState::Recording,
                AppState::Processing => TrayState::Processing,
                AppState::Error => TrayState::Error,
            },
    {
        match self {
            AppState::Idle => TrayState::Idle,
            AppState::Recording => TrayState::Recording,
            AppState::Processing => TrayState::Processing,
            AppState::Error => TrayState::Error,
        }
    }
}

/// What the recorder is, as the contracts see it.
pub struct RecorderModel {
    pub state: AppState,
    /// Samples captured in the current recording.
    pub buffer: Seq<i16>,
    /// Capture sessions (hardware stream plus collecting task) that are live.
    pub live_sessions: nat,
    /// Rate of the captured samples, in Hz.
    pub sample_rate: nat,
    /// Longest allowed recording, in milliseconds.
    pub max_duration_ms: nat,
    /// Whether a transcript is pasted, not only copied.
    pub auto_paste: bool,
}

/// The recorder's invariant: a capture session is live exactly while
/// recording, and the buffer is empty whenever the recorder is not recording
/// (so, in particular, whenever it is idle).
pub open spec fn consistent(m: RecorderModel) -> bool {
    &&& m.live_sessions == (if m.state == AppState::Recording {
        1nat
    } else {
        0nat
    })
    &&& m.state != AppState::Recording ==> m.buffer.len() == 0
}

/// The recorder after a recording ends by stop: the buffer goes to a
/// snapshot, the session is torn down, and the recorder is idle again if
/// the recording was too short to transcribe, processing otherwise.
pub open spec fn stopped(m: RecorderModel) -> RecorderModel {
    RecorderModel {
        state: if too_short(m.buffer.len(), m.sample_rate) {
            AppState::Idle
        } else {
            AppState::Processing
        },
        buffer: Seq::empty(),
        live_sessions: 0,
        ..m
    }
}

/// The recorder after a cancel: idle, no session, nothing kept.
pub open spec fn cancelled(m: RecorderModel) -> RecorderModel {
    RecorderModel { state: AppState::Idle, buffer: Seq::empty(), live_sessions: 0, ..m }
}

/// The recorder after a command. `Start` changes nothing by itself: the
/// session opens once the capture has started (see `started`).
pub open spec fn after_command(m: RecorderModel, cmd: IpcCommand) -> RecorderModel {
    match cmd {
        IpcCommand::Toggle | IpcCommand::Stop => if m.state == AppState::Recording {
            stopped(m)
        } else {
            m
        },
        IpcCommand::Cancel => if m.state == AppState::Idle || m.state == AppState::Recording {
            cancelled(m)
        } else {
            m
        },
        _ => m,
    }
}

/// The recorder once a capture has started: recording into an empty buffer
/// with one live session. Only an idle recorder starts one.
pub open spec fn started(m: RecorderModel) -> RecorderModel {
    if m.state == AppState::Idle {
        RecorderModel { state: AppState::Recording, buffer: Seq::empty(), live_sessions: 1, ..m }
    } else {
        m
    }
}

/// The recorder after a chunk of captured samples arrives: kept only while
/// recording.
pub open spec fn with_chunk(m: RecorderModel, chunk: Seq<i16>) -> RecorderModel {
    if m.state == AppState::Recording {
        RecorderModel { buffer: m.buffer + chunk, ..m }
    } else {
        m
    }
}

/// Whether a recording that has run `elapsed_ms` has passed the cap.
pub open spec fn over_cap(m: RecorderModel, elapsed_ms: nat) -> bool {
    m.state == AppState::Recording && elapsed_ms > m.max_duration_ms
}

/// The recorder after the clock is read: past the cap, a recording stops as
/// if by command.
pub open spec fn after_tick(m: RecorderModel, elapsed_ms: nat) -> RecorderModel {
    if over_cap(m, elapsed_ms) {
        stopped(m)
    } else {
        m
    }
}

/// The recorder once a transcription has ended: idle on success, in the
/// error state on failure.
pub open spec fn finished(m: RecorderModel, succeeded: bool) -> RecorderModel {
    if m.state == AppState::Processing {
        RecorderModel {
            state: if succeeded {
                AppState::Idle
            } else {
                AppState::Error
            },
            ..m
        }
    } else {
        m
    }
}

/// The recorder once the error delay has passed: idle again.
pub open spec fn recovered(m: RecorderModel) -> RecorderModel {
    if m.state == AppState::Error {
        RecorderModel { state: AppState::Idle, ..m }
    } else {
        m
    }
}

/// Everything that moves the recorder.
pub enum Event {
    Command(IpcCommand),
    Started,
    Chunk(Seq<i16>),
    Tick(nat),
    Finished(bool),
    Recovered,
}

pub open spec fn next(m: RecorderModel, e: Event) -> RecorderModel {
    match e {
        Event::Command(cmd) => after_command(m, cmd),
        Event::Started => started(m),
        Event::Chunk(c) => with_chunk(m, c),
        Event::Tick(t) => after_tick(m, t),
        Event::Finished(ok) => finished(m, ok),
        Event::Recovered => recovered(m),
    }
}

/// The recorder after a run of events, in order.
pub open spec fn run(m: RecorderModel, events: Seq<Event>) -> RecorderModel
    decreases events.len(),
{
    if events.len() == 0 {
        m
    } else {
        run(next(m, events[0]), events.subrange(1, events.len() as int))
    }
}

/// What the caller must do after a command or a clock reading.
#[derive(Debug, Clone, PartialEq, Eq)]
pub enum Action {
    Nothing,
    /// Drop any lingering collecting task, open the capture stream and start
    /// collecting; then report `capture_started`.
    StartCapture,
    /// Stop the stream, drop it, abort the collecting task; then transcribe
    /// the audio and report `transcription_finished`.
    Transcribe(AudioData),
    /// Stop the stream, drop it, abort the collecting task; the recording was
    /// too short and is dropped.
    Discard,
    /// Stop the stream, drop it, abort the collecting task; the recording is
    /// dropped on request.
    Cancelled,
    /// Report the state.
    Report(AppState),
    Shutdown,
}

/// The action that ends a recording by stop.
pub open spec fn stop_action(m: RecorderModel, a: Action) -> bool {
    if too_short(m.buffer.len(), m.sample_rate) {
        a == Action::Discard
    } else {
        a matches Action::Transcribe(audio) && audio.samples@ == m.buffer && audio.sample_rate
            == m.sample_rate
    }
}

/// The action that a command calls for.
pub open spec fn command_action(m: RecorderModel, cmd: IpcCommand, a: Action) -> bool {
    match cmd {
        IpcCommand::Toggle => if m.state == AppState::Idle {
            a == Action::StartCapture
        } else if m.state == AppState::Recording {
            stop_action(m, a)
        } else {
            a == Action::Nothing
        },
        IpcCommand::Start => if m.state == AppState::Idle {
            a == Action::StartCapture
        } else {
            a == Action::Nothing
        },
        IpcCommand::Stop => if m.state == AppState::Recording {
            stop_action(m, a)
        } else {
            a == Action::Nothing
        },
        IpcCommand::Cancel => if m.state == AppState::Idle || m.state == AppState::Recording {
            a == Action::Cancelled
        } else {
            a == Action::Nothing
        },
        IpcCommand::Status => a == Action::Report(m.state),
        IpcCommand::Shutdown => a == Action::Shutdown,
    }
}

/// Where a transcript goes.
#[derive(Debug, Clone, PartialEq, Eq)]
pub enum Delivery {
    Nothing,
    /// Type it into the focused window (and copy it if that fails).
    Paste(String),
    /// Put it on the clipboard.
    Copy(String),
}

/// The delivery of a transcription's outcome.
pub open spec fn delivery_of(
    auto_paste: bool,
    outcome: Result<TranscriptionResult, SttError>,
    d: Delivery,
) -> bool {
    match outcome {
        Ok(t) => if t.text@.len() == 0 {
            d == Delivery::Nothing
        } else if auto_paste {
            d matches Delivery::Paste(s) && s@ == t.text@
        } else {
            d matches Delivery::Copy(s) && s@ == t.text@
        },
        Err(_) => d == Delivery::Nothing,
    }
}

impl Delivery {
    /// The fallback when pasting failed: copy the same text.
    pub fn after_paste_failure(self) -> (r: Delivery)
        ensures
            match self {
                Delivery::Paste(s) => r matches Delivery::Copy(c) && c@ == s@,
                _ => r == Delivery::Nothing,
            },
    {
        match self {
            Delivery::Paste(s) => Delivery::Copy(s),
            _ => Delivery::Nothing,
        }
    }
}

/// The decisions of the recording orchestrator: the state, the captured
/// samples and the live capture sessions. The caller owns the hardware
/// stream, the collecting task and the provider, performs the actions that
/// the recorder returns, and reports what happened.
pub struct Recorder {
    state: AppState,
    buffer: Vec<i16>,
    live_sessions: usize,
    sample_rate: u32,
    max_duration_ms: u64,
    auto_paste: bool,
}

impl View for Recorder {
    type V = RecorderModel;

    closed spec fn view(&self) -> RecorderModel {
        RecorderModel {
            state: self.state,
            buffer: self.buffer@,
            live_sessions: self.live_sessions as nat,
            sample_rate: self.sample_rate as nat,
            max_duration_ms: self.max_duration_ms as nat,
            auto_paste: self.auto_paste,
        }
    }
}

impl Recorder {
    /// An idle recorder for samples at `sample_rate` Hz and recordings of at
    /// most `max_duration_secs` seconds.
    pub fn new(sample_rate: u32, max_duration_secs: u32, auto_paste: bool) -> (r: Self)
        ensures
            r@.state == AppState::Idle,
            r@.buffer.len() == 0,
            r@.live_sessions == 0,
            r@.sample_rate == sample_rate,
            r@.max_duration_ms == max_duration_secs * 1000,
            r@.auto_paste == auto_paste,
            consistent(r@),
    {
        Recorder {
            state: AppState::Idle,
            buffer: Vec::new(),
            live_sessions: 0,
            sample_rate,
            max_duration_ms: max_duration_secs as u64 * 1000,
            auto_paste,
        }
    }

    pub fn state(&self) -> (r: AppState)
        ensures
            r == self@.state,
    {
        self.state
    }

    /// Number of samples captured so far in this recording.
    pub fn buffered(&self) -> (r: usize)
        ensures
            r == self@.buffer.len(),
    {
        self.buffer.len()
    }

    /// Number of live capture sessions.
    pub fn live_sessions(&self) -> (r: usize)
        ensures
            r == self@.live_sessions,
    {
        self.live_sessions
    }

    /// Ends the recording: hands the buffer over and decides whether it is
    /// worth transcribing.
    fn stop(&mut self) -> (r: Action)
        requires
            old(self)@.state == AppState::Recording,
        ensures
            final(self)@ == stopped(old(self)@),
            stop_action(old(self)@, r),
    {
        let mut samples: Vec<i16> = Vec::new();
        std::mem::swap(&mut self.buffer, &mut samples);
        self.live_sessions = 0;
        let audio = AudioData::new(samples, self.sample_rate);
        if audio.is_empty() {
            self.state = AppState::Idle;
            Action::Discard
        } else {
            self.state = AppState::Processing;
            Action::Transcribe(audio)
        }
    }

    /// Decides what a command does. Commands that do not fit the state are
    /// ignored.
    pub fn command(&mut self, cmd: IpcCommand) -> (r: Action)
        requires
            consistent(old(self)@),
        ensures
            final(self)@ == after_command(old(self)@, cmd),
            command_action(old(self)@, cmd, r),
            consistent(final(self)@),
    {
        match cmd {
            IpcCommand::Toggle => match self.state {
                AppState::Idle => Action::StartCapture,
                AppState::Recording => self.stop(),
                _ => Action::Nothing,
            },
            IpcCommand::Start => match self.state {
                AppState::Idle => Action::StartCapture,
                _ => Action::Nothing,
            },
            IpcCommand::Stop => match self.state {
                AppState::Recording => self.stop(),
                _ => Action::Nothing,
            },
            IpcCommand::Cancel => match self.state {
                AppState::Idle | AppState::Recording => {
                    self.state = AppState::Idle;
                    self.live_sessions = 0;
                    self.buffer.clear();
                    Action::Cancelled
                },
                _ => Action::Nothing,
            },
            IpcCommand::Status => Action::Report(self.state),
            IpcCommand::Shutdown => Action::Shutdown,
        }
    }

    /// Records that the capture stream is open and collecting: the recorder
    /// is recording into an empty buffer. Returns false, changing nothing,
    /// where the recorder was not idle; the caller then drops the stream.
    pub fn capture_started(&mut self) -> (r: bool)
        requires
            consistent(old(self)@),
        ensures
            final(self)@ == started(old(self)@),
            r == (old(self)@.state == AppState::Idle),
            consistent(final(self)@),
    {
        if self.state == AppState::Idle {
            self.buffer.clear();
            self.state = AppState::Recording;
            self.live_sessions = 1;
            true
        } else {
            false
        }
    }

    /// Adds a chunk of captured samples to the buffer while recording. A
    /// chunk that arrives after the recording ended is dropped.
    pub fn push_chunk(&mut self, chunk: Vec<i16>)
        requires
            consistent(old(self)@),
            old(self)@.buffer.len() + chunk@.len() <= usize::MAX,
        ensures
            final(self)@ == with_chunk(old(self)@, chunk@),
            consistent(final(self)@),
    {
        if self.state == AppState::Recording {
            let mut c = chunk;
            self.buffer.append(&mut c);
        }
    }

    /// Reads the clock: a recording that has run longer than the cap stops
    /// as if by command.
    pub fn tick(&mut self, elapsed_ms: u64) -> (r: Action)
        requires
            consistent(old(self)@),
        ensures
            final(self)@ == after_tick(old(self)@, elapsed_ms as nat),
            if over_cap(old(self)@, elapsed_ms as nat) {
                stop_action(old(self)@, r)
            } else {
                r == Action::Nothing
            },
            consistent(final(self)@),
    {
        if self.state == AppState::Recording && elapsed_ms > self.max_duration_ms {
            self.stop()
        } else {
            Action::Nothing
        }
    }

    /// Records how a transcription ended and says where its text goes.
    pub fn transcription_finished(&mut self, outcome: Result<TranscriptionResult, SttError>) -> (r:
        Delivery)
        requires
            consistent(old(self)@),
        ensures
            final(self)@ == finished(old(self)@, outcome is Ok),
            old(self)@.state == AppState::Processing ==> delivery_of(
                old(self)@.auto_paste,
                outcome,
                r,
            ),
            old(self)@.state != AppState::Processing ==> r == Delivery::Nothing,
            consistent(final(self)@),
    {
        if self.state != AppState::Processing {
            return Delivery::Nothing;
        }
        match outcome {
            Ok(t) => {
                self.state = AppState::Idle;
                if t.text.unicode_len() == 0 {
                    Delivery::Nothing
                } else if self.auto_paste {
                    Delivery::Paste(t.text)
                } else {
                    Delivery::Copy(t.text)
                }
            },
            Err(_) => {
                self.state = AppState::Error;
                Delivery::Nothing
            },
        }
    }

    /// Returns to idle once the error has been shown for its delay.
    pub fn recover(&mut self)
        requires
            consistent(old(self)@),
        ensures
            final(self)@ == recovered(old(self)@),
            consistent(final(self)@),
    {
        if self.state == AppState::Error {
            self.state = AppState::Idle;
        }
    }
}

/// Whether the collecting task keeps reading samples: only while the
/// recorder is recording and the cap has not passed.
pub fn keep_collecting(state: AppState, elapsed_ms: u64, max_duration_ms: u64) -> (r: bool)
    ensures
        r == (state == AppState::Recording && elapsed_ms <= max_duration_ms),
{
    state == AppState::Recording && elapsed_ms <= max_duration_ms
}

/// Every event keeps the recorder's invariant.
pub proof fn lemma_next_consistent(m: RecorderModel, e: Event)
    requires
        consistent(m),
    ensures
        consistent(next(m, e)),
{
}

/// Whatever commands and events arrive, and in whatever order (so also after
/// any number of start, stop and cancel cycles), the invariant holds
/// afterwards: at most one capture session is live, none while the recorder
/// is not recording, and none is left behind once it is idle.
pub proof fn lemma_sessions_never_leak(m: RecorderModel, events: Seq<Event>)
    requires
        consistent(m),
    ensures
        consistent(run(m, events)),
        run(m, events).live_sessions <= 1,
        run(m, events).state != AppState::Recording ==> run(m, events).live_sessions == 0,
    decreases events.len(),
{
    if events.len() > 0 {
        lemma_next_consistent(m, events[0]);
        lemma_sessions_never_leak(next(m, events[0]), events.subrange(1, events.len() as int));
    }
}

/// Start on an idle recorder asks for exactly one capture, which opens one
/// session; a second start while recording does nothing and opens no
/// second session.
pub proof fn lemma_start_once(m: RecorderModel)
    requires
        consistent(m),
        m.state == AppState::Idle,
    ensures
        command_action(m, IpcCommand::Start, Action::StartCapture),
        after_command(m, IpcCommand::Start) == m,
        started(m).state == AppState::Recording,
        started(m).live_sessions == 1,
        command_action(started(m), IpcCommand::Start, Action::Nothing),
        after_command(started(m), IpcCommand::Start) == started(m),
        started(started(m)) == started(m),
{
}

/// Cancel while recording returns to idle with an empty buffer and no live
/// session, whatever the buffer held.
pub proof fn lemma_cancel_discards(m: RecorderModel)
    requires
        consistent(m),
        m.state == AppState::Recording,
    ensures
        command_action(m, IpcCommand::Cancel, Action::Cancelled),
        after_command(m, IpcCommand::Cancel).state == AppState::Idle,
        after_command(m, IpcCommand::Cancel).buffer.len() == 0,
        after_command(m, IpcCommand::Cancel).live_sessions == 0,
{
}

/// Stop on a recording that is empty or shorter than 100 ms goes straight
/// back to idle, and the only action it allows is to drop the recording: no
/// transcription is asked for.
pub proof fn lemma_short_stop_skips_provider(m: RecorderModel, a: Action)
    requires
        consistent(m),
        m.state == AppState::Recording,
        too_short(m.buffer.len(), m.sample_rate),
    ensures
        after_command(m, IpcCommand::Stop).state == AppState::Idle,
        command_action(m, IpcCommand::Stop, a) <==> a == Action::Discard,
{
}

/// Stop on a recording of 100 ms or more moves to processing and asks for
/// the buffer to be transcribed; success then returns to idle, failure moves
/// to the error state, and the error state always returns to idle.
pub proof fn lemma_stop_outcomes(m: RecorderModel)
    requires
        consistent(m),
        m.state == AppState::Recording,
        !too_short(m.buffer.len(), m.sample_rate),
    ensures
        after_command(m, IpcCommand::Stop).state == AppState::Processing,
        forall|a: Action|
            #![trigger command_action(m, IpcCommand::Stop, a)]
            command_action(m, IpcCommand::Stop, a) ==> (a matches Action::Transcribe(audio)
                && audio.samples@ == m.buffer),
        finished(after_command(m, IpcCommand::Stop), true).state == AppState::Idle,
        finished(after_command(m, IpcCommand::Stop), false).state == AppState::Error,
        recovered(finished(after_command(m, IpcCommand::Stop), false)).state == AppState::Idle,
{
}

/// The error state is never final: recovery always leads back to idle.
pub proof fn lemma_error_recovers(m: RecorderModel)
    requires
        m.state == AppState::Error,
    ensures
        recovered(m).state == AppState::Idle,
{
}

/// Past the duration cap a recording stops exactly as a stop command would
/// stop it.
pub proof fn lemma_cap_stops(m: RecorderModel, elapsed_ms: nat)
    requires
        m.state == AppState::Recording,
        elapsed_ms > m.max_duration_ms,
    ensures
        after_tick(m, elapsed_ms) == after_command(m, IpcCommand::Stop),
{
}

} // verus!
