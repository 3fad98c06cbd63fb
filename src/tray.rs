use vstd::prelude::*;

verus! {

/// States that the status icon shows.
#[derive(Debug, Clone, Copy, PartialEq, Eq, Structural)]
pub enum TrayState {
    Idle,
    Recording,
    Processing,
    Error,
}

/// How urgently the status icon asks for attention.
#[derive(Debug, Clone, Copy, PartialEq, Eq, Structural)]
pub enum TrayStatus {
    Passive,
    Active,
    NeedsAttention,
}

/// The one-byte code under which a state is shared between threads.
pub open spec fn code_of(s: TrayState) -> u8 {
    match s {
        TrayState::Idle => 0,
        TrayState::Recording => 1,
        TrayState::Processing => 2,
        TrayState::Error => 3,
    }
}

/// The state that a code stands for; unknown codes read as idle.
pub open spec fn state_of_code(v: u8) -> TrayState {
    if v == 1 {
        TrayState::Recording
    } else if v == 2 {
        TrayState::Processing
    } else if v == 3 {
        TrayState::Error
    } else {
        TrayState::Idle
    }
}

impl From<u8> for TrayState {
    fn from(v: u8) -> (r: TrayState)
        ensures
            r == state_of_code(v),
    {
        match v {
            1 => TrayState::Recording,
            2 => TrayState::Processing,
            3 => TrayState::Error,
            _ => TrayState::Idle,
        }
    }
}

impl vstd::std_specs::convert::FromSpecImpl<u8> for TrayState {
    open spec fn obeys_from_spec() -> bool {
        true
    }

    open spec fn from_spec(v: u8) -> TrayState {
        state_of_code(v)
    }
}

/// A state read back from its code is the same state.
pub proof fn lemma_code_round_trip(s: TrayState)
    ensures
        state_of_code(code_of(s)) == s,
{
}

impl TrayState {
    pub fn code(self) -> (r: u8)
        ensures
            r == code_of(self),
    {
        match self {
            TrayState::Idle => 0,
            TrayState::Recording => 1,
            TrayState::Processing => 2,
            TrayState::Error => 3,
        }
    }

    /// Name of the themed icon for the state.
    pub fn icon_name(&self) -> (r: &'static str)
        ensures
            r@ == match *self {
                TrayState::Idle => "audio-input-microphone"@,
                TrayState::Recording => "media-record"@,
                TrayState::Processing => "system-run"@,
                TrayState::Error => "dialog-error"@,
            },
    {
        match self {
            TrayState::Idle => "audio-input-microphone",
            TrayState::Recording => "media-record",
            TrayState::Processing => "system-run",
            TrayState::Error => "dialog-error",
        }
    }

    pub fn tooltip(&self) -> (r: &'static str)
        ensures
            r@ == match *self {
                TrayState::Idle => "SuperWhisper - Ready"@,
                TrayState::Recording => "SuperWhisper - Recording..."@,
                TrayState::Processing => "SuperWhisper - Processing..."@,
                TrayState::Error => "SuperWhisper - Error"@,
            },
    {
        match self {
            TrayState::Idle => "SuperWhisper - Ready",
            TrayState::Recording => "SuperWhisper - Recording...",
            TrayState::Processing => "SuperWhisper - Processing...",
            TrayState::Error => "SuperWhisper - Error",
        }
    }

    pub fn status(&self) -> (r: TrayStatus)
        ensures
            r == match *self {
                TrayState::Idle => TrayStatus::Passive,
                TrayState::Recording | TrayState::Processing => TrayStatus::Active,
                TrayState::Error => TrayStatus::NeedsAttention,
            },
    {
        match self {
            TrayState::Idle => TrayStatus::Passive,
            TrayState::Recording => TrayStatus::Active,
            TrayState::Processing => TrayStatus::Active,
            TrayState::Error => TrayStatus::NeedsAttention,
        }
    }

    /// Label of the menu entry that toggles recording.
    pub fn toggle_label(&self) -> (r: &'static str)
        ensures
            r@ == match *self {
                TrayState::Idle => "Start Recording"@,
                TrayState::Recording => "Stop Recording"@,
                _ => "Toggle"@,
            },
    {
        match self {
            TrayState::Idle => "Start Recording",
            TrayState::Recording => "Stop Recording",
            _ => "Toggle",
        }
    }

    /// Icon of the menu entry that toggles recording.
    pub fn toggle_icon(&self) -> (r: &'static str)
        ensures
            r@ == match *self {
                TrayState::Recording => "media-playback-stop"@,
                _ => "media-record"@,
            },
    {
        match self {
            TrayState::Recording => "media-playback-stop",
            _ => "media-record",
        }
    }

    /// Cancelling is offered only while recording or processing.
    pub fn cancel_enabled(&self) -> (r: bool)
        ensures
            r == (*self == TrayState::Recording || *self == TrayState::Processing),
    {
        *self == TrayState::Recording || *self == TrayState::Processing
    }
}

} // verus!
