use vstd::prelude::*;

verus! {

/// Audio capture and processing errors.
#[derive(Debug, Clone, PartialEq, Eq)]
pub enum AudioError {
    NoInputDevice,
    DeviceError(String),
    ConfigError(String),
    StreamError(String),
    CaptureError(String),
    ResampleError(String),
    WavError(String),
}

/// Speech-to-text provider errors.
#[derive(Debug, Clone, PartialEq, Eq)]
pub enum SttError {
    ModelError(String),
    TranscriptionError(String),
    ApiError(String),
    /// A transport failure, with the HTTP client's description of it.
    NetworkError(String),
    InvalidAudio(String),
    ProviderUnavailable(String),
}

/// Configuration errors.
#[derive(Debug, Clone, PartialEq, Eq)]
pub enum ConfigError {
    /// The file could not be read or written; holds the I/O error's text.
    ReadError(String),
    /// The file is not valid configuration; holds the parser's message.
    ParseError(String),
    ValidationError(String),
    MissingField(String),
}

/// Command channel errors.
#[derive(Debug, Clone, PartialEq, Eq)]
pub enum IpcError {
    /// A socket operation failed; holds the I/O error's text.
    SocketError(String),
    SendError(String),
    InvalidCommand(String),
    ConnectionRefused,
}

/// Status icon errors.
#[derive(Debug, Clone, PartialEq, Eq)]
pub enum TrayError {
    CreateError(String),
    DbusError(String),
    IconNotFound(String),
}

/// Clipboard and paste errors.
#[derive(Debug, Clone, PartialEq, Eq)]
pub enum ClipboardError {
    AccessError(String),
    SetError(String),
    PasteError(String),
    WtypeNotFound,
}

/// Any error of the daemon.
#[derive(Debug, Clone, PartialEq, Eq)]
pub enum AppError {
    Config(ConfigError),
    Audio(AudioError),
    Stt(SttError),
    Ipc(IpcError),
    Tray(TrayError),
    Clipboard(ClipboardError),
    /// An I/O failure outside the other categories; holds its text.
    Io(String),
    Other(String),
}

} // verus!
