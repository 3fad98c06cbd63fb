use vstd::prelude::*;

use crate::text::{same_text, trim_text, trimmed};

verus! {

/// Commands that reach the daemon over its local socket.
#[derive(Debug, Clone, Copy, PartialEq, Eq, Structural)]
pub enum IpcCommand {
    /// Start recording when idle, stop and transcribe when recording.
    Toggle,
    Start,
    /// Stop recording and transcribe.
    Stop,
    /// Drop the current recording.
    Cancel,
    /// Report the current state.
    Status,
    Shutdown,
}

/// What `str::to_lowercase` returns on a string: its Unicode lower case.
pub uninterp spec fn lowercased(s: Seq<char>) -> Seq<char>;

/// Relies on `str::to_lowercase`: the lower-case form of the string.
#[verifier::external_body]
fn lowercase_text(s: &str) -> (r: String)
    ensures
        r@ == lowercased(s@),
{
    s.to_lowercase()
}

/// The command that a normalised (trimmed, lower-case) word names.
pub open spec fn command_of(w: Seq<char>) -> Option<IpcCommand> {
    if w == "toggle"@ {
        Some(IpcCommand::Toggle)
    } else if w == "start"@ {
        Some(IpcCommand::Start)
    } else if w == "stop"@ {
        Some(IpcCommand::Stop)
    } else if w == "cancel"@ {
        Some(IpcCommand::Cancel)
    } else if w == "status"@ {
        Some(IpcCommand::Status)
    } else if w == "shutdown"@ || w == "quit"@ || w == "exit"@ {
        Some(IpcCommand::Shutdown)
    } else {
        None
    }
}

/// The word that names a command on the socket.
pub open spec fn word_of(c: IpcCommand) -> Seq<char> {
    match c {
        IpcCommand::Toggle => "toggle"@,
        IpcCommand::Start => "start"@,
        IpcCommand::Stop => "stop"@,
        IpcCommand::Cancel => "cancel"@,
        IpcCommand::Status => "status"@,
        IpcCommand::Shutdown => "shutdown"@,
    }
}

/// A command's word reads back as the same command.
pub proof fn lemma_word_round_trip(c: IpcCommand)
    ensures
        command_of(word_of(c)) == Some(c),
{
    reveal_strlit("toggle");
    reveal_strlit("start");
    reveal_strlit("stop");
    reveal_strlit("cancel");
    reveal_strlit("status");
    reveal_strlit("shutdown");
    let w = word_of(c);
    if c != IpcCommand::Toggle {
        assert(w != "toggle"@ ) by {
            assert(w.len() != 6 || w[1] != 'o');
        }
    }
    if c != IpcCommand::Start {
        assert(w != "start"@) by {
            assert(w.len() != 5 || w[2] != 'a');
        }
    }
    if c != IpcCommand::Stop {
        assert(w != "stop"@) by {
            assert(w.len() != 4);
        }
    }
    if c != IpcCommand::Cancel {
        assert(w != "cancel"@) by {
            assert(w.len() != 6 || w[0] != 'c');
        }
    }
    if c != IpcCommand::Status {
        assert(w != "status"@) by {
            assert(w.len() != 6 || w[1] != 't');
        }
    }
}

impl IpcCommand {
    /// Reads a command from one line of input: surrounding white space and
    /// letter case do not matter; `quit` and `exit` also mean shutdown.
    pub fn from_str(s: &str) -> (r: Option<Self>)
        ensures
            r == command_of(lowercased(trimmed(s@))),
    {
        let t = trim_text(s);
        let w = lowercase_text(t);
        IpcCommand::from_word(w.as_str())
    }

    /// The word that names the command on the socket.
    pub fn word(self) -> (r: &'static str)
        ensures
            r@ == word_of(self),
    {
        match self {
            IpcCommand::Toggle => "toggle",
            IpcCommand::Start => "start",
            IpcCommand::Stop => "stop",
            IpcCommand::Cancel => "cancel",
            IpcCommand::Status => "status",
            IpcCommand::Shutdown => "shutdown",
        }
    }

    /// The command that an already trimmed, lower-case word names.
    pub fn from_word(w: &str) -> (r: Option<Self>)
        ensures
            r == command_of(w@),
    {
        if same_text(w, "toggle") {
            Some(IpcCommand::Toggle)
        } else if same_text(w, "start") {
            Some(IpcCommand::Start)
        } else if same_text(w, "stop") {
            Some(IpcCommand::Stop)
        } else if same_text(w, "cancel") {
            Some(IpcCommand::Cancel)
        } else if same_text(w, "status") {
            Some(IpcCommand::Status)
        } else if same_text(w, "shutdown") || same_text(w, "quit") || same_text(w, "exit") {
            Some(IpcCommand::Shutdown)
        } else {
            None
        }
    }
}

/// The reply line that the server writes for one received line: `OK` when a
/// command was read and queued, an error otherwise.
pub fn reply_for(command: Option<IpcCommand>, queued: bool) -> (r: &'static str)
    ensures
        r@ == match command {
            None => "ERROR: Unknown command\n"@,
            Some(_) => if queued {
                "OK\n"@
            } else {
                "ERROR: Channel closed\n"@
            },
        },
{
    match command {
        None => "ERROR: Unknown command\n",
        Some(_) => if queued {
            "OK\n"
        } else {
            "ERROR: Channel closed\n"
        },
    }
}

/// The server end of the command socket.
#[derive(Debug, Clone, PartialEq, Eq)]
pub struct IpcServer {
    pub socket_path: String,
}

impl IpcServer {
    pub fn new(socket_path: String) -> (r: Self)
        ensures
            r.socket_path@ == socket_path@,
    {
        IpcServer { socket_path }
    }
}

/// The client end of the command socket.
#[derive(Debug, Clone, PartialEq, Eq)]
pub struct IpcClient {
    pub socket_path: String,
}

impl IpcClient {
    pub fn new(socket_path: String) -> (r: Self)
        ensures
            r.socket_path@ == socket_path@,
    {
        IpcClient { socket_path }
    }
}

} // verus!
