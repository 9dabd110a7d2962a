//! Failures of a terminal pane and how they are reported.
use vstd::prelude::*;
use crate::text::{owned, push_str};

verus! {

/// A failure of a terminal pane. Messages from the system are kept as text.
#[derive(Debug, Clone, PartialEq, Eq)]
pub enum TerminalError {
    PtyOpen { message: String },
    ShellSpawn { shell: String, message: String },
    /// Writing to the PTY failed; holds the system's message.
    PtyWrite(String),
    /// Flushing the PTY failed; holds the system's message.
    PtyFlush(String),
    WriterLockPoisoned,
    ChannelsAlreadyTaken,
    PtyResize { message: String },
    InvalidCwd { path: String, message: String },
    DaemonConnect { message: String },
    DaemonAttach { message: String },
    DaemonProtocol { message: String },
    /// Daemon output was not valid base64; holds the decoder's message.
    Base64Decode(String),
}

/// The message shown for a terminal error.
pub open spec fn terminal_error_text(e: TerminalError) -> Seq<char> {
    match e {
        TerminalError::PtyOpen { message } => "Failed to open PTY: "@ + message@,
        TerminalError::ShellSpawn { shell, message } => "Failed to spawn shell '"@ + shell@ + "': "@ + message@,
        TerminalError::PtyWrite(_) => "PTY write failed"@,
        TerminalError::PtyFlush(_) => "PTY flush failed"@,
        TerminalError::WriterLockPoisoned => "Failed to acquire PTY writer lock: mutex poisoned"@,
        TerminalError::ChannelsAlreadyTaken => "Channels already taken (take_channels called more than once)"@,
        TerminalError::PtyResize { message } => "PTY resize failed: "@ + message@,
        TerminalError::InvalidCwd { path, message } => "Working directory not accessible '"@ + path@ + "': "@ + message@,
        TerminalError::DaemonConnect { message } => "Daemon connection failed: "@ + message@,
        TerminalError::DaemonAttach { message } => "Daemon attach failed: "@ + message@,
        TerminalError::DaemonProtocol { message } => "Daemon protocol error: "@ + message@,
        TerminalError::Base64Decode(_) => "Base64 decode failed"@,
    }
}

fn join2(a: &str, b: &str) -> (r: String)
    ensures
        r@ == a@ + b@,
{
    let mut s = owned(a);
    push_str(&mut s, b);
    s
}

fn join3(a: &str, b: &str, c: &str) -> (r: String)
    ensures
        r@ == a@ + b@ + c@,
{
    let mut s = owned(a);
    push_str(&mut s, b);
    push_str(&mut s, c);
    s
}

impl TerminalError {
    /// The message shown for this error.
    pub fn to_string(&self) -> (r: String)
        ensures
            r@ == terminal_error_text(*self),
    {
        match self {
            TerminalError::PtyOpen { message } => join2("Failed to open PTY: ", message.as_str()),
            TerminalError::ShellSpawn { shell, message } => {
                let mut s = join3("Failed to spawn shell '", shell.as_str(), "': ");
                push_str(&mut s, message.as_str());
                s
            },
            TerminalError::PtyWrite(_) => owned("PTY write failed"),
            TerminalError::PtyFlush(_) => owned("PTY flush failed"),
            TerminalError::WriterLockPoisoned => owned("Failed to acquire PTY writer lock: mutex poisoned"),
            TerminalError::ChannelsAlreadyTaken => owned("Channels already taken (take_channels called more than once)"),
            TerminalError::PtyResize { message } => join2("PTY resize failed: ", message.as_str()),
            TerminalError::InvalidCwd { path, message } => {
                let mut s = join3("Working directory not accessible '", path.as_str(), "': ");
                push_str(&mut s, message.as_str());
                s
            },
            TerminalError::DaemonConnect { message } => join2("Daemon connection failed: ", message.as_str()),
            TerminalError::DaemonAttach { message } => join2("Daemon attach failed: ", message.as_str()),
            TerminalError::DaemonProtocol { message } => join2("Daemon protocol error: ", message.as_str()),
            TerminalError::Base64Decode(_) => owned("Base64 decode failed"),
        }
    }
}

} // verus!
