//! What can go wrong in an exchange, and how it is put into words.

use vstd::prelude::*;
use vstd::string::StringExecFns;

use crate::ssh_protocol::{Response, MAX_MESSAGE_SIZE};
use crate::text::{decimal, decimal_text, wrap};

verus! {

/// How long a new remote may take to answer, in seconds.
pub const CONNECT_TIMEOUT_SECS: u64 = 30;

/// The exchange in which a response came that does not belong to it.
#[derive(Clone, Copy, Debug, PartialEq, Eq, Structural)]
pub enum Exchange {
    Handshake,
    Status,
    Push,
    Fetch,
}

/// What was being done when an error was met.
#[derive(Clone, Copy, Debug, PartialEq, Eq, Structural)]
pub enum Stage {
    LoadKey,
    ConnectSsh,
    StartCommand,
    Handshake,
    BuildRemote,
    Close,
}

/// An error of a session.
#[derive(Debug)]
pub enum SyncError {
    /// A message announces more bytes than are accepted.
    MessageTooLarge { len: usize },
    /// A message has more bytes than may be sent.
    MessageTooLargeToSend { len: usize },
    /// The input ends within a message.
    Truncated,
    /// The remote command has no standard input.
    NoStdin,
    /// The remote command has no standard output.
    NoStdout,
    /// The remote answered that it failed.
    Remote { message: String },
    /// The remote answered something else than was asked.
    UnexpectedResponse { during: Exchange, response: Response },
    /// The remote did not answer in time.
    HandshakeTimeout,
    /// Neither or both of the two ways to reach a remote were given.
    NoTarget,
    /// Something outside the library failed.
    Outside { message: String },
    /// An error, with what was being done when it was met.
    Context { stage: Stage, source: Box<SyncError> },
}

impl Exchange {
    /// The words that stand before the response that was not expected.
    pub open spec fn intro(self) -> Seq<char> {
        match self {
            Exchange::Handshake => "unexpected response during handshake: "@,
            Exchange::Status => "unexpected response to Status: "@,
            Exchange::Push => "unexpected response to Push: "@,
            Exchange::Fetch => "unexpected response to Fetch: "@,
        }
    }
}

impl Stage {
    /// The words for the stage.
    pub open spec fn text(self) -> Seq<char> {
        match self {
            Stage::LoadKey => "could not load encryption key"@,
            Stage::ConnectSsh => "failed to connect over SSH"@,
            Stage::StartCommand => "failed to start sync command"@,
            Stage::Handshake =>
                "remote atuin failed to respond — is atuin installed on the remote?"@,
            Stage::BuildRemote => "failed to build on remote"@,
            Stage::Close => "failed to close session"@,
        }
    }
}

impl SyncError {
    /// What the error says. `shown` is how the program shows the response of an
    /// unexpected one, and matters to no other.
    pub open spec fn text(self, shown: Seq<char>) -> Seq<char> {
        match self {
            SyncError::MessageTooLarge { len } => "ssh-sync message too large: "@
                + decimal_text(len as int) + " bytes (max "@
                + decimal_text(MAX_MESSAGE_SIZE as int) + ")"@,
            SyncError::MessageTooLargeToSend { len } => "ssh-sync message too large to send: "@
                + decimal_text(len as int) + " bytes (max "@
                + decimal_text(MAX_MESSAGE_SIZE as int) + ")"@,
            SyncError::Truncated => "early eof"@,
            SyncError::NoStdin => "failed to open stdin to child process"@,
            SyncError::NoStdout => "failed to open stdout from child process"@,
            SyncError::Remote { message } => "remote error: "@ + message@,
            SyncError::UnexpectedResponse { during, response } => during.intro() + shown,
            SyncError::HandshakeTimeout => "timed out waiting for remote atuin to respond ("@
                + decimal_text(CONNECT_TIMEOUT_SECS as int) + "s)"@,
            SyncError::NoTarget => "provide either a destination or --exec"@,
            SyncError::Outside { message } => message@,
            SyncError::Context { stage, source } => stage.text(),
        }
    }

    /// Puts the error into words. `shown` is how the program shows the response
    /// of an unexpected one, and matters to no other.
    pub fn message(&self, shown: &str) -> (text: String)
        ensures
            text@ == self.text(shown@),
    {
        match self {
            SyncError::MessageTooLarge { len } => size_message("ssh-sync message too large: ", *len),
            SyncError::MessageTooLargeToSend { len } => size_message(
                "ssh-sync message too large to send: ",
                *len,
            ),
            SyncError::Truncated => String::from_str("early eof"),
            SyncError::NoStdin => String::from_str("failed to open stdin to child process"),
            SyncError::NoStdout => String::from_str("failed to open stdout from child process"),
            SyncError::Remote { message } => String::from_str("remote error: ").concat(
                message.as_str(),
            ),
            SyncError::UnexpectedResponse { during, .. } => {
                let intro: &str = match during {
                    Exchange::Handshake => "unexpected response during handshake: ",
                    Exchange::Status => "unexpected response to Status: ",
                    Exchange::Push => "unexpected response to Push: ",
                    Exchange::Fetch => "unexpected response to Fetch: ",
                };
                String::from_str(intro).concat(shown)
            },
            SyncError::HandshakeTimeout => wrap(
                "timed out waiting for remote atuin to respond (",
                decimal(CONNECT_TIMEOUT_SECS).as_str(),
                "s)",
            ),
            SyncError::NoTarget => String::from_str("provide either a destination or --exec"),
            SyncError::Outside { message } => message.clone(),
            SyncError::Context { stage, .. } => String::from_str(
                match stage {
                    Stage::LoadKey => "could not load encryption key",
                    Stage::ConnectSsh => "failed to connect over SSH",
                    Stage::StartCommand => "failed to start sync command",
                    Stage::Handshake =>
                        "remote atuin failed to respond — is atuin installed on the remote?",
                    Stage::BuildRemote => "failed to build on remote",
                    Stage::Close => "failed to close session",
                },
            ),
        }
    }
}

/// A message on a size beyond the limit.
fn size_message(intro: &str, len: usize) -> (text: String)
    ensures
        text@ == intro@ + decimal_text(len as int) + " bytes (max "@
            + decimal_text(MAX_MESSAGE_SIZE as int) + ")"@,
{
    let mut text: String = wrap(intro, decimal(len as u64).as_str(), " bytes (max ");
    text.append(decimal(MAX_MESSAGE_SIZE as u64).as_str());
    text.append(")");
    text
}

} // verus!
