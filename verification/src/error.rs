//! The errors that end supervision.

use vstd::prelude::*;
use crate::remote::{CallError, RemoteMethod};
use crate::text::{decimal_digits, push_decimal, push_signed, signed_digits};

verus! {

/// The player did not answer the liveness probe in time.
#[derive(Clone, Copy, Debug, PartialEq, Eq, Structural)]
pub struct TimeoutError {
    /// The bound that was exceeded, in milliseconds.
    pub timeout_ms: u64,
}

/// The player process could not be terminated or awaited.
#[derive(Clone, Copy, Debug, PartialEq, Eq, Structural)]
pub struct IoError {
    /// The error code of the operating system, where it gave one.
    pub os_code: Option<i32>,
}

/// The player process could not be launched.
#[derive(Clone, Copy, Debug, PartialEq, Eq, Structural)]
pub struct SpawnError {
    /// The error code of the operating system, where it gave one.
    pub os_code: Option<i32>,
}

/// A failure that the supervisor does not recover from.
#[derive(Clone, Copy, Debug, PartialEq, Eq, Structural)]
pub enum SupervisorError {
    /// The session with the bus could not be established.
    Session,
    /// The running player could not be retired.
    Kill(IoError),
    /// The player could not be launched.
    Spawn(SpawnError),
    /// The launched player did not become ready in time.
    NotReady(TimeoutError),
    /// A playback command failed.
    Call(RemoteMethod, CallError),
}

/// The note on the error code of the operating system that follows a
/// message: empty where there is no code.
pub open spec fn os_note(os_code: Option<i32>) -> Seq<char> {
    match os_code {
        Some(code) => " (os error "@ + signed_digits(code as int) + ")"@,
        None => Seq::empty(),
    }
}

/// The words for the way in which a remote call failed.
pub open spec fn call_failure(error: CallError) -> Seq<char> {
    match error {
        CallError::Unreachable => "the player cannot be reached"@,
        CallError::Remote => "the player reported an error"@,
    }
}

impl SupervisorError {
    /// The message for the error: it names the operation that failed, and
    /// for a wait that timed out the bound in milliseconds.
    pub open spec fn message(self) -> Seq<char> {
        match self {
            SupervisorError::Session => "could not open a session on the bus"@,
            SupervisorError::Kill(e) => "could not stop the player"@ + os_note(e.os_code),
            SupervisorError::Spawn(e) => "could not start the player"@ + os_note(e.os_code),
            SupervisorError::NotReady(e) => "the player was not ready within "@ + decimal_digits(
                e.timeout_ms as nat,
            ) + " ms"@,
            SupervisorError::Call(method, e) => "the call of "@ + method.member_name()
                + " failed: "@ + call_failure(e),
        }
    }

    /// Describes the error for the user.
    pub fn describe(&self) -> (text: String)
        ensures
            text@ == self.message(),
    {
        match self {
            SupervisorError::Session => "could not open a session on the bus".to_owned(),
            SupervisorError::Kill(e) => {
                let mut text = "could not stop the player".to_owned();
                push_os_note(&mut text, e.os_code);
                text
            },
            SupervisorError::Spawn(e) => {
                let mut text = "could not start the player".to_owned();
                push_os_note(&mut text, e.os_code);
                text
            },
            SupervisorError::NotReady(e) => {
                let mut text = "the player was not ready within ".to_owned();
                push_decimal(&mut text, e.timeout_ms);
                text.append(" ms");
                text
            },
            SupervisorError::Call(method, e) => {
                let mut text = "the call of ".to_owned();
                text.append(method.member());
                text.append(" failed: ");
                match e {
                    CallError::Unreachable => text.append("the player cannot be reached"),
                    CallError::Remote => text.append("the player reported an error"),
                }
                text
            },
        }
    }
}

fn push_os_note(out: &mut String, os_code: Option<i32>)
    ensures
        final(out)@ == old(out)@ + os_note(os_code),
{
    match os_code {
        Some(code) => {
            out.append(" (os error ");
            push_signed(out, code);
            out.append(")");
            assert(out@ =~= old(out)@ + os_note(os_code));
        },
        None => {
            assert(out@ =~= old(out)@ + os_note(os_code));
        },
    }
}

} // verus!
