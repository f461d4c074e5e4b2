//! The player's address on the bus and the methods that are called on it.

use vstd::prelude::*;

verus! {

/// The well-known name under which the player offers media control.
pub const PLAYER_SERVICE: &'static str = "org.mpris.MediaPlayer2.spotify";

/// The path of the player's media-control object.
pub const PLAYER_PATH: &'static str = "/org/mpris/MediaPlayer2";

/// A method of the player that the supervisor calls over the bus. None of
/// them takes an argument, and no reply is read.
#[derive(Clone, Copy, Debug, PartialEq, Eq, Structural)]
pub enum RemoteMethod {
    /// The liveness probe, which does nothing.
    Ping,
    /// Resume playback.
    Play,
    /// Skip to the next track.
    Next,
}

/// Why a remote call failed.
#[derive(Clone, Copy, Debug, PartialEq, Eq, Structural)]
pub enum CallError {
    /// Nobody owns the service name, or the owner cannot be reached.
    Unreachable,
    /// The call reached the service, which reported an error.
    Remote,
}

impl CallError {
    /// The error of a call that failed: where a process owned the player's
    /// name the call reached it and the player reported the error, where
    /// none did the player could not be reached.
    pub fn of_failed_call(service_owned: bool) -> (error: CallError)
        ensures
            error == (if service_owned {
                CallError::Remote
            } else {
                CallError::Unreachable
            }),
    {
        if service_owned {
            CallError::Remote
        } else {
            CallError::Unreachable
        }
    }
}

impl RemoteMethod {
    /// The interface that declares the method.
    pub open spec fn interface_name(self) -> Seq<char> {
        match self {
            RemoteMethod::Ping => "org.freedesktop.DBus.Peer"@,
            RemoteMethod::Play => "org.mpris.MediaPlayer2.Player"@,
            RemoteMethod::Next => "org.mpris.MediaPlayer2.Player"@,
        }
    }

    /// The name of the method within its interface.
    pub open spec fn member_name(self) -> Seq<char> {
        match self {
            RemoteMethod::Ping => "Ping"@,
            RemoteMethod::Play => "Play"@,
            RemoteMethod::Next => "Next"@,
        }
    }

    /// The interface that declares the method.
    pub fn interface(self) -> (name: &'static str)
        ensures
            name@ == self.interface_name(),
    {
        match self {
            RemoteMethod::Ping => "org.freedesktop.DBus.Peer",
            RemoteMethod::Play => "org.mpris.MediaPlayer2.Player",
            RemoteMethod::Next => "org.mpris.MediaPlayer2.Player",
        }
    }

    /// The name of the method within its interface.
    pub fn member(self) -> (name: &'static str)
        ensures
            name@ == self.member_name(),
    {
        match self {
            RemoteMethod::Ping => "Ping",
            RemoteMethod::Play => "Play",
            RemoteMethod::Next => "Next",
        }
    }
}

} // verus!
