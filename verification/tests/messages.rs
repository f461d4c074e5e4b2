use adskip::error::{IoError, SpawnError, SupervisorError, TimeoutError};
use adskip::remote::{CallError, RemoteMethod, PLAYER_PATH, PLAYER_SERVICE};
use adskip::text::decimal;

#[test]
fn decimal_of_small_and_large_numbers() {
    assert_eq!(decimal(0), "0");
    assert_eq!(decimal(7), "7");
    assert_eq!(decimal(10), "10");
    assert_eq!(decimal(2000), "2000");
    assert_eq!(decimal(1234567890), "1234567890");
    assert_eq!(decimal(u64::MAX), "18446744073709551615");
}

#[test]
fn decimal_agrees_with_std() {
    let mut n: u64 = 1;
    for _ in 0..64 {
        assert_eq!(decimal(n), n.to_string());
        assert_eq!(decimal(n - 1), (n - 1).to_string());
        n = n.wrapping_mul(2);
    }
}

#[test]
fn session_message() {
    assert_eq!(SupervisorError::Session.describe(), "could not open a session on the bus");
}

#[test]
fn kill_message() {
    assert_eq!(
        SupervisorError::Kill(IoError { os_code: None }).describe(),
        "could not stop the player"
    );
    assert_eq!(
        SupervisorError::Kill(IoError { os_code: Some(3) }).describe(),
        "could not stop the player (os error 3)"
    );
}

#[test]
fn spawn_message() {
    assert_eq!(
        SupervisorError::Spawn(SpawnError { os_code: None }).describe(),
        "could not start the player"
    );
    assert_eq!(
        SupervisorError::Spawn(SpawnError { os_code: Some(2) }).describe(),
        "could not start the player (os error 2)"
    );
    assert_eq!(
        SupervisorError::Spawn(SpawnError { os_code: Some(-17) }).describe(),
        "could not start the player (os error -17)"
    );
    assert_eq!(
        SupervisorError::Spawn(SpawnError { os_code: Some(i32::MIN) }).describe(),
        "could not start the player (os error -2147483648)"
    );
    assert_eq!(
        SupervisorError::Spawn(SpawnError { os_code: Some(0) }).describe(),
        "could not start the player (os error 0)"
    );
}

#[test]
fn timeout_message_names_the_bound() {
    assert_eq!(
        SupervisorError::NotReady(TimeoutError { timeout_ms: 2000 }).describe(),
        "the player was not ready within 2000 ms"
    );
    assert_eq!(
        SupervisorError::NotReady(TimeoutError { timeout_ms: 5000 }).describe(),
        "the player was not ready within 5000 ms"
    );
    assert_eq!(
        SupervisorError::NotReady(TimeoutError { timeout_ms: 0 }).describe(),
        "the player was not ready within 0 ms"
    );
}

#[test]
fn call_messages() {
    assert_eq!(
        SupervisorError::Call(RemoteMethod::Play, CallError::Unreachable).describe(),
        "the call of Play failed: the player cannot be reached"
    );
    assert_eq!(
        SupervisorError::Call(RemoteMethod::Next, CallError::Remote).describe(),
        "the call of Next failed: the player reported an error"
    );
    assert_eq!(
        SupervisorError::Call(RemoteMethod::Ping, CallError::Remote).describe(),
        "the call of Ping failed: the player reported an error"
    );
}

#[test]
fn remote_names() {
    assert_eq!(RemoteMethod::Ping.interface(), "org.freedesktop.DBus.Peer");
    assert_eq!(RemoteMethod::Ping.member(), "Ping");
    assert_eq!(RemoteMethod::Play.interface(), "org.mpris.MediaPlayer2.Player");
    assert_eq!(RemoteMethod::Play.member(), "Play");
    assert_eq!(RemoteMethod::Next.interface(), "org.mpris.MediaPlayer2.Player");
    assert_eq!(RemoteMethod::Next.member(), "Next");
    assert_eq!(PLAYER_SERVICE, "org.mpris.MediaPlayer2.spotify");
    assert_eq!(PLAYER_PATH, "/org/mpris/MediaPlayer2");
}

#[test]
fn failed_call_is_remote_only_where_the_name_is_owned() {
    assert_eq!(CallError::of_failed_call(true), CallError::Remote);
    assert_eq!(CallError::of_failed_call(false), CallError::Unreachable);
}
