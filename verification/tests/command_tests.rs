use chch_daemon::commands::{ActionWithServer, DaemonCommand};
use chch_daemon::Error;

#[test]
fn from_token_accepts_every_command_token() {
    assert_eq!(
        ActionWithServer::from_token("ping").unwrap(),
        ActionWithServer::Ping
    );
    assert_eq!(
        ActionWithServer::from_token("poll").unwrap(),
        ActionWithServer::Poll
    );
    assert_eq!(
        ActionWithServer::from_token("start").unwrap(),
        ActionWithServer::Start
    );
    assert_eq!(
        ActionWithServer::from_token("resume").unwrap(),
        ActionWithServer::Resume
    );
    assert_eq!(
        ActionWithServer::from_token("pause").unwrap(),
        ActionWithServer::Pause
    );
    assert_eq!(
        ActionWithServer::from_token("exit").unwrap(),
        ActionWithServer::Exit
    );
}

#[test]
fn from_token_rejects_unknown_tokens() {
    let err = ActionWithServer::from_token("frobnicate").unwrap_err();
    assert_eq!(err.message, "unrecognized command");
}

#[test]
fn from_token_is_case_sensitive_and_exact() {
    assert!(ActionWithServer::from_token("Ping").is_err());
    assert!(ActionWithServer::from_token("PING").is_err());
    assert!(ActionWithServer::from_token(" ping").is_err());
    assert!(ActionWithServer::from_token("ping ").is_err());
    assert!(ActionWithServer::from_token("").is_err());
}

#[test]
fn as_str_round_trips_through_from_token() {
    let actions = [
        ActionWithServer::Ping,
        ActionWithServer::Poll,
        ActionWithServer::Start,
        ActionWithServer::Resume,
        ActionWithServer::Pause,
        ActionWithServer::Exit,
    ];
    for a in actions {
        assert_eq!(ActionWithServer::from_token(a.as_str()).unwrap(), a);
    }
}

#[test]
fn into_daemon_command_maps_each_action() {
    assert_eq!(
        ActionWithServer::Ping.into_daemon_command(),
        DaemonCommand::Ping
    );
    assert_eq!(
        ActionWithServer::Poll.into_daemon_command(),
        DaemonCommand::GetState
    );
    assert_eq!(
        ActionWithServer::Start.into_daemon_command(),
        DaemonCommand::Start
    );
    assert_eq!(
        ActionWithServer::Resume.into_daemon_command(),
        DaemonCommand::Resume
    );
    assert_eq!(
        ActionWithServer::Pause.into_daemon_command(),
        DaemonCommand::Pause
    );
    assert_eq!(
        ActionWithServer::Exit.into_daemon_command(),
        DaemonCommand::Exit
    );
}

#[test]
fn error_new_keeps_the_message() {
    let e = Error::new("something went wrong");
    assert_eq!(e.message, "something went wrong");
}
