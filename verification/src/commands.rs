use crate::text::spec_trim;
use crate::Error;
use vstd::prelude::*;

verus! {

// Command vocabulary: the closed set of client-issuable actions, their wire
// tokens, and the total mapping onto the daemon-side operations.

/// A client-issuable action, one per command token on the wire.
#[derive(Clone, Copy, PartialEq, Eq, Debug)]
pub enum ActionWithServer {
    Ping,
    Poll,
    Start,
    Resume,
    Pause,
    Exit,
}

/// A daemon-side operation, consumed by the ticker's execution context.
#[derive(Clone, Copy, PartialEq, Eq, Debug)]
pub enum DaemonCommand {
    Noop,
    Ping,
    GetState,
    Start,
    Resume,
    Pause,
    Exit,
}

/// The reply produced for one request; the loop writes the carried text back
/// either way.
#[derive(Clone, PartialEq, Eq, Debug)]
pub enum DaemonResponse {
    Success(String),
    Failure(String),
}

impl DaemonResponse {
    pub open spec fn text_view(&self) -> Seq<char> {
        match self {
            DaemonResponse::Success(s) => s@,
            DaemonResponse::Failure(s) => s@,
        }
    }

    /// The reply text, the same for a success and for a failure.
    pub fn text(&self) -> (r: &str)
        ensures
            r@ == self.text_view(),
    {
        match self {
            DaemonResponse::Success(s) => s.as_str(),
            DaemonResponse::Failure(s) => s.as_str(),
        }
    }
}

/// The wire token of each action.
pub open spec fn action_token(a: ActionWithServer) -> Seq<char> {
    match a {
        ActionWithServer::Ping => "ping"@,
        ActionWithServer::Poll => "poll"@,
        ActionWithServer::Start => "start"@,
        ActionWithServer::Resume => "resume"@,
        ActionWithServer::Pause => "pause"@,
        ActionWithServer::Exit => "exit"@,
    }
}

/// The action a token names, if any: an exact, case-sensitive match.
pub open spec fn token_action(t: Seq<char>) -> Option<ActionWithServer> {
    if t == "ping"@ {
        Some(ActionWithServer::Ping)
    } else if t == "poll"@ {
        Some(ActionWithServer::Poll)
    } else if t == "start"@ {
        Some(ActionWithServer::Start)
    } else if t == "resume"@ {
        Some(ActionWithServer::Resume)
    } else if t == "pause"@ {
        Some(ActionWithServer::Pause)
    } else if t == "exit"@ {
        Some(ActionWithServer::Exit)
    } else {
        None
    }
}

/// The error message replied for a token outside the vocabulary.
pub open spec fn unknown_token_text() -> Seq<char> {
    "unrecognized command"@
}

/// The internal operation of each action: a total, deterministic mapping.
pub open spec fn action_command(a: ActionWithServer) -> DaemonCommand {
    match a {
        ActionWithServer::Ping => DaemonCommand::Ping,
        ActionWithServer::Poll => DaemonCommand::GetState,
        ActionWithServer::Start => DaemonCommand::Start,
        ActionWithServer::Resume => DaemonCommand::Resume,
        ActionWithServer::Pause => DaemonCommand::Pause,
        ActionWithServer::Exit => DaemonCommand::Exit,
    }
}

impl ActionWithServer {
    /// Parses a trimmed token; any token outside the closed set is rejected.
    pub fn from_token(token: &str) -> (r: Result<ActionWithServer, Error>)
        ensures
            match r {
                Ok(a) => token_action(token@) == Some(a),
                Err(e) => token_action(token@) is None && e.message@ == unknown_token_text(),
            },
    {
        let t = token.to_owned();
        if t == "ping".to_owned() {
            Ok(ActionWithServer::Ping)
        } else if t == "poll".to_owned() {
            Ok(ActionWithServer::Poll)
        } else if t == "start".to_owned() {
            Ok(ActionWithServer::Start)
        } else if t == "resume".to_owned() {
            Ok(ActionWithServer::Resume)
        } else if t == "pause".to_owned() {
            Ok(ActionWithServer::Pause)
        } else if t == "exit".to_owned() {
            Ok(ActionWithServer::Exit)
        } else {
            Err(Error::new("unrecognized command"))
        }
    }

    pub fn as_str(&self) -> (r: &'static str)
        ensures
            r@ == action_token(*self),
    {
        match self {
            ActionWithServer::Ping => "ping",
            ActionWithServer::Poll => "poll",
            ActionWithServer::Start => "start",
            ActionWithServer::Resume => "resume",
            ActionWithServer::Pause => "pause",
            ActionWithServer::Exit => "exit",
        }
    }

    pub fn into_daemon_command(&self) -> (r: DaemonCommand)
        ensures
            r == action_command(*self),
    {
        match self {
            ActionWithServer::Ping => DaemonCommand::Ping,
            ActionWithServer::Poll => DaemonCommand::GetState,
            ActionWithServer::Start => DaemonCommand::Start,
            ActionWithServer::Resume => DaemonCommand::Resume,
            ActionWithServer::Pause => DaemonCommand::Pause,
            ActionWithServer::Exit => DaemonCommand::Exit,
        }
    }
}

/// Law: each action's own wire token, blanks trimmed, parses back to exactly
/// that action, so a client and the daemon agree on the vocabulary.
pub proof fn lemma_token_round_trip(a: ActionWithServer)
    ensures
        token_action(spec_trim(action_token(a))) == Some(a),
{
    reveal_strlit("ping");
    reveal_strlit("poll");
    reveal_strlit("start");
    reveal_strlit("resume");
    reveal_strlit("pause");
    reveal_strlit("exit");
    let t = action_token(a);
    assert(t.len() > 0 && !crate::text::is_blank(t[0]) && !crate::text::is_blank(t.last()));
    assert(spec_trim(t) == t);
    match a {
        ActionWithServer::Ping => {},
        ActionWithServer::Poll => {
            assert("poll"@[1] != "ping"@[1]);
        },
        ActionWithServer::Start => {},
        ActionWithServer::Resume => {},
        ActionWithServer::Pause => {
            assert("pause"@[0] != "start"@[0]);
        },
        ActionWithServer::Exit => {
            assert("exit"@[0] != "ping"@[0]);
            assert("exit"@[0] != "poll"@[0]);
        },
    }
}

} // verus!
