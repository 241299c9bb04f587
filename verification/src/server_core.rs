use crate::codec::{decode_text, lossy_text_of};
use crate::commands::{
    action_command, token_action, unknown_token_text, ActionWithServer, DaemonResponse,
};
use crate::text::{spec_trim, trim_text};
use crate::ticker::{apply_command, command_reply, message_text, ScreenShotter, TickerVerdict};
use vstd::prelude::*;

verus! {

// Daemon core loop, the per-connection part: given the request text of one
// accepted connection, run the operation against the ticker state and
// produce the reply, or decide to shut the server down. The accept loop
// around it only moves frames.

/// What the accept loop does after one request: write the carried text back
/// as one reply frame, or stop accepting connections altogether.
#[derive(Clone, PartialEq, Eq, Debug)]
pub enum ServeOutcome {
    Reply(DaemonResponse),
    Shutdown,
}

/// The state one request leaves behind: an unknown token and Exit leave it
/// untouched; every other token applies its operation.
pub open spec fn serve_state(ss: ScreenShotter, text: Seq<char>) -> ScreenShotter {
    match token_action(spec_trim(text)) {
        None => ss,
        Some(a) => {
            let cmd = action_command(a);
            if cmd is Exit {
                ss
            } else {
                apply_command(ss, cmd)
            }
        },
    }
}

/// What the accept loop is told after one request: an unknown token is
/// answered with the error text, Exit shuts the server down, and every other
/// token is answered with the ticker's reply to its operation.
pub open spec fn serve_outcome(ss: ScreenShotter, text: Seq<char>, r: ServeOutcome) -> bool {
    match token_action(spec_trim(text)) {
        None => (r matches ServeOutcome::Reply(DaemonResponse::Failure(e)) &&
            e@ == unknown_token_text()),
        Some(a) => {
            let cmd = action_command(a);
            if cmd is Exit {
                r is Shutdown
            } else {
                (r matches ServeOutcome::Reply(DaemonResponse::Success(s)) &&
                    s@ == message_text(command_reply(ss, cmd)))
            }
        },
    }
}

/// One request, already decoded to text.
pub fn serve_text(ss: &mut ScreenShotter, request: &str) -> (r: ServeOutcome)
    requires
        old(ss).wf(),
    ensures
        final(ss).wf(),
        *final(ss) == serve_state(*old(ss), request@),
        serve_outcome(*old(ss), request@, r),
{
    let trimmed = trim_text(request);
    match ActionWithServer::from_token(trimmed) {
        Err(e) => ServeOutcome::Reply(DaemonResponse::Failure(e.message)),
        Ok(action) => {
            let cmd = action.into_daemon_command();
            match ss.handle_command(&cmd) {
                TickerVerdict::Stop => ServeOutcome::Shutdown,
                TickerVerdict::Reply(msg) => ServeOutcome::Reply(
                    DaemonResponse::Success(msg.to_string()),
                ),
            }
        },
    }
}

/// One request as its payload came off the wire: decoded to text with
/// replacement for invalid UTF-8, then served; bytes that decode to no known
/// token are answered with the error reply like any other unknown token.
pub fn serve_request(ss: &mut ScreenShotter, request: &[u8]) -> (r: ServeOutcome)
    requires
        old(ss).wf(),
    ensures
        final(ss).wf(),
        *final(ss) == serve_state(*old(ss), lossy_text_of(request@)),
        serve_outcome(*old(ss), lossy_text_of(request@), r),
{
    let text = decode_text(request);
    serve_text(ss, text.as_str())
}

} // verus!
