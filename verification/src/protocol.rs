//! Interpretation of the server's reply envelopes, after the transport
//! collaborator has decoded them into plain values: which match to join,
//! whether a submitted action was accepted, and how each failure is
//! classified and worded for the display log.

use vstd::prelude::*;

use crate::board::Action;
use crate::board::GameState;

verus! {

/// Every failure the controller recovers from locally: transport or
/// decode trouble while talking to the server, a server-side refusal of a
/// submitted action, or the local guard against dispatching with no
/// active match.
#[derive(Clone, PartialEq, Eq, Debug)]
pub enum SessionError {
    ConnectionFailure(String),
    ActionRejected(String),
    DecodeFailure(String),
    NotConnected,
}

/// The log wording of each failure.
pub open spec fn error_text(e: SessionError) -> Seq<char> {
    match e {
        SessionError::ConnectionFailure(r) => "connection failure: "@ + r@,
        SessionError::ActionRejected(r) => "action rejected: "@ + r@,
        SessionError::DecodeFailure(r) => "decode failure: "@ + r@,
        SessionError::NotConnected => "not connected"@,
    }
}

impl SessionError {
    /// The failure as one line of text for the display log.
    pub fn message(&self) -> (r: String)
        ensures
            r@ == error_text(*self),
    {
        match self {
            SessionError::ConnectionFailure(reason) => {
                String::from_str("connection failure: ").concat(reason.as_str())
            },
            SessionError::ActionRejected(reason) => {
                String::from_str("action rejected: ").concat(reason.as_str())
            },
            SessionError::DecodeFailure(reason) => {
                String::from_str("decode failure: ").concat(reason.as_str())
            },
            SessionError::NotConnected => String::from_str("not connected"),
        }
    }
}

/// Picks the match to join from the server's listing: the first existing
/// match, or nothing — the caller then asks for a fresh one.
pub fn choose_existing_match(ids: &Vec<String>) -> (r: Option<String>)
    ensures
        ids@.len() > 0 ==> (r matches Some(s) && s == ids@[0]),
        ids@.len() == 0 ==> r is None,
{
    if ids.len() > 0 {
        Some(ids[0].clone())
    } else {
        None
    }
}

/// Reads the match-creation reply: the fresh match identifier must be
/// present, else the reply counts as undecodable.
pub fn interpret_create_match(id: Option<String>) -> (r: Result<String, SessionError>)
    ensures
        id matches Some(s) ==> (r matches Ok(v) && v == s),
        id is None ==> (r matches Err(e) && e matches SessionError::DecodeFailure(t)
            && t@ == "ID da partida não retornado"@),
{
    match id {
        Some(s) => Ok(s),
        None => Err(SessionError::DecodeFailure(String::from_str("ID da partida não retornado"))),
    }
}

/// Reads a state-fetch reply: the snapshot must be present, else the
/// reply counts as undecodable.
pub fn interpret_state_reply(state: Option<GameState>) -> (r: Result<GameState, SessionError>)
    ensures
        state matches Some(gs) ==> (r matches Ok(v) && v == gs),
        state is None ==> (r matches Err(e) && e matches SessionError::DecodeFailure(t)
            && t@ == "state missing from reply"@),
{
    match state {
        Some(gs) => Ok(gs),
        None => Err(SessionError::DecodeFailure(String::from_str("state missing from reply"))),
    }
}

/// The decoded body of an action-submission reply: the server's verdict,
/// its reason when it refused, and the new snapshot when it accepted.
#[derive(PartialEq, Eq, Debug)]
pub struct ActionReply {
    pub success: bool,
    pub error: Option<String>,
    pub state: Option<GameState>,
}

/// Reads an action-submission reply: a refusal becomes `ActionRejected`
/// with the server's reason (or a stock one when the server gave none);
/// an acceptance must carry the new snapshot, else the reply counts as
/// undecodable.
pub fn interpret_action_reply(reply: ActionReply) -> (r: Result<GameState, SessionError>)
    ensures
        !reply.success ==> (r matches Err(e) && e matches SessionError::ActionRejected(t)
            && t@ == (match reply.error {
            Some(s) => s@,
            None => "Erro desconhecido"@,
        })),
        reply.success ==> match reply.state {
            Some(gs) => r matches Ok(v) && v == gs,
            None => r matches Err(e) && e matches SessionError::DecodeFailure(t)
                && t@ == "state missing from reply"@,
        },
{
    if !reply.success {
        let reason = match reply.error {
            Some(s) => s,
            None => String::from_str("Erro desconhecido"),
        };
        Err(SessionError::ActionRejected(reason))
    } else {
        match reply.state {
            Some(gs) => Ok(gs),
            None => Err(
                SessionError::DecodeFailure(String::from_str("state missing from reply")),
            ),
        }
    }
}

/// Reads the remote decision-maker's reply: the chosen action must be
/// present, else the reply counts as undecodable.
pub fn interpret_ai_reply(action: Option<Action>) -> (r: Result<Action, SessionError>)
    ensures
        action matches Some(a) ==> (r matches Ok(v) && v == a),
        action is None ==> (r matches Err(e) && e matches SessionError::DecodeFailure(t)
            && t@ == "action missing from reply"@),
{
    match action {
        Some(a) => Ok(a),
        None => Err(SessionError::DecodeFailure(String::from_str("action missing from reply"))),
    }
}

} // verus!
