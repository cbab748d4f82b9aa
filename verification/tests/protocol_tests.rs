use tatic_client::board::Phase;
use tatic_client::protocol::choose_existing_match;
use tatic_client::protocol::interpret_action_reply;
use tatic_client::protocol::interpret_ai_reply;
use tatic_client::protocol::interpret_create_match;
use tatic_client::protocol::interpret_state_reply;
use tatic_client::Action;
use tatic_client::ActionReply;
use tatic_client::Board;
use tatic_client::Coord;
use tatic_client::GameState;
use tatic_client::SessionError;

fn some_state() -> GameState {
    GameState {
        board: Board::empty(),
        turn: String::from("player1"),
        turn_count: 3,
        phase: Phase::Playing,
    }
}

#[test]
fn first_existing_match_is_chosen() {
    let ids = vec![String::from("m1"), String::from("m2")];
    assert_eq!(choose_existing_match(&ids), Some(String::from("m1")));
    assert_eq!(choose_existing_match(&Vec::new()), None);
}

#[test]
fn create_match_reply_needs_an_id() {
    assert_eq!(
        interpret_create_match(Some(String::from("m9"))),
        Ok(String::from("m9"))
    );
    assert_eq!(
        interpret_create_match(None),
        Err(SessionError::DecodeFailure(String::from("ID da partida não retornado")))
    );
}

#[test]
fn state_reply_needs_a_snapshot() {
    let gs = some_state();
    assert_eq!(interpret_state_reply(Some(gs.clone())), Ok(gs));
    assert_eq!(
        interpret_state_reply(None),
        Err(SessionError::DecodeFailure(String::from("state missing from reply")))
    );
}

#[test]
fn rejected_action_keeps_server_reason() {
    let reply = ActionReply {
        success: false,
        error: Some(String::from("invalid move")),
        state: None,
    };
    assert_eq!(
        interpret_action_reply(reply),
        Err(SessionError::ActionRejected(String::from("invalid move")))
    );
}

#[test]
fn rejected_action_without_reason_gets_stock_text() {
    let reply = ActionReply { success: false, error: None, state: Some(some_state()) };
    assert_eq!(
        interpret_action_reply(reply),
        Err(SessionError::ActionRejected(String::from("Erro desconhecido")))
    );
}

#[test]
fn accepted_action_yields_new_state() {
    let gs = some_state();
    let reply = ActionReply { success: true, error: None, state: Some(gs.clone()) };
    assert_eq!(interpret_action_reply(reply), Ok(gs));
}

#[test]
fn accepted_action_without_state_is_decode_failure() {
    let reply = ActionReply { success: true, error: None, state: None };
    assert_eq!(
        interpret_action_reply(reply),
        Err(SessionError::DecodeFailure(String::from("state missing from reply")))
    );
}

#[test]
fn ai_reply_needs_an_action() {
    let action = Action::Move { from: Coord::new(1, 1), to: Coord::new(1, 2) };
    assert_eq!(interpret_ai_reply(Some(action)), Ok(action));
    assert_eq!(
        interpret_ai_reply(None),
        Err(SessionError::DecodeFailure(String::from("action missing from reply")))
    );
}

#[test]
fn error_messages_name_each_failure() {
    assert_eq!(
        SessionError::ConnectionFailure(String::from("timed out")).message(),
        "connection failure: timed out"
    );
    assert_eq!(
        SessionError::ActionRejected(String::from("invalid move")).message(),
        "action rejected: invalid move"
    );
    assert_eq!(
        SessionError::DecodeFailure(String::from("bad body")).message(),
        "decode failure: bad body"
    );
    assert_eq!(SessionError::NotConnected.message(), "not connected");
}
