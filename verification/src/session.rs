//! The session controller: connection lifecycle, the unit/target selection
//! state machine, action construction, and reconciliation of authoritative
//! state from the request/response and push channels.
//!
//! All mutation goes through [`Session::update`], one event at a time. The
//! controller performs no I/O itself: each call returns a [`Command`] naming
//! the one piece of outside work (if any) the host must perform, whose
//! completion comes back as another [`Message`].

use vstd::prelude::*;

use crate::board::Action;
use crate::board::Cell;
use crate::board::Coord;
use crate::board::GameState;

verus! {

/// Connection lifecycle. Linear progression with an escape to `Error` from
/// any non-terminal state.
#[derive(Clone, PartialEq, Eq, Debug)]
pub enum ConnectionStatus {
    Disconnected,
    Connecting,
    Connected,
    Error(String),
}

/// The selection state machine's states.
#[derive(Clone, Copy, PartialEq, Eq, Structural, Debug)]
pub enum SelectionState {
    SelectUnit,
    SelectTarget,
    WaitingResponse,
}

/// A push-channel delivery, already decoded into a closed variant:
/// a recognized state update, or anything else (to be discarded).
#[derive(Clone, PartialEq, Eq, Debug)]
pub enum PushPayload {
    StateUpdate(GameState),
    Unrecognized,
}

/// Every event the controller handles: raw input, completions of network
/// calls, and push-channel deliveries. A closed set, dispatched through one
/// exhaustive match.
#[derive(PartialEq, Eq, Debug)]
pub enum Message {
    Connect,
    ConnectionResult(Result<String, String>),
    CellClicked(Coord),
    SendAction { player_id: String, action: Action },
    ActionResult(Result<GameState, String>),
    RefreshState,
    RefreshResult(Result<GameState, String>),
    PushMessage(PushPayload),
    ClearSelection,
    KeyPressed(char),
    RequestAiMove,
    AiMoveResult { player_id: String, result: Result<Action, String> },
}

/// The outside work one update step asks the host to perform. `Feedback`
/// asks for nothing but redelivery of the carried message.
#[derive(PartialEq, Eq, Debug)]
pub enum Command {
    Nothing,
    StartConnect,
    FetchState { match_id: String },
    SubmitAction { match_id: String, player_id: String, action: Action },
    RequestAiAction { match_id: String, player_id: String },
    Feedback(Message),
}

/// The long-lived session owned by the controller.
#[derive(Clone, PartialEq, Eq, Debug)]
pub struct Session {
    pub game_state: Option<GameState>,
    pub match_id: Option<String>,
    pub player_id: String,
    pub selected_coord: Option<Coord>,
    pub message_log: Vec<String>,
    pub connection_status: ConnectionStatus,
    pub selection_state: SelectionState,
}

impl Session {
    /// The session invariant: a match identifier is held exactly while
    /// connected; a pending selection origin is held exactly while a target
    /// is being chosen or a response is awaited; any held snapshot covers
    /// the whole board; the log is bounded.
    pub open spec fn wf(self) -> bool {
        &&& (self.match_id is Some <==> self.connection_status is Connected)
        &&& (self.selected_coord is Some <==> (self.selection_state is SelectTarget
            || self.selection_state is WaitingResponse))
        &&& (self.game_state matches Some(gs) ==> gs.wf())
        &&& self.message_log@.len() <= 100
    }

    /// A fresh session: disconnected, nothing selected, one greeting in the
    /// log.
    pub fn new(player_id: String) -> (s: Session)
        ensures
            s.wf(),
            s.game_state is None,
            s.match_id is None,
            s.player_id == player_id,
            s.selected_coord is None,
            s.connection_status is Disconnected,
            s.selection_state is SelectUnit,
            s.message_log@.len() == 1,
            s.message_log@[0]@ == "welcome to the tactical client"@,
    {
        let mut log: Vec<String> = Vec::new();
        log.push(String::from_str("welcome to the tactical client"));
        Session {
            game_state: None,
            match_id: None,
            player_id,
            selected_coord: None,
            message_log: log,
            connection_status: ConnectionStatus::Disconnected,
            selection_state: SelectionState::SelectUnit,
        }
    }

    /// Appends one entry to the display log, dropping the oldest entry once
    /// the bound of 100 is reached.
    pub fn add_log(&mut self, message: String)
        requires
            old(self).message_log@.len() <= 100,
        ensures
            final(self).message_log@ == (if old(self).message_log@.len() < 100 {
                old(self).message_log@.push(message)
            } else {
                old(self).message_log@.skip(1).push(message)
            }),
            final(self).message_log@.len() <= 100,
            *final(self) == (Session { message_log: final(self).message_log, ..*old(self) }),
    {
        self.message_log.push(message);
        if self.message_log.len() > 100 {
            self.message_log.remove(0);
            assert(self.message_log@ =~= old(self).message_log@.skip(1).push(message));
        }
    }
}

/// The log after a step is the log before it with exactly one entry of the
/// given text appended, under the bound of 100.
pub open spec fn log_appended(pre: Seq<String>, post: Seq<String>, text: Seq<char>) -> bool {
    &&& post.len() >= 1
    &&& post.last()@ == text
    &&& post == (if pre.len() < 100 {
        pre.push(post.last())
    } else {
        pre.skip(1).push(post.last())
    })
}

/// The chosen coordinate holds a unit owned by the local player.
pub open spec fn owns_unit_at(s: Session, c: Coord) -> bool {
    s.game_state matches Some(gs) && c.in_bounds() && (gs.board.spec_cell_at(c)
        matches Cell::Unit(u) && u.owner@ == s.player_id@)
}

/// The chosen coordinate holds a unit, whoever owns it.
pub open spec fn occupied_at(s: Session, c: Coord) -> bool {
    s.game_state matches Some(gs) && c.in_bounds() && gs.board.spec_cell_at(c) is Unit
}

/// The action constructed from a stored origin and a chosen target: an
/// attack exactly when the target cell is occupied (by any owner), a move
/// otherwise. The target's occupancy alone disambiguates intent.
pub open spec fn action_for_target(s: Session, origin: Coord, target: Coord) -> Action {
    if occupied_at(s, target) {
        Action::Attack { from: origin, to: target }
    } else {
        Action::Move { from: origin, to: target }
    }
}

/// What one "coordinate chosen" step does, by selection state. While
/// selecting a unit, the machine advances to target selection exactly when
/// the cell holds one of the local player's units; while selecting a target
/// it always constructs an action and starts waiting; while waiting it only
/// notes that input is being discarded.
pub open spec fn cell_clicked_post(pre: Session, c: Coord, post: Session, cmd: Command) -> bool {
    match pre.selection_state {
        SelectionState::SelectUnit => {
            if owns_unit_at(pre, c) {
                &&& post == (Session {
                    selection_state: SelectionState::SelectTarget,
                    selected_coord: Some(c),
                    message_log: post.message_log,
                    ..pre
                })
                &&& log_appended(pre.message_log@, post.message_log@, "unit selected"@)
                &&& cmd is Nothing
            } else {
                &&& post == (Session { message_log: post.message_log, ..pre })
                &&& if pre.game_state is Some && c.in_bounds() {
                    if occupied_at(pre, c) {
                        log_appended(pre.message_log@, post.message_log@, "that unit is not yours"@)
                    } else {
                        log_appended(pre.message_log@, post.message_log@, "no unit at that cell"@)
                    }
                } else {
                    post.message_log == pre.message_log
                }
                &&& cmd is Nothing
            }
        },
        SelectionState::SelectTarget => {
            pre.selected_coord matches Some(origin) ==> {
                &&& post == (Session {
                    selection_state: SelectionState::WaitingResponse,
                    ..pre
                })
                &&& cmd == (Command::Feedback(Message::SendAction {
                    player_id: pre.player_id,
                    action: action_for_target(pre, origin, c),
                }))
            }
        },
        SelectionState::WaitingResponse => {
            &&& post == (Session { message_log: post.message_log, ..pre })
            &&& log_appended(pre.message_log@, post.message_log@, "awaiting server response"@)
            &&& cmd is Nothing
        },
    }
}

/// Dispatch of a constructed action: with an active match the action goes
/// out exactly once, on the named acting player's behalf — the local player
/// for human input, the turn holder for an action the remote decision-maker
/// chose; without an active match the attempt is a local no-op — nothing is
/// sent and the user is told.
pub open spec fn send_action_post(
    pre: Session,
    player_id: String,
    action: Action,
    post: Session,
    cmd: Command,
) -> bool {
    match pre.match_id {
        Some(m) => {
            &&& cmd == (Command::SubmitAction { match_id: m, player_id, action })
            &&& post == (Session { message_log: post.message_log, ..pre })
            &&& log_appended(pre.message_log@, post.message_log@, "sending action to server"@)
        },
        None => {
            &&& cmd is Nothing
            &&& post == (Session { message_log: post.message_log, ..pre })
            &&& log_appended(pre.message_log@, post.message_log@, "not connected"@)
        },
    }
}

/// Reconciliation of a dispatch completion: whether the server accepted or
/// rejected the action, the selection machine returns to its idle state and
/// the pending origin is dropped; only on success is the snapshot replaced,
/// wholesale; on failure the error text is recorded.
pub open spec fn action_result_post(
    pre: Session,
    result: Result<GameState, String>,
    post: Session,
) -> bool {
    &&& post.selection_state is SelectUnit
    &&& post.selected_coord is None
    &&& match result {
        Ok(gs) => {
            &&& post == (Session {
                game_state: Some(gs),
                selection_state: SelectionState::SelectUnit,
                selected_coord: None,
                message_log: post.message_log,
                ..pre
            })
            &&& log_appended(pre.message_log@, post.message_log@, "action applied"@)
        },
        Err(e) => {
            &&& post == (Session {
                selection_state: SelectionState::SelectUnit,
                selected_coord: None,
                message_log: post.message_log,
                ..pre
            })
            &&& log_appended(pre.message_log@, post.message_log@, "error: "@ + e@)
        },
    }
}

/// Starting a connection attempt: status moves to `Connecting`, any stale
/// match identifier is dropped, and the one outside call is requested.
pub open spec fn connect_post(pre: Session, post: Session, cmd: Command) -> bool {
    &&& post == (Session {
        connection_status: ConnectionStatus::Connecting,
        match_id: None,
        message_log: post.message_log,
        ..pre
    })
    &&& log_appended(pre.message_log@, post.message_log@, "connecting to server"@)
    &&& cmd is StartConnect
}

/// Completion of a connection attempt: on success the match identifier is
/// stored, status becomes `Connected` and a state refresh is triggered; on
/// failure status records the reason and the session is otherwise unchanged.
pub open spec fn connection_result_post(
    pre: Session,
    result: Result<String, String>,
    post: Session,
    cmd: Command,
) -> bool {
    match result {
        Ok(mid) => {
            &&& post == (Session {
                connection_status: ConnectionStatus::Connected,
                match_id: Some(mid),
                message_log: post.message_log,
                ..pre
            })
            &&& log_appended(pre.message_log@, post.message_log@, "connected to match: "@ + mid@)
            &&& cmd == Command::Feedback(Message::RefreshState)
        },
        Err(e) => {
            &&& post == (Session {
                connection_status: ConnectionStatus::Error(e),
                match_id: None,
                message_log: post.message_log,
                ..pre
            })
            &&& log_appended(pre.message_log@, post.message_log@, "error: "@ + e@)
            &&& cmd is Nothing
        },
    }
}

/// The read-only refresh: with an active match it asks for the current
/// authoritative state; otherwise it asks for nothing.
pub open spec fn refresh_cmd(s: Session, cmd: Command) -> bool {
    match s.match_id {
        Some(m) => cmd == (Command::FetchState { match_id: m }),
        None => cmd is Nothing,
    }
}

/// Completion of a refresh: the snapshot is replaced on success and the
/// failure is logged otherwise — the selection machine is not touched
/// either way (a refresh follows reconnection, not a local selection).
pub open spec fn refresh_result_post(
    pre: Session,
    result: Result<GameState, String>,
    post: Session,
) -> bool {
    match result {
        Ok(gs) => {
            &&& post == (Session {
                game_state: Some(gs),
                message_log: post.message_log,
                ..pre
            })
            &&& log_appended(pre.message_log@, post.message_log@, "state refreshed"@)
        },
        Err(e) => {
            &&& post == (Session { message_log: post.message_log, ..pre })
            &&& log_appended(pre.message_log@, post.message_log@, "error: "@ + e@)
        },
    }
}

/// A push-channel delivery: a recognized state update replaces the snapshot
/// wholesale but leaves the selection machine and the pending origin alone;
/// anything else leaves the whole session untouched, silently.
///
/// A push delivery and a pending dispatch's completion may arrive in either
/// order; whichever arrives later overwrites the other, with no staleness
/// comparison (deliberately: the server's snapshots are each authoritative,
/// and the turn counter is not consulted).
pub open spec fn push_post(pre: Session, payload: PushPayload, post: Session) -> bool {
    match payload {
        PushPayload::StateUpdate(gs) => {
            &&& post == (Session {
                game_state: Some(gs),
                message_log: post.message_log,
                ..pre
            })
            &&& log_appended(pre.message_log@, post.message_log@, "state updated from push channel"@)
        },
        PushPayload::Unrecognized => post == pre,
    }
}

/// The turn coordinator's decision: an action is requested on the turn
/// holder's behalf exactly when a match is active, a snapshot is held, and
/// the turn holder differs from the local player.
pub open spec fn ai_request_cmd(s: Session, cmd: Command) -> bool {
    match (s.match_id, s.game_state) {
        (Some(m), Some(gs)) => {
            if gs.turn@ != s.player_id@ {
                cmd == (Command::RequestAiAction { match_id: m, player_id: gs.turn })
            } else {
                cmd is Nothing
            }
        },
        _ => cmd is Nothing,
    }
}

/// Completion of a request for the remote decision-maker's action: the
/// resulting action is routed through dispatch exactly as a human action,
/// with the turn holder it was requested for as the acting player; a
/// failure is only logged.
pub open spec fn ai_result_post(
    pre: Session,
    player_id: String,
    result: Result<Action, String>,
    post: Session,
    cmd: Command,
) -> bool {
    match result {
        Ok(a) => {
            &&& post == (Session { message_log: post.message_log, ..pre })
            &&& log_appended(pre.message_log@, post.message_log@, "ai chose an action"@)
            &&& cmd == (Command::Feedback(Message::SendAction { player_id, action: a }))
        },
        Err(e) => {
            &&& post == (Session { message_log: post.message_log, ..pre })
            &&& log_appended(pre.message_log@, post.message_log@, "error: "@ + e@)
            &&& cmd is Nothing
        },
    }
}

/// Clearing the selection forces the idle state from anywhere, discarding
/// any stored origin.
pub open spec fn clear_selection_post(pre: Session, post: Session) -> bool {
    &&& post == (Session {
        selected_coord: None,
        selection_state: SelectionState::SelectUnit,
        message_log: post.message_log,
        ..pre
    })
    &&& log_appended(pre.message_log@, post.message_log@, "selection cleared"@)
}

/// Any game snapshot carried by an inbound event covers the whole board.
pub open spec fn msg_wf(msg: Message) -> bool {
    match msg {
        Message::ActionResult(r) => (r matches Ok(gs) ==> gs.wf()),
        Message::RefreshResult(r) => (r matches Ok(gs) ==> gs.wf()),
        Message::PushMessage(p) => (p matches PushPayload::StateUpdate(gs) ==> gs.wf()),
        _ => true,
    }
}

/// The full step relation of the controller: what each event does to the
/// session and which outside work it requests.
pub open spec fn update_post(pre: Session, msg: Message, post: Session, cmd: Command) -> bool {
    match msg {
        Message::Connect => connect_post(pre, post, cmd),
        Message::ConnectionResult(r) => connection_result_post(pre, r, post, cmd),
        Message::CellClicked(c) => cell_clicked_post(pre, c, post, cmd),
        Message::SendAction { player_id, action } => send_action_post(pre, player_id, action, post, cmd),
        Message::ActionResult(r) => action_result_post(pre, r, post) && cmd is Nothing,
        Message::RefreshState => post == pre && refresh_cmd(pre, cmd),
        Message::RefreshResult(r) => refresh_result_post(pre, r, post) && cmd is Nothing,
        Message::PushMessage(p) => push_post(pre, p, post) && cmd is Nothing,
        Message::ClearSelection => clear_selection_post(pre, post) && cmd is Nothing,
        Message::KeyPressed(_) => post == pre && cmd is Nothing,
        Message::RequestAiMove => post == pre && ai_request_cmd(pre, cmd),
        Message::AiMoveResult { player_id, result } => ai_result_post(pre, player_id, result, post, cmd),
    }
}

impl Session {
    /// One "coordinate chosen" input event, driven against the current
    /// selection state. While idle, the click selects one of the local
    /// player's units and nothing else; with an origin stored, it constructs
    /// the action the target's occupancy calls for and hands it over for
    /// dispatch; while a response is pending the input is discarded.
    pub fn handle_cell_clicked(&mut self, coord: Coord) -> (cmd: Command)
        requires
            old(self).wf(),
        ensures
            final(self).wf(),
            cell_clicked_post(*old(self), coord, *final(self), cmd),
    {
        match self.selection_state {
            SelectionState::SelectUnit => {
                let has_state = self.game_state.is_some();
                let inb = coord.x < 8 && coord.y < 8;
                let mut owns = false;
                let mut occupied = false;
                match &self.game_state {
                    Some(gs) => match gs.board.get(&coord) {
                        Some(cell) => match cell.get_unit() {
                            Some(u) => {
                                occupied = true;
                                owns = u.owner == self.player_id;
                            },
                            None => {},
                        },
                        None => {},
                    },
                    None => {},
                }
                if owns {
                    self.selected_coord = Some(coord);
                    self.selection_state = SelectionState::SelectTarget;
                    self.add_log(String::from_str("unit selected"));
                } else if has_state && inb {
                    if occupied {
                        self.add_log(String::from_str("that unit is not yours"));
                    } else {
                        self.add_log(String::from_str("no unit at that cell"));
                    }
                }
                Command::Nothing
            },
            SelectionState::SelectTarget => {
                match self.selected_coord {
                    Some(origin) => {
                        let mut occ = false;
                        match &self.game_state {
                            Some(gs) => match gs.board.get(&coord) {
                                Some(cell) => {
                                    occ = cell.get_unit().is_some();
                                },
                                None => {},
                            },
                            None => {},
                        }
                        let action = if occ {
                            Action::Attack { from: origin, to: coord }
                        } else {
                            Action::Move { from: origin, to: coord }
                        };
                        let actor = self.player_id.clone();
                        self.selection_state = SelectionState::WaitingResponse;
                        Command::Feedback(Message::SendAction { player_id: actor, action })
                    },
                    None => Command::Nothing,
                }
            },
            SelectionState::WaitingResponse => {
                self.add_log(String::from_str("awaiting server response"));
                Command::Nothing
            },
        }
    }

    /// Dispatches a constructed action on the named acting player's
    /// behalf, guarding against a stale session: without an active match
    /// nothing is sent.
    pub fn handle_send_action(&mut self, player_id: String, action: Action) -> (cmd: Command)
        requires
            old(self).wf(),
        ensures
            final(self).wf(),
            send_action_post(*old(self), player_id, action, *final(self), cmd),
    {
        let mid: Option<String> = match &self.match_id {
            Some(m) => Some(m.clone()),
            None => None,
        };
        match mid {
            Some(m) => {
                self.add_log(String::from_str("sending action to server"));
                Command::SubmitAction { match_id: m, player_id, action }
            },
            None => {
                self.add_log(String::from_str("not connected"));
                Command::Nothing
            },
        }
    }

    /// Reconciles a dispatch completion, restoring the selection machine to
    /// its idle state on success and failure alike.
    pub fn handle_action_result(&mut self, result: Result<GameState, String>)
        requires
            old(self).wf(),
            result matches Ok(gs) ==> gs.wf(),
        ensures
            final(self).wf(),
            action_result_post(*old(self), result, *final(self)),
    {
        match result {
            Ok(new_state) => {
                self.game_state = Some(new_state);
                self.selected_coord = None;
                self.selection_state = SelectionState::SelectUnit;
                self.add_log(String::from_str("action applied"));
            },
            Err(e) => {
                let text = String::from_str("error: ").concat(e.as_str());
                self.selected_coord = None;
                self.selection_state = SelectionState::SelectUnit;
                self.add_log(text);
            },
        }
    }

    /// Begins a connection attempt.
    pub fn handle_connect(&mut self) -> (cmd: Command)
        requires
            old(self).wf(),
        ensures
            final(self).wf(),
            connect_post(*old(self), *final(self), cmd),
    {
        self.connection_status = ConnectionStatus::Connecting;
        self.match_id = None;
        self.add_log(String::from_str("connecting to server"));
        Command::StartConnect
    }

    /// Applies the outcome of a connection attempt.
    pub fn handle_connection_result(&mut self, result: Result<String, String>) -> (cmd: Command)
        requires
            old(self).wf(),
        ensures
            final(self).wf(),
            connection_result_post(*old(self), result, *final(self), cmd),
    {
        match result {
            Ok(mid) => {
                let text = String::from_str("connected to match: ").concat(mid.as_str());
                self.connection_status = ConnectionStatus::Connected;
                self.match_id = Some(mid);
                self.add_log(text);
                Command::Feedback(Message::RefreshState)
            },
            Err(e) => {
                let text = String::from_str("error: ").concat(e.as_str());
                self.connection_status = ConnectionStatus::Error(e);
                self.match_id = None;
                self.add_log(text);
                Command::Nothing
            },
        }
    }

    /// Asks for a read-only fetch of the authoritative state, when a match
    /// is active.
    pub fn handle_refresh(&self) -> (cmd: Command)
        ensures
            refresh_cmd(*self, cmd),
    {
        match &self.match_id {
            Some(m) => Command::FetchState { match_id: m.clone() },
            None => Command::Nothing,
        }
    }

    /// Applies the outcome of a refresh, leaving the selection machine
    /// alone.
    pub fn handle_refresh_result(&mut self, result: Result<GameState, String>)
        requires
            old(self).wf(),
            result matches Ok(gs) ==> gs.wf(),
        ensures
            final(self).wf(),
            refresh_result_post(*old(self), result, *final(self)),
    {
        match result {
            Ok(new_state) => {
                self.game_state = Some(new_state);
                self.add_log(String::from_str("state refreshed"));
            },
            Err(e) => {
                let text = String::from_str("error: ").concat(e.as_str());
                self.add_log(text);
            },
        }
    }

    /// Applies one push-channel delivery: a recognized state update
    /// reconciles the snapshot without touching the selection machine;
    /// anything unrecognized is dropped silently.
    pub fn handle_push(&mut self, payload: PushPayload)
        requires
            old(self).wf(),
            payload matches PushPayload::StateUpdate(gs) ==> gs.wf(),
        ensures
            final(self).wf(),
            push_post(*old(self), payload, *final(self)),
    {
        match payload {
            PushPayload::StateUpdate(new_state) => {
                self.game_state = Some(new_state);
                self.add_log(String::from_str("state updated from push channel"));
            },
            PushPayload::Unrecognized => {},
        }
    }

    /// The turn coordinator: requests an action from the remote
    /// decision-maker exactly when it is not the local player's turn.
    pub fn handle_request_ai(&self) -> (cmd: Command)
        ensures
            ai_request_cmd(*self, cmd),
    {
        let ids: Option<(String, String)> = match (&self.match_id, &self.game_state) {
            (Some(m), Some(gs)) => {
                if !(gs.turn == self.player_id) {
                    Some((m.clone(), gs.turn.clone()))
                } else {
                    None
                }
            },
            _ => None,
        };
        match ids {
            Some((m, holder)) => Command::RequestAiAction { match_id: m, player_id: holder },
            None => Command::Nothing,
        }
    }

    /// Routes the remote decision-maker's action into dispatch, acting as
    /// the turn holder it was requested for, or logs the failure.
    pub fn handle_ai_result(&mut self, player_id: String, result: Result<Action, String>) -> (cmd: Command)
        requires
            old(self).wf(),
        ensures
            final(self).wf(),
            ai_result_post(*old(self), player_id, result, *final(self), cmd),
    {
        match result {
            Ok(a) => {
                self.add_log(String::from_str("ai chose an action"));
                Command::Feedback(Message::SendAction { player_id, action: a })
            },
            Err(e) => {
                let text = String::from_str("error: ").concat(e.as_str());
                self.add_log(text);
                Command::Nothing
            },
        }
    }

    /// Forces the selection machine back to its idle state.
    pub fn handle_clear_selection(&mut self)
        requires
            old(self).wf(),
        ensures
            final(self).wf(),
            clear_selection_post(*old(self), *final(self)),
    {
        self.selected_coord = None;
        self.selection_state = SelectionState::SelectUnit;
        self.add_log(String::from_str("selection cleared"));
    }

    /// The single serialized entry point: every input event, network
    /// completion and push delivery passes through here, one at a time.
    pub fn update(&mut self, msg: Message) -> (cmd: Command)
        requires
            old(self).wf(),
            msg_wf(msg),
        ensures
            final(self).wf(),
            update_post(*old(self), msg, *final(self), cmd),
    {
        match msg {
            Message::Connect => self.handle_connect(),
            Message::ConnectionResult(r) => self.handle_connection_result(r),
            Message::CellClicked(c) => self.handle_cell_clicked(c),
            Message::SendAction { player_id, action } => self.handle_send_action(player_id, action),
            Message::ActionResult(r) => {
                self.handle_action_result(r);
                Command::Nothing
            },
            Message::RefreshState => self.handle_refresh(),
            Message::RefreshResult(r) => {
                self.handle_refresh_result(r);
                Command::Nothing
            },
            Message::PushMessage(p) => {
                self.handle_push(p);
                Command::Nothing
            },
            Message::ClearSelection => {
                self.handle_clear_selection();
                Command::Nothing
            },
            Message::KeyPressed(_) => Command::Nothing,
            Message::RequestAiMove => self.handle_request_ai(),
            Message::AiMoveResult { player_id, result } => self.handle_ai_result(player_id, result),
        }
    }
}

} // verus!
