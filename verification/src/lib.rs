//! Session controller for a turn-based, grid-positioned tactical game
//! client: the board model, the unit/target selection state machine,
//! construction of well-formed actions from raw input, and reconciliation
//! of authoritative state arriving from both the request/response and the
//! push channel. Transport, rendering widgets and process wiring stay
//! outside; this crate hands them plain values and takes plain values back.

pub mod board;
pub mod input;
pub mod protocol;
pub mod render;
pub mod session;

pub use board::Action;
pub use board::Board;
pub use board::Cell;
pub use board::Coord;
pub use board::GameState;
pub use board::Phase;
pub use board::Unit;
pub use input::InputState;
pub use input::KeyEvent;
pub use protocol::ActionReply;
pub use protocol::SessionError;
pub use render::BoardRenderer;
pub use session::Command;
pub use session::ConnectionStatus;
pub use session::Message;
pub use session::PushPayload;
pub use session::SelectionState;
pub use session::Session;
