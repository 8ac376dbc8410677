//! A broker for real-time match sessions of nine-by-nine tic-tac-toe.
//!
//! The crate holds the decisions of the broker: the rules of a match, the
//! registry of live connections, the wire frames and the per-connection
//! session. Sockets and the key-value store stay with the caller, which feeds
//! what it read into these functions and carries out what they hand back.

pub mod engine;
pub mod frame;
pub mod mark;
pub mod path;
pub mod registry;
pub mod session;

pub use engine::{create_match, get_match, make_move, update_match, Fetched, MatchData, MatchError, Persist};
pub use frame::{
    decode_client_frame, ClientFrame, GridPoint, MoveRequest, ServerFrame, WireMember, WireNumber, WireValue,
};
pub use mark::PlayerMark;
pub use path::parse_match_path;
pub use registry::{Client, ConnectionRegistry, Delivery};
pub use session::{BrokerError, Phase, Resolved, Session};
