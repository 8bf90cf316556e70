//! A verified core for a two-player Connect-Four service: the board with
//! gravity placement and four-direction win detection, the two-valued player
//! identity, nickname derivation, the single-slot matchmaking rendezvous, and
//! the per-turn protocol decisions with the literal message catalog.

pub mod board;
pub mod messages;
pub mod nickname;
pub mod player;
pub mod protocol;
pub mod registry;

pub use board::Game;
pub use player::Player;
pub use player::flip_player;
pub use protocol::MatchState;
pub use registry::Registry;
