//! Client-side session engine for a two-player, turn-based game played
//! against a remote service: the session lifecycle, turn arbitration, and
//! the mirror of the server's board state.

pub mod error;
pub mod laws;
pub mod snapshot;
pub mod session;
pub mod status;

pub use error::SessionError;
pub use snapshot::{Cell, GameData, GameSnapshot, Identity, Winner};
pub use session::{EndReason, Lifecycle, MoveRequest, SessionState};
