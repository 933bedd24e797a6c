//! Clipboard synchronisation over the local network: the frame and handshake
//! values exchanged between peers, the length-prefixed wire framing, the
//! decisions of peer discovery, the table of connected peers and the rule that
//! decides which clipboard changes are applied and forwarded.

pub mod clipboard;
pub mod connections;
pub mod discover;
pub mod errors;
pub mod frame;
pub mod mobile;
pub mod net;
pub mod transport;
pub mod utils;
pub mod wire;

pub use clipboard::ClipboardState;
pub use discover::Discovery;
pub use errors::AppErr;
pub use frame::{Frame, HandShake};
pub use transport::{Details, PeerTable};

use vstd::prelude::*;

verus! {

/// UDP port on which peers announce themselves by broadcast.
pub const DEFAULT_BROADCAST_PORT: u16 = 51515;

/// Capacity of the channels that carry frames between tasks.
pub const DEFAULT_CHANNEL_CAPACITY: usize = 64;

} // verus!
