//! Receiving datagrams without truncation.
//!
//! A [`MsgBuf`] is a message reception buffer that either borrows a caller's region or owns a
//! heap allocation, grows on demand under an optional quota, and tracks how much of it is
//! initialized and how much holds the current message. The reception traits describe a
//! transport that can peek at the front message and report truncation; the functions of
//! [`sync`] and [`nonblocking`] derive from them a reception that never truncates.

mod empty;
mod fwd;
pub mod laws;
pub mod msgbuf;
pub mod nonblocking;
mod owned;
pub mod recv;
pub mod step;
pub mod sync;

pub use empty::Empty;
pub use msgbuf::{MsgBuf, MsgBufView, QuotaExceeded};
pub use owned::{DynOwnedBuf, OwnedBuf, OwnedBufRawParts, OwnedView};
pub use recv::{RecvResult, TryRecvResult};
