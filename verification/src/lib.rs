//! Session-typed channels over Unix-domain and TCP sockets: the protocol types and
//! their duality, what a choice puts on the wire, and the address, control-message
//! and result handling of the sockets beneath.
pub mod error;
pub mod fd_passing;
pub mod inet;
pub mod progress;
mod private;
pub mod session;
pub mod shutdown;
pub mod unix_addr;
pub mod wire;

pub use error::{judgment, max_len, SocketError};
pub use inet::{sockaddr_to_socketaddr, socketaddr_to_sockaddr, tosocketaddrs_to_socketaddr};
pub use session::Branch::{Left, Right};
pub use session::{Branch, Choose, DualModel, End, HasDual, Offer, Rec, Recv, Send, Var, S, Z};
pub use unix_addr::UnSocketAddr;
