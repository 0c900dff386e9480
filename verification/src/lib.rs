//! Control plane of a NAT-traversal relay server.
//!
//! The library is the coordination core: how one control-plane handle fans
//! administrative commands out to independently running listener loops, how a
//! loop multiplexes inbound datagrams against commands, and how the calls
//! synchronize with loop completion.  The asynchronous plumbing (sockets,
//! channels, tasks) lives outside; here every decision is a function from
//! state and event to next state and action, with a proved contract.

pub mod allocation;
pub mod listener;
pub mod nonce;
pub mod server;
pub mod types;

pub use server::Server;
pub use server::ServerConfig;
pub use types::Error;
pub use types::FiveTuple;
pub use types::TransportAddr;
