//! Single-instance launch coordination.
//!
//! Every launch of the application claims one well-known address. The first
//! to bind it is the owner and shows the window; every later launch is a
//! secondary, hands its payload of paths and URIs to the owner over the
//! channel, and exits. This library holds the decisions of that protocol and
//! their proofs. It does no input or output: whoever drives it binds,
//! connects, reads and writes, and reports back what happened.
//!
//! - `payload`, `queue`: the message, and the one way into the application.
//! - `wire`: the frame that carries a payload, and the greeting of an owner.
//! - `address`, `policy`, `error`: the address, the bounds, the error kinds.
//! - `claim`: claiming the address, stale claims included.
//! - `listener`: the role of this process and what it does with connections.
//! - `handoff`: sending from a secondary, with bounded retries and takeover.
//! - `delivery`: what holds of a payload from end to end.
//! - `sim`, `world`: the address in memory, and many launches contending
//!   for it.
//! - `launch`, `http`: what a launch does around its listener.

pub mod address;
pub mod claim;
pub mod delivery;
pub mod error;
pub mod handoff;
pub mod http;
pub mod launch;
pub mod listener;
pub mod payload;
pub mod policy;
pub mod queue;
pub mod sim;
pub mod text;
pub mod wire;
pub mod world;
