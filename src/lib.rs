//! Binary call dispatch for contract messages.
//!
//! - `call_data`: an incoming call is a four-byte little-endian selector
//!   followed by the encoded arguments.
//! - `codec`: argument types and how they decode from the parameter bytes.
//! - `api`: the host environment as plain values, and the primitives that
//!   read it or record effects in it.
//! - `exec_env`: the execution context, the contract state beside a handle
//!   on the environment.
//! - `msg_handler`: read-only and mutating handlers, and chains of them
//!   that route a call to the first handler with a matching selector.
pub mod api;
pub mod call_data;
pub mod codec;
pub mod exec_env;
pub mod msg_handler;
