//! Session layer of a WebTransport client: several logical channels, each
//! opened by an init/ack handshake, share one connection.
//!
//! The library holds the decisions of that layer as verified state machines.
//! A driver performs the network operations that a machine asks for and hands
//! back what the transport answered.
//!
//! - `client`: the client with its session and channels, and the handles for
//!   sending and closing.
//! - `session`: what a client holds and how each operation changes it, as
//!   mathematics; `laws`: what follows for every session.
//! - `handshake`: the handshake of one channel; `envelope`: its two JSON
//!   envelopes; `json`: the calls into `serde_json` behind them.
//! - `channel`, `category`, `transport`, `error`, `text`: the vocabulary.
//! - `framing`: length-prefixed messages, for transports that do not keep the
//!   boundaries of the writes.
pub mod text;
pub mod category;
pub mod json;
pub mod envelope;
pub mod transport;
pub mod framing;
pub mod error;
pub mod handshake;
pub mod channel;
pub mod session;
pub mod client;
pub mod laws;
