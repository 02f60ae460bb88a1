//! The connection layer of a peer-to-peer node: the wire format of its
//! messages, the channel that owns one connection, the dispatch of incoming
//! messages to subscribers, the planning of outbound connections and the
//! decisions of the onion-routed transport.  Beside it stand the values that
//! the messages of such a node carry: keys, what mint and burn proofs
//! reveal, and the bit arithmetic of the even-bits lookup.
//!
//! The library performs no I/O.  Where a stream, a timer or a service is
//! needed, the library says what to do next and is told what happened.
//! Every function states its result as a contract over mathematical values.
//! The few calls into other crates are made by small functions whose
//! contracts are taken on trust; each says so where it stands.
//!
//! - `varint`, `wire`, `frame`: the wire format.
//! - `dispatch`: the registry of commands and subscribers.
//! - `channel`: one connection, its receive loop, its stop and ban.
//! - `address`, `transport`, `connector`: from a URL to a plan and a channel.
//! - `tor`: the onion-routed transport.
//! - `session`, `hosts`, `error`: what the layer shares with its owner.
//! - `pallas`, `keypair`, `mint_proof`, `burn_proof`: keys and revealed values.
//! - `even_bits`, `editbox`, `text`: bit spreading, key events, text comparison.

pub mod address;
pub mod burn_proof;
pub mod channel;
pub mod connector;
pub mod dispatch;
pub mod editbox;
pub mod error;
pub mod even_bits;
pub mod frame;
pub mod hosts;
pub mod keypair;
pub mod mint_proof;
pub mod pallas;
pub mod session;
pub mod text;
pub mod tor;
pub mod transport;
pub mod varint;
pub mod wire;
