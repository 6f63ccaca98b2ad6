//! Summaries of partially signed Bitcoin transactions (BIP-174).
//!
//! A PSBT arrives as base64 text. The library decodes it, reads the unsigned
//! transaction it carries, finds the output that each input spends, derives
//! the addresses involved for a chosen network, and computes the implied fee.

pub mod address;
pub mod decode;
pub mod document;
pub mod encoding;
pub mod error;
pub mod fee;
pub mod network;
pub mod resolver;
pub mod summary;

pub use address::{address_from_script, classify_script, Address, ScriptTemplate};
pub use document::{InputUtxos, OutPoint, PsbtDocument, TxOut, UnsignedTransaction};
pub use encoding::decode_base64;
pub use error::PsbtError;
pub use network::Network;
pub use resolver::ResolvedUtxo;
pub use summary::{parse_psbt, parse_request, Payment, Recipient, Summary};
