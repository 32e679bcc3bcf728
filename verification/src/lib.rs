//! Data and protocol layer of a client for the Electrum JSON-RPC interface:
//! request framing, typed decoding of the server's replies and notifications,
//! the script-hash addressing scheme and the error taxonomy.
//!
//! Nothing here opens a connection or keeps state between calls. A caller
//! builds a [`Request`], sends its text, parses what comes back with
//! [`json::parse`] and hands the payload to the decoder of the reply it
//! expects.

pub mod error;
pub mod header;
pub mod hex;
pub mod json;
pub mod notification;
pub mod request;
pub mod response;
pub mod script_hash;

pub use error::Error;
pub use header::{BlockHeader, ConsensusError};
pub use hex::HexError;
pub use json::JsonError;
pub use notification::{HeaderNotification, ScriptNotification};
pub use request::{Param, Request};
pub use response::{
    GetBalanceRes, GetHeadersRes, GetHistoryRes, GetMerkleRes, ListUnspentRes, ServerFeaturesRes,
};
pub use script_hash::{to_script_hash, ScriptHash, ScriptStatus, ToElectrumScriptHash, Txid};
