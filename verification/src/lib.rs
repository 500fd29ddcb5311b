//! A typed client for one vendor's mobile-backend REST API. Each method of
//! [`api::ApiClient`] builds the complete request for one endpoint — path,
//! query, the fixed mobile-app header fingerprint, and the JSON body — as a
//! plain [`envelope::RequestEnvelope`]; the surrounding application sends it
//! and hands the reply text to the decoders in [`types::response`]. The JSON
//! trees, their wire text and the typed schemas all carry proofs, up to
//! round-trip laws: decoding an encoded value gives the value back.
pub mod api;
pub mod codec;
pub mod envelope;
pub mod error;
pub mod json;
pub mod numbers;
pub mod schema;
pub mod strutil;
pub mod text;
pub mod types;

pub use api::ApiClient;
pub use envelope::ClientResponse;
pub use error::ClientError;

use vstd::prelude::*;

verus! {

/// What every call returns.
pub type ClientResult<T> = Result<T, ClientError>;

} // verus!
