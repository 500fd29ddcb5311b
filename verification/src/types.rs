//! The vendor's JSON shapes: request bodies under `request`, response
//! envelopes and their payloads under `response`. Every envelope shares the
//! form `{status: {...}, response: <payload or null>}`; an absent payload is
//! a valid state, not an error.
pub mod request;
pub mod response;
