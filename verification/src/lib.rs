//! A data-availability client: a uniform capability set for submitting
//! opaque blobs to an external ledger, with one backend that speaks an
//! authenticated JSON-RPC-style protocol against a UTXO-chain node.
//!
//! The logic of a dispatch — framing the blob as a lowercase hexadecimal
//! JSON request, and interpreting the transport's outcome into a version
//! handle or a two-member error taxonomy — is specified and verified here.
//! The network round trip between the two halves is left to the caller.

pub mod client;
pub mod hex;
