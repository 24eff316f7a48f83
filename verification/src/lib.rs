//! Control-plane bridge for an embedded vector-search engine.
//!
//! The engine itself (collections, indices, write-ahead log) is an external
//! collaborator; this crate holds the bridge logic around it: one-time
//! initialization of the shared engine state, strict decoding of boundary
//! text into operation descriptors, the fixed parameters each engine call is
//! issued with, and the flattening of rich results and errors into the
//! boundary's flat-text protocol.

pub mod bootstrap;
pub mod codec;
pub mod dispatch;
pub mod envelope;
