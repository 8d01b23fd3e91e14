//! Message types and byte-level framing for a peer-to-peer proving network:
//! the request and response frames of the blob-transfer protocol, the
//! content-derived identifiers of gossiped messages, and the protocol
//! names and timeouts the network is configured with.
pub mod blob_transfer;
pub mod gossip;
pub mod network;
pub mod protocol;
