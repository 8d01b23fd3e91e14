//! The protocol names and timeouts that every node of the network is
//! configured with.
use vstd::prelude::*;

verus! {

/// Protocol name of the identify behaviour.
pub const IDENTIFY_PROTOCOL: &'static str = "/wholesum/identify/1.0";

/// Protocol name of the Kademlia behaviour.
pub const KADEMLIA_PROTOCOL: &'static str = "/wholesum/kad/1.0";

/// Protocol name of the request-response behaviour that carries the
/// protocol messages.
pub const REQUEST_RESPONSE_PROTOCOL: &'static str = "/wholesum/req_resp/1.0";

/// Protocol name of the blob-transfer behaviour.
pub const BLOB_TRANSFER_PROTOCOL: &'static str = "/wholesum/blob_transfer/1.0";

/// Seconds between gossipsub heartbeats.
pub const GOSSIPSUB_HEARTBEAT_SECS: u64 = 10;

/// Seconds after which a blob-transfer request times out.
pub const BLOB_REQUEST_TIMEOUT_SECS: u64 = 60;

/// Seconds after which a Kademlia query times out.
pub const KADEMLIA_QUERY_TIMEOUT_SECS: u64 = 300;

/// Seconds after which an idle connection is closed.
pub const IDLE_CONNECTION_TIMEOUT_SECS: u64 = 60;

/// Seconds that a QUIC handshake may take.
pub const QUIC_HANDSHAKE_TIMEOUT_SECS: u64 = 20;

} // verus!
