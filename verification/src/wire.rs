//! The flat wire-message shapes the remote query service accepts.
//!
//! Each struct mirrors the remote schema's request message field for field,
//! as plain values; the transport layer encodes them. Heights are carried
//! out-of-band (as a native height integer or call metadata), never as a
//! message field.

use vstd::prelude::*;

verus! {

/// Wire pagination sub-message of every list query.
#[derive(Clone, Debug)]
pub struct RawPageRequest {
    pub key: Vec<u8>,
    pub offset: u64,
    pub limit: u64,
    pub count_total: bool,
    pub reverse: bool,
}

/// Lists every client state; scoped by nothing.
#[derive(Clone, Debug)]
pub struct RawQueryClientStatesRequest {
    pub pagination: Option<RawPageRequest>,
}

/// Lists the consensus states of one client.
#[derive(Clone, Debug)]
pub struct RawQueryConsensusStatesRequest {
    pub client_id: String,
    pub pagination: Option<RawPageRequest>,
}

/// Lists every connection; scoped by nothing.
#[derive(Clone, Debug)]
pub struct RawQueryConnectionsRequest {
    pub pagination: Option<RawPageRequest>,
}

/// Lists the connections of one client.
#[derive(Clone, Debug)]
pub struct RawQueryClientConnectionsRequest {
    pub client_id: String,
}

/// Lists the channels on one connection.
#[derive(Clone, Debug)]
pub struct RawQueryConnectionChannelsRequest {
    pub connection: String,
    pub pagination: Option<RawPageRequest>,
}

/// Lists every channel; scoped by nothing.
#[derive(Clone, Debug)]
pub struct RawQueryChannelsRequest {
    pub pagination: Option<RawPageRequest>,
}

/// Asks for the client state a channel runs against.
#[derive(Clone, Debug)]
pub struct RawQueryChannelClientStateRequest {
    pub port_id: String,
    pub channel_id: String,
}

/// Lists the packet commitments on one channel end.
#[derive(Clone, Debug)]
pub struct RawQueryPacketCommitmentsRequest {
    pub port_id: String,
    pub channel_id: String,
    pub pagination: Option<RawPageRequest>,
}

/// Asks which of the given packets a channel end has not yet received.
#[derive(Clone, Debug)]
pub struct RawQueryUnreceivedPacketsRequest {
    pub port_id: String,
    pub channel_id: String,
    pub packet_commitment_sequences: Vec<u64>,
}

/// Lists the packet acknowledgements on one channel end, optionally narrowed
/// to the given commitment sequences.
#[derive(Clone, Debug)]
pub struct RawQueryPacketAcknowledgementsRequest {
    pub port_id: String,
    pub channel_id: String,
    pub pagination: Option<RawPageRequest>,
    pub packet_commitment_sequences: Vec<u64>,
}

/// Asks which of the given acknowledgements a channel end has not yet seen.
#[derive(Clone, Debug)]
pub struct RawQueryUnreceivedAcksRequest {
    pub port_id: String,
    pub channel_id: String,
    pub packet_ack_sequences: Vec<u64>,
}

/// Asks for the next receive sequence number of a channel end.
#[derive(Clone, Debug)]
pub struct RawQueryNextSequenceReceiveRequest {
    pub port_id: String,
    pub channel_id: String,
}

} // verus!
