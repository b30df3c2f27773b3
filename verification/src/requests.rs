//! The typed request catalog: one struct per queryable ledger object kind,
//! each carrying exactly the identifiers its query needs, plus — where the
//! query is height-anchored or list-shaped — a height selector and/or a
//! pagination descriptor.
//!
//! List and sequence-set requests project into a distinct wire message; the
//! projection is total (every wire field is assigned), infallible, and
//! lossless: identifiers keep their exact string form, the pagination
//! sub-message is copied untouched, and sequence lists keep order and count.
//! Single-item requests have no wire projection here on purpose: the
//! transport consumes their identifiers directly.

use vstd::prelude::*;

use crate::height::{ChainHeight, QueryHeight};
use crate::identifiers::{sequence_values, sequences_into_values, ChannelId, ClientId,
    ConnectionId, PortId, Sequence};
use crate::pagination::{pagination_into_raw, pagination_matches, PageRequest};
use crate::wire::{RawQueryChannelClientStateRequest, RawQueryChannelsRequest,
    RawQueryClientConnectionsRequest, RawQueryClientStatesRequest,
    RawQueryConnectionChannelsRequest, RawQueryConnectionsRequest,
    RawQueryConsensusStatesRequest, RawQueryNextSequenceReceiveRequest,
    RawQueryPacketAcknowledgementsRequest, RawQueryPacketCommitmentsRequest,
    RawQueryUnreceivedAcksRequest, RawQueryUnreceivedPacketsRequest};

verus! {

/// Whether a cryptographic inclusion proof must accompany the answer.
#[derive(Clone, Copy, Debug)]
pub enum IncludeProof {
    Yes,
    No,
}

/// Asks for one client's state at a height.
#[derive(Clone, Debug)]
pub struct QueryClientStateRequest {
    pub client_id: ClientId,
    pub height: QueryHeight,
}

/// Lists every client state.
#[derive(Clone, Debug)]
pub struct QueryClientStatesRequest {
    pub pagination: Option<PageRequest>,
}

impl QueryClientStatesRequest {
    /// Projects into the wire message, carrying the pagination over
    /// untouched.
    pub fn into_raw(self) -> (r: RawQueryClientStatesRequest)
        ensures
            pagination_matches(self.pagination, r.pagination),
    {
        RawQueryClientStatesRequest { pagination: pagination_into_raw(self.pagination) }
    }
}

/// Asks for one consensus state of one client, at a query height.
#[derive(Clone, Debug)]
pub struct QueryConsensusStateRequest {
    pub client_id: ClientId,
    pub consensus_height: ChainHeight,
    pub query_height: QueryHeight,
}

/// Asks for the client state the chain will upgrade to.
#[derive(Clone, Debug)]
pub struct QueryUpgradedClientStateRequest {
    /// Height at which the chain is scheduled to halt for the upgrade.
    pub upgrade_height: ChainHeight,
}

/// Asks for the consensus state the chain will upgrade to.
#[derive(Clone, Debug)]
pub struct QueryUpgradedConsensusStateRequest {
    /// Height at which the chain is scheduled to halt for the upgrade.
    pub upgrade_height: ChainHeight,
}

/// Lists the consensus states of one client.
#[derive(Clone, Debug)]
pub struct QueryConsensusStatesRequest {
    pub client_id: ClientId,
    pub pagination: Option<PageRequest>,
}

impl QueryConsensusStatesRequest {
    /// Projects into the wire message: the client identifier keeps its exact
    /// string form, the pagination is carried over untouched.
    pub fn into_raw(self) -> (r: RawQueryConsensusStatesRequest)
        ensures
            r.client_id@ == self.client_id.0@,
            pagination_matches(self.pagination, r.pagination),
    {
        RawQueryConsensusStatesRequest {
            client_id: self.client_id.0,
            pagination: pagination_into_raw(self.pagination),
        }
    }
}

/// Lists every connection.
#[derive(Clone, Debug)]
pub struct QueryConnectionsRequest {
    pub pagination: Option<PageRequest>,
}

impl QueryConnectionsRequest {
    /// Projects into the wire message, carrying the pagination over
    /// untouched.
    pub fn into_raw(self) -> (r: RawQueryConnectionsRequest)
        ensures
            pagination_matches(self.pagination, r.pagination),
    {
        RawQueryConnectionsRequest { pagination: pagination_into_raw(self.pagination) }
    }
}

/// Lists the connections of one client.
#[derive(Clone, Debug)]
pub struct QueryClientConnectionsRequest {
    pub client_id: ClientId,
}

impl QueryClientConnectionsRequest {
    /// Projects into the wire message: the client identifier keeps its exact
    /// string form.
    pub fn into_raw(self) -> (r: RawQueryClientConnectionsRequest)
        ensures
            r.client_id@ == self.client_id.0@,
    {
        RawQueryClientConnectionsRequest { client_id: self.client_id.0 }
    }
}

/// Asks for one connection end at a height.
#[derive(Clone, Debug)]
pub struct QueryConnectionRequest {
    pub connection_id: ConnectionId,
    pub height: QueryHeight,
}

/// Lists the channels on one connection.
#[derive(Clone, Debug)]
pub struct QueryConnectionChannelsRequest {
    pub connection_id: ConnectionId,
    pub pagination: Option<PageRequest>,
}

impl QueryConnectionChannelsRequest {
    /// Projects into the wire message: the connection identifier keeps its
    /// exact string form, the pagination is carried over untouched.
    pub fn into_raw(self) -> (r: RawQueryConnectionChannelsRequest)
        ensures
            r.connection@ == self.connection_id.0@,
            pagination_matches(self.pagination, r.pagination),
    {
        RawQueryConnectionChannelsRequest {
            connection: self.connection_id.0,
            pagination: pagination_into_raw(self.pagination),
        }
    }
}

/// Lists every channel.
#[derive(Clone, Debug)]
pub struct QueryChannelsRequest {
    pub pagination: Option<PageRequest>,
}

impl QueryChannelsRequest {
    /// Projects into the wire message, carrying the pagination over
    /// untouched.
    pub fn into_raw(self) -> (r: RawQueryChannelsRequest)
        ensures
            pagination_matches(self.pagination, r.pagination),
    {
        RawQueryChannelsRequest { pagination: pagination_into_raw(self.pagination) }
    }
}

/// Asks for one channel end at a height.
#[derive(Clone, Debug)]
pub struct QueryChannelRequest {
    pub port_id: PortId,
    pub channel_id: ChannelId,
    pub height: QueryHeight,
}

/// Asks for the client state a channel runs against.
#[derive(Clone, Debug)]
pub struct QueryChannelClientStateRequest {
    pub port_id: PortId,
    pub channel_id: ChannelId,
}

impl QueryChannelClientStateRequest {
    /// Projects into the wire message: both identifiers keep their exact
    /// string form.
    pub fn into_raw(self) -> (r: RawQueryChannelClientStateRequest)
        ensures
            r.port_id@ == self.port_id.0@,
            r.channel_id@ == self.channel_id.0@,
    {
        RawQueryChannelClientStateRequest {
            port_id: self.port_id.0,
            channel_id: self.channel_id.0,
        }
    }
}

/// Asks for the commitment of one packet, at a height.
#[derive(Clone, Debug)]
pub struct QueryPacketCommitmentRequest {
    pub port_id: PortId,
    pub channel_id: ChannelId,
    pub sequence: Sequence,
    pub height: QueryHeight,
}

/// Lists the packet commitments on one channel end.
#[derive(Clone, Debug)]
pub struct QueryPacketCommitmentsRequest {
    pub port_id: PortId,
    pub channel_id: ChannelId,
    pub pagination: Option<PageRequest>,
}

impl QueryPacketCommitmentsRequest {
    /// Projects into the wire message: both identifiers keep their exact
    /// string form, the pagination is carried over untouched.
    pub fn into_raw(self) -> (r: RawQueryPacketCommitmentsRequest)
        ensures
            r.port_id@ == self.port_id.0@,
            r.channel_id@ == self.channel_id.0@,
            pagination_matches(self.pagination, r.pagination),
    {
        RawQueryPacketCommitmentsRequest {
            port_id: self.port_id.0,
            channel_id: self.channel_id.0,
            pagination: pagination_into_raw(self.pagination),
        }
    }
}

/// Asks whether one packet was received, at a height.
#[derive(Clone, Debug)]
pub struct QueryPacketReceiptRequest {
    pub port_id: PortId,
    pub channel_id: ChannelId,
    pub sequence: Sequence,
    pub height: QueryHeight,
}

/// Asks which of the given packets a channel end has not yet received.
#[derive(Clone, Debug)]
pub struct QueryUnreceivedPacketsRequest {
    pub port_id: PortId,
    pub channel_id: ChannelId,
    pub packet_commitment_sequences: Vec<Sequence>,
}

impl QueryUnreceivedPacketsRequest {
    /// Projects into the wire message: identifiers keep their exact string
    /// form, and the sequence list maps to its numeric forms with order and
    /// count preserved.
    pub fn into_raw(self) -> (r: RawQueryUnreceivedPacketsRequest)
        ensures
            r.port_id@ == self.port_id.0@,
            r.channel_id@ == self.channel_id.0@,
            r.packet_commitment_sequences@ == sequence_values(
                self.packet_commitment_sequences@,
            ),
    {
        RawQueryUnreceivedPacketsRequest {
            port_id: self.port_id.0,
            channel_id: self.channel_id.0,
            packet_commitment_sequences: sequences_into_values(
                self.packet_commitment_sequences,
            ),
        }
    }
}

/// Asks for the acknowledgement of one packet, at a height.
#[derive(Clone, Debug)]
pub struct QueryPacketAcknowledgementRequest {
    pub port_id: PortId,
    pub channel_id: ChannelId,
    pub sequence: Sequence,
    pub height: QueryHeight,
}

/// Lists the packet acknowledgements on one channel end, optionally narrowed
/// to the given commitment sequences.
#[derive(Clone, Debug)]
pub struct QueryPacketAcknowledgementsRequest {
    pub port_id: PortId,
    pub channel_id: ChannelId,
    pub pagination: Option<PageRequest>,
    pub packet_commitment_sequences: Vec<Sequence>,
}

impl QueryPacketAcknowledgementsRequest {
    /// Projects into the wire message: identifiers keep their exact string
    /// form, the pagination is carried over untouched, and the sequence list
    /// maps to its numeric forms with order and count preserved.
    pub fn into_raw(self) -> (r: RawQueryPacketAcknowledgementsRequest)
        ensures
            r.port_id@ == self.port_id.0@,
            r.channel_id@ == self.channel_id.0@,
            pagination_matches(self.pagination, r.pagination),
            r.packet_commitment_sequences@ == sequence_values(
                self.packet_commitment_sequences@,
            ),
    {
        RawQueryPacketAcknowledgementsRequest {
            port_id: self.port_id.0,
            channel_id: self.channel_id.0,
            pagination: pagination_into_raw(self.pagination),
            packet_commitment_sequences: sequences_into_values(
                self.packet_commitment_sequences,
            ),
        }
    }
}

/// Asks which of the given acknowledgements a channel end has not yet seen.
#[derive(Clone, Debug)]
pub struct QueryUnreceivedAcksRequest {
    pub port_id: PortId,
    pub channel_id: ChannelId,
    pub packet_ack_sequences: Vec<Sequence>,
}

impl QueryUnreceivedAcksRequest {
    /// Projects into the wire message: identifiers keep their exact string
    /// form, and the sequence list maps to its numeric forms with order and
    /// count preserved.
    pub fn into_raw(self) -> (r: RawQueryUnreceivedAcksRequest)
        ensures
            r.port_id@ == self.port_id.0@,
            r.channel_id@ == self.channel_id.0@,
            r.packet_ack_sequences@ == sequence_values(self.packet_ack_sequences@),
    {
        RawQueryUnreceivedAcksRequest {
            port_id: self.port_id.0,
            channel_id: self.channel_id.0,
            packet_ack_sequences: sequences_into_values(self.packet_ack_sequences),
        }
    }
}

/// Asks for the next receive sequence number of a channel end, at a height.
#[derive(Clone, Debug)]
pub struct QueryNextSequenceReceiveRequest {
    pub port_id: PortId,
    pub channel_id: ChannelId,
    pub height: QueryHeight,
}

impl QueryNextSequenceReceiveRequest {
    /// Projects into the wire message: both identifiers keep their exact
    /// string form. The height travels out-of-band, so the message has no
    /// height field to set.
    pub fn into_raw(self) -> (r: RawQueryNextSequenceReceiveRequest)
        ensures
            r.port_id@ == self.port_id.0@,
            r.channel_id@ == self.channel_id.0@,
    {
        RawQueryNextSequenceReceiveRequest {
            port_id: self.port_id.0,
            channel_id: self.channel_id.0,
        }
    }
}

/// Asks for the queried chain's own consensus state at a height.
#[derive(Clone, Debug)]
pub struct QueryHostConsensusStateRequest {
    pub height: QueryHeight,
}

} // verus!
