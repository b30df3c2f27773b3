//! Typed, height-anchored query requests for a proof-carrying chain query
//! service, together with their deterministic projection into the flat wire
//! messages that the remote service accepts.

use vstd::prelude::*;

pub mod error;
pub mod events;
pub mod height;
pub mod hexpath;
pub mod identifiers;
pub mod pagination;
pub mod requests;
pub mod text;
pub mod wire;

verus! {

pub use crate::error::RequestError;
pub use crate::events::{CrossChainQueryPacket, CrossChainQueryRequest, IbcEvent,
    IbcEventWithHeight, QueryBlockRequest, QueryClientEventRequest,
    QueryPacketEventDataRequest, QueryTxHash, QueryTxRequest, WithBlockDataType};
pub use crate::height::{AsciiMetadataValue, ChainHeight, QueryHeight};
pub use crate::identifiers::{ChannelId, ClientId, ConnectionId, PortId, Sequence};
pub use crate::pagination::PageRequest;
pub use crate::requests::{IncludeProof, QueryChannelClientStateRequest, QueryChannelRequest,
    QueryChannelsRequest, QueryClientConnectionsRequest, QueryClientStateRequest,
    QueryClientStatesRequest, QueryConnectionChannelsRequest, QueryConnectionRequest,
    QueryConnectionsRequest, QueryConsensusStateRequest, QueryConsensusStatesRequest,
    QueryHostConsensusStateRequest, QueryNextSequenceReceiveRequest,
    QueryPacketAcknowledgementRequest, QueryPacketAcknowledgementsRequest,
    QueryPacketCommitmentRequest, QueryPacketCommitmentsRequest, QueryPacketReceiptRequest,
    QueryUnreceivedAcksRequest, QueryUnreceivedPacketsRequest,
    QueryUpgradedClientStateRequest, QueryUpgradedConsensusStateRequest};

} // verus!
