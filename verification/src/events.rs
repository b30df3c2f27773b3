//! Event-anchored query descriptors: requests built from observed chain
//! events rather than current state, and the cross-chain query request
//! derived from an event that references another chain.

use vstd::prelude::*;

use crate::error::RequestError;
use crate::height::{ChainHeight, QueryHeight};
use crate::hexpath::{hex_bytes_of, hex_decode, is_hex_seq, utf8_lossy_of, utf8_lossy_to_string};
use crate::identifiers::{ChannelId, ClientId, PortId, Sequence};

verus! {

/// The packet or client lifecycle event kind a historical query looks for.
#[derive(Clone, Copy, Debug, PartialEq, Eq, Structural)]
pub enum WithBlockDataType {
    CreateClient,
    UpdateClient,
    SendPacket,
    WriteAck,
}

/// A payload carried by an observed event instructing a query on another
/// chain. Its fields are already display-formatted strings: the remote
/// cross-chain interface is string-typed.
#[derive(Clone, Debug)]
pub struct CrossChainQueryPacket {
    pub chain_id: String,
    pub id: String,
    pub path: String,
    pub height: String,
}

/// The slice of a chain event this core reads: either the event carries a
/// cross-chain query payload, or it is an event of some other kind.
#[derive(Clone, Debug)]
pub enum IbcEvent {
    CrossChainQuery(CrossChainQueryPacket),
    Other,
}

impl IbcEvent {
    /// The cross-chain query payload, if this event carries one.
    pub fn cross_chain_query_packet(&self) -> (r: Option<&CrossChainQueryPacket>)
        ensures
            self matches IbcEvent::CrossChainQuery(p) ==> (r matches Some(q) && *q == p),
            !(self is CrossChainQuery) ==> r is None,
    {
        match self {
            IbcEvent::CrossChainQuery(packet) => Some(packet),
            IbcEvent::Other => None,
        }
    }
}

/// An event as observed on the chain, together with the height it was
/// observed at.
#[derive(Clone, Debug)]
pub struct IbcEventWithHeight {
    pub event: IbcEvent,
    pub height: ChainHeight,
}

/// A request, derived from an observed event, asking another chain for the
/// state that event references. All four fields are display-formatted
/// strings.
#[derive(Clone, Debug, Eq)]
pub struct CrossChainQueryRequest {
    pub chain_id: String,
    pub id: String,
    pub path: String,
    pub height: String,
}

impl PartialEq for CrossChainQueryRequest {
    fn eq(&self, other: &CrossChainQueryRequest) -> (r: bool) {
        self.chain_id == other.chain_id && self.id == other.id && self.path == other.path
            && self.height == other.height
    }
}

impl vstd::std_specs::cmp::PartialEqSpecImpl for CrossChainQueryRequest {
    open spec fn obeys_eq_spec() -> bool {
        true
    }

    open spec fn eq_spec(&self, other: &CrossChainQueryRequest) -> bool {
        self.chain_id@ == other.chain_id@ && self.id@ == other.id@ && self.path@ == other.path@
            && self.height@ == other.height@
    }
}

impl CrossChainQueryRequest {
    /// Builds the request from an observed event. Fails with
    /// `InvalidTypeConversion` exactly when the event carries no cross-chain
    /// query payload; otherwise copies the payload's four fields verbatim.
    pub fn try_from(event: &IbcEventWithHeight) -> (r: Result<
        CrossChainQueryRequest,
        RequestError,
    >)
        ensures
            event.event matches IbcEvent::CrossChainQuery(p) ==> (r matches Ok(q)
                && q.chain_id@ == p.chain_id@ && q.id@ == p.id@ && q.path@ == p.path@
                && q.height@ == p.height@),
            !(event.event is CrossChainQuery) ==> (r matches Err(e) && e
                == RequestError::InvalidTypeConversion),
    {
        match event.event.cross_chain_query_packet() {
            Some(packet) => Ok(
                CrossChainQueryRequest {
                    chain_id: packet.chain_id.clone(),
                    id: packet.id.clone(),
                    path: packet.path.clone(),
                    height: packet.height.clone(),
                },
            ),
            None => Err(RequestError::InvalidTypeConversion),
        }
    }

    /// Best-effort decode of the hex path into text, for diagnostics:
    /// `Some` exactly when the path is well-formed hex, `None` on any
    /// decoding failure — never an error.
    pub fn decode_path_or_none(&self) -> (r: Option<String>)
        ensures
            r is Some <==> is_hex_seq(self.path@),
            r matches Some(s) ==> s@ == utf8_lossy_of(hex_bytes_of(self.path@)),
    {
        match hex_decode(self.path.as_str()) {
            Ok(bytes) => Some(utf8_lossy_to_string(&bytes)),
            Err(_) => None,
        }
    }
}

/// A raw transaction digest, identifying the transaction whose events are
/// wanted.
#[derive(Clone, Debug)]
pub struct QueryTxHash(pub Vec<u8>);

/// Asks for a packet event, identified by `event_id`, on a specific channel
/// pair and sequence set, in the chain context at `height`.
#[derive(Clone, Debug)]
pub struct QueryPacketEventDataRequest {
    pub event_id: WithBlockDataType,
    pub source_channel_id: ChannelId,
    pub source_port_id: PortId,
    pub destination_channel_id: ChannelId,
    pub destination_port_id: PortId,
    pub sequences: Vec<Sequence>,
    pub height: QueryHeight,
}

/// Asks for a single client event, identified by `event_id`, for
/// `client_id`, searching the window anchored at `query_height`.
#[derive(Clone, Debug)]
pub struct QueryClientEventRequest {
    pub query_height: QueryHeight,
    pub event_id: WithBlockDataType,
    pub client_id: ClientId,
    pub consensus_height: ChainHeight,
}

/// A historical-event query, dispatched by kind: a packet event, a client
/// event, or every event of one transaction.
#[derive(Clone, Debug)]
pub enum QueryTxRequest {
    Packet(QueryPacketEventDataRequest),
    Client(QueryClientEventRequest),
    Transaction(QueryTxHash),
}

/// A block-level event query. Only packet events are meaningful at block
/// granularity, so this narrows `QueryTxRequest` to its packet variant.
#[derive(Clone, Debug)]
pub enum QueryBlockRequest {
    Packet(QueryPacketEventDataRequest),
}

} // verus!
