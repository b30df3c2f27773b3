use chain_requests::{
    ChainHeight, ChannelId, ClientId, CrossChainQueryPacket, CrossChainQueryRequest, IbcEvent,
    IbcEventWithHeight, PortId, QueryBlockRequest, QueryClientEventRequest, QueryHeight,
    QueryPacketEventDataRequest, QueryTxHash, QueryTxRequest, RequestError, Sequence,
    WithBlockDataType,
};

fn sample_packet() -> CrossChainQueryPacket {
    CrossChainQueryPacket {
        chain_id: String::from("chain-b"),
        id: String::from("query-1"),
        path: String::from("68656c6c6f"),
        height: String::from("55"),
    }
}

fn sample_request() -> CrossChainQueryRequest {
    let ev = IbcEventWithHeight {
        event: IbcEvent::CrossChainQuery(sample_packet()),
        height: ChainHeight::new(0, 9),
    };
    CrossChainQueryRequest::try_from(&ev).unwrap()
}

#[test]
fn try_from_event_with_payload_copies_fields() {
    let req = sample_request();
    assert_eq!(req.chain_id, "chain-b");
    assert_eq!(req.id, "query-1");
    assert_eq!(req.path, "68656c6c6f");
    assert_eq!(req.height, "55");
}

#[test]
fn try_from_event_without_payload_fails() {
    let ev = IbcEventWithHeight { event: IbcEvent::Other, height: ChainHeight::new(0, 9) };
    assert_eq!(
        CrossChainQueryRequest::try_from(&ev).unwrap_err(),
        RequestError::InvalidTypeConversion
    );
}

#[test]
fn cross_chain_query_packet_accessor() {
    let ev = IbcEvent::CrossChainQuery(sample_packet());
    assert!(ev.cross_chain_query_packet().is_some());
    assert!(IbcEvent::Other.cross_chain_query_packet().is_none());
}

#[test]
fn decode_path_valid_hex() {
    let req = sample_request();
    assert_eq!(req.decode_path_or_none(), Some(String::from("hello")));
}

#[test]
fn decode_path_invalid_characters() {
    let mut req = sample_request();
    req.path = String::from("not-hex!");
    assert_eq!(req.decode_path_or_none(), None);
}

#[test]
fn decode_path_odd_length() {
    let mut req = sample_request();
    req.path = String::from("616");
    assert_eq!(req.decode_path_or_none(), None);
}

#[test]
fn decode_path_empty() {
    let mut req = sample_request();
    req.path = String::new();
    assert_eq!(req.decode_path_or_none(), Some(String::new()));
}

#[test]
fn decode_path_upper_case_hex() {
    let mut req = sample_request();
    req.path = String::from("48490A");
    assert_eq!(req.decode_path_or_none(), Some(String::from("HI\n")));
}

#[test]
fn decode_path_non_utf8_is_lossy() {
    let mut req = sample_request();
    req.path = String::from("ff");
    assert_eq!(req.decode_path_or_none(), Some(String::from("\u{FFFD}")));
}

#[test]
fn cross_chain_request_equality() {
    let a = sample_request();
    let b = a.clone();
    assert_eq!(a, b);
    let mut c = a.clone();
    c.path = String::from("00");
    assert_ne!(a, c);
}

#[test]
fn query_tx_request_kinds() {
    let tx = QueryTxRequest::Transaction(QueryTxHash(vec![0xde, 0xad, 0xbe, 0xef]));
    assert!(matches!(tx, QueryTxRequest::Transaction(_)));

    let client = QueryTxRequest::Client(QueryClientEventRequest {
        query_height: QueryHeight::Latest,
        event_id: WithBlockDataType::UpdateClient,
        client_id: ClientId(String::from("07-tendermint-0")),
        consensus_height: ChainHeight::new(1, 10),
    });
    assert!(matches!(client, QueryTxRequest::Client(_)));
}

#[test]
fn query_block_request_is_packet_only() {
    let packet = QueryPacketEventDataRequest {
        event_id: WithBlockDataType::SendPacket,
        source_channel_id: ChannelId(String::from("channel-0")),
        source_port_id: PortId(String::from("transfer")),
        destination_channel_id: ChannelId(String::from("channel-1")),
        destination_port_id: PortId(String::from("transfer")),
        sequences: vec![Sequence(1), Sequence(2)],
        height: QueryHeight::Latest,
    };
    let block = QueryBlockRequest::Packet(packet.clone());
    let QueryBlockRequest::Packet(inner) = block;
    assert_eq!(inner.sequences.len(), 2);
    assert!(matches!(
        QueryTxRequest::Packet(packet),
        QueryTxRequest::Packet(_)
    ));
}
