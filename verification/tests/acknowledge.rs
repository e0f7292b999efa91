use ics721::ack::{ack_fail, ack_success};
use ics721::acknowledge::{
    acknowledge_packet,
    commit_transfer,
    handle_packet_fail,
    ibc_packet_ack,
    ibc_packet_timeout,
    TIMEOUT_ERROR,
};
use ics721::endpoint::IbcEndpoint;
use ics721::error::ContractError;
use ics721::msg::{
    attr,
    Dispatch,
    Operation,
    ReplyOn,
    Response,
    SubMsg,
    FAILURE_RESPONSE_FAILURE_REPLY_ID,
};
use ics721::packet::NonFungibleTokenPacketData;
use ics721::state::State;

fn local() -> IbcEndpoint {
    IbcEndpoint { port_id: "wasm.local".to_string(), channel_id: "channel-9".to_string() }
}

fn sent() -> NonFungibleTokenPacketData {
    NonFungibleTokenPacketData {
        classId: "cats".to_string(),
        classUri: None,
        classData: None,
        tokenIds: vec!["1".to_string(), "2".to_string(), "3".to_string()],
        tokenUris: Some(vec![
            "https://metadata-url.com/my-metadata1".to_string(),
            "https://metadata-url.com/my-metadata2".to_string(),
            "https://metadata-url.com/my-metadata3".to_string(),
        ]),
        tokenData: None,
        sender: "local-sender".to_string(),
        receiver: "remote-rcpt".to_string(),
        memo: None,
    }
}

fn key(class_id: &str, token_id: &str) -> (String, String) {
    (class_id.to_string(), token_id.to_string())
}

fn ready() -> State {
    let mut state = State::new(1, None);
    state.channels.save("channel-9".to_string(), "escrow-9".to_string());
    state.channels.save("channel-1".to_string(), "escrow-1".to_string());
    state.class_id_to_nft_contract.save("cats".to_string(), "collection-addr".to_string());
    state
}

fn withdrawal(token_id: &str) -> SubMsg {
    SubMsg {
        id: FAILURE_RESPONSE_FAILURE_REPLY_ID,
        msg: Dispatch::Single(Operation::EscrowWithdraw {
            escrow: "escrow-9".to_string(),
            nft_address: "collection-addr".to_string(),
            token_id: token_id.to_string(),
            receiver: "local-sender".to_string(),
        }),
        reply_on: ReplyOn::Error,
    }
}

fn refund(error: &str) -> Response {
    Response {
        messages: vec![withdrawal("1"), withdrawal("2"), withdrawal("3")],
        attributes: vec![
            attr("method", "handle_packet_fail"),
            attr("token_ids", "[\"1\", \"2\", \"3\"]"),
            attr("class_id", "cats"),
            attr("escrow", "escrow-9"),
            attr("channel_id", "channel-9"),
            attr("address_refunded", "local-sender"),
            attr("error", error),
        ],
        data: None,
    }
}

#[test]
fn a_failure_returns_each_token_from_the_source_escrow() {
    let state = ready();
    assert_eq!(handle_packet_fail(&state, &local(), &Ok(sent()), "bad coin"), Ok(refund("bad coin")));
}

#[test]
fn a_timeout_refunds_as_a_failure_does() {
    let mut state = ready();
    let timed_out = ibc_packet_timeout(&state, &local(), &Ok(sent())).unwrap();
    assert_eq!(TIMEOUT_ERROR, "timeout");
    assert_eq!(timed_out, refund("timeout"));

    let refused = ibc_packet_ack(
        &mut state,
        &local(),
        &ack_fail("receiver is not a valid address").unwrap(),
        &Ok(sent()),
    )
    .unwrap();
    assert_eq!(refused, refund("receiver is not a valid address"));
    assert_eq!(timed_out.messages, refused.messages);
    assert_eq!(timed_out.data, refused.data);

    // neither records the transfer
    assert!(!state.outgoing_class_token_to_channel.has(&key("cats", "1")));
}

#[test]
fn a_failure_on_an_unknown_channel_is_an_error() {
    let mut state = State::new(1, None);
    state.class_id_to_nft_contract.save("cats".to_string(), "collection-addr".to_string());
    let unknown = ContractError::UnknownChannel { channel: "channel-9".to_string() };
    assert_eq!(handle_packet_fail(&state, &local(), &Ok(sent()), "x"), Err(unknown.clone()));
    assert_eq!(ibc_packet_timeout(&state, &local(), &Ok(sent())), Err(unknown.clone()));
    // the channel is looked up before the packet is
    assert_eq!(
        handle_packet_fail(&state, &local(), &Err("eof".to_string()), "x"),
        Err(unknown)
    );
}

#[test]
fn a_failure_needs_the_packet_and_the_class() {
    let mut state = State::new(1, None);
    state.channels.save("channel-9".to_string(), "escrow-9".to_string());
    assert_eq!(
        handle_packet_fail(&state, &local(), &Err("eof".to_string()), "x"),
        Err(ContractError::Decode { reason: "eof".to_string() })
    );
    assert_eq!(
        handle_packet_fail(&state, &local(), &Ok(sent()), "x"),
        Err(ContractError::NoNftContractForClassId { class_id: "cats".to_string() })
    );
}

#[test]
fn success_commits_the_transfer() {
    let mut state = ready();
    let response = ibc_packet_ack(&mut state, &local(), &ack_success(), &Ok(sent())).unwrap();
    assert_eq!(
        response,
        Response {
            messages: vec![],
            attributes: vec![
                attr("method", "acknowledge"),
                attr("sender", "local-sender"),
                attr("receiver", "remote-rcpt"),
                attr("classId", "cats"),
                attr("token_ids", "[\"1\", \"2\", \"3\"]"),
            ],
            data: None,
        }
    );
    for token_id in ["1", "2", "3"] {
        assert_eq!(
            state.outgoing_class_token_to_channel.may_load(&key("cats", token_id)),
            Some(&"channel-9".to_string())
        );
    }
    assert!(!state.outgoing_class_token_to_channel.has(&key("cats", "4")));
    assert!(!state.outgoing_class_token_to_channel.has(&key("dogs", "1")));
}

#[test]
fn a_voucher_that_goes_home_leaves_the_ledgers() {
    let mut state = ready();
    state.incoming_class_token_to_channel.save(key("cats", "1"), "channel-9".to_string());
    state.token_metadata.save(key("cats", "1"), Some(vec![1, 2, 3]));
    state.incoming_class_token_to_channel.save(key("cats", "9"), "channel-9".to_string());
    state.token_metadata.save(key("cats", "9"), None);

    commit_transfer(&mut state, &local(), &sent());

    // token 1 had arrived from elsewhere: it has gone back
    assert!(!state.incoming_class_token_to_channel.has(&key("cats", "1")));
    assert!(!state.token_metadata.has(&key("cats", "1")));
    assert!(!state.outgoing_class_token_to_channel.has(&key("cats", "1")));
    // tokens 2 and 3 are this chain's own
    assert_eq!(
        state.outgoing_class_token_to_channel.may_load(&key("cats", "2")),
        Some(&"channel-9".to_string())
    );
    assert_eq!(
        state.outgoing_class_token_to_channel.may_load(&key("cats", "3")),
        Some(&"channel-9".to_string())
    );
    // token 9 was not in the packet
    assert!(state.incoming_class_token_to_channel.has(&key("cats", "9")));
    assert_eq!(state.token_metadata.may_load(&key("cats", "9")), Some(&None));
}

#[test]
fn an_unreadable_acknowledgement_changes_nothing() {
    let mut state = ready();
    assert_eq!(
        ibc_packet_ack(&mut state, &local(), b"{\"result\":\"MQ==\"}", &Ok(sent())),
        Err(ContractError::InvalidAcknowledgement)
    );
    assert_eq!(
        ibc_packet_ack(&mut state, &local(), b"", &Ok(sent())),
        Err(ContractError::InvalidAcknowledgement)
    );
    assert!(!state.outgoing_class_token_to_channel.has(&key("cats", "1")));
}

#[test]
fn success_for_an_undecodable_packet_is_an_error() {
    let mut state = ready();
    assert_eq!(
        acknowledge_packet(&mut state, &local(), &Err("eof".to_string()), None),
        Err(ContractError::Decode { reason: "eof".to_string() })
    );
    assert_eq!(
        acknowledge_packet(&mut state, &local(), &Ok(sent()), Some("boom".to_string())),
        Ok(refund("boom"))
    );
}

#[test]
fn debug_list_escapes_what_it_quotes() {
    let state = ready();
    let mut packet = sent();
    packet.tokenIds = vec!["a\"b".to_string()];
    let response = handle_packet_fail(&state, &local(), &Ok(packet), "x").unwrap();
    assert_eq!(response.attributes[1], attr("token_ids", "[\"a\\\"b\"]"));
    assert_eq!(response.messages.len(), 1);
}
