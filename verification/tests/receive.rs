use ics721::ack::{ack_fail, ack_success};
use ics721::acknowledge::ibc_packet_ack;
use ics721::endpoint::IbcEndpoint;
use ics721::error::ContractError;
use ics721::execute::execute_callback;
use ics721::msg::{
    CallbackMsg,
    Dispatch,
    NewTokenInfo,
    NftContract,
    Operation,
    ReplyOn,
    Response,
    SubMsg,
    TransferInfo,
    ACK_AND_DO_NOTHING_REPLY_ID,
};
use ics721::packet::{Class, NonFungibleTokenPacketData, Token};
use ics721::receive::{
    classify,
    Env,
    ibc_packet_receive,
    into_submessage,
    is_redemption,
    receive_ibc_packet,
    ReceiveCallback,
    resolve_class_id,
};
use ics721::reply::{Completion, Reply, reply, SubMsgResult};
use ics721::state::State;
use ics721::store::Store;

fn endpoint(port_id: &str, channel_id: &str) -> IbcEndpoint {
    IbcEndpoint { port_id: port_id.to_string(), channel_id: channel_id.to_string() }
}

fn env() -> Env {
    Env {
        contract_address: "bridge".to_string(),
        canonical_address: vec![7u8; 20],
        cw721_checksum: vec![9u8; 32],
    }
}

fn strings(items: &[&str]) -> Vec<String> {
    items.iter().map(|s| s.to_string()).collect()
}

fn packet(class_id: &str, token_ids: &[&str], sender: &str, receiver: &str) -> NonFungibleTokenPacketData {
    NonFungibleTokenPacketData {
        classId: class_id.to_string(),
        classUri: None,
        classData: None,
        tokenIds: strings(token_ids),
        tokenUris: None,
        tokenData: None,
        sender: sender.to_string(),
        receiver: receiver.to_string(),
        memo: None,
    }
}

fn key(class_id: &str, token_id: &str) -> (String, String) {
    (class_id.to_string(), token_id.to_string())
}

fn attrs(pairs: &[(&str, &str)]) -> Vec<(String, String)> {
    pairs.iter().map(|(k, v)| (k.to_string(), v.to_string())).collect()
}

fn always(msg: Dispatch) -> SubMsg {
    SubMsg { id: ACK_AND_DO_NOTHING_REPLY_ID, msg, reply_on: ReplyOn::Always }
}

/// Tokens of `wasm.chainA/channel-7/cats` arrive on `channel-9` from a source
/// whose prefix does not match: they are created.
#[test]
fn fresh_tokens_are_created() {
    let mut state = State::new(1, None);
    let src = endpoint("wasm.remote", "channel-3");
    let dest = endpoint("wasm.local", "channel-9");
    let data = packet("wasm.chainA/channel-7/cats", &["1", "2", "3"], "A", "B");

    let response = receive_ibc_packet(&mut state, &env(), &src, &dest, &data, None).unwrap();

    let local_class = "wasm.local/channel-9/wasm.chainA/channel-7/cats";
    let expected = Response {
        messages: vec![always(Dispatch::Single(Operation::Callback(
            CallbackMsg::DoInstantiateAndMint {
                receiver: "B".to_string(),
                new_tokens: NewTokenInfo {
                    class: Class { id: local_class.to_string(), uri: None, data: None },
                    tokens: vec![
                        Token { id: "1".to_string(), uri: None, data: None },
                        Token { id: "2".to_string(), uri: None, data: None },
                        Token { id: "3".to_string(), uri: None, data: None },
                    ],
                },
            },
        )))],
        attributes: attrs(&[
            ("method", "receive_ibc_packet"),
            ("class_id", "wasm.chainA/channel-7/cats"),
            ("local_channel", "channel-9"),
            ("counterparty_channel", "channel-3"),
        ]),
        data: None,
    };
    assert_eq!(response, expected);

    for token_id in ["1", "2", "3"] {
        assert_eq!(
            state.incoming_class_token_to_channel.may_load(&key(local_class, token_id)),
            Some(&"channel-9".to_string())
        );
    }
    assert!(!state.incoming_class_token_to_channel.has(&key(local_class, "4")));
    assert!(!state.outgoing_class_token_to_channel.has(&key(local_class, "1")));
}

/// The work of a created packet completes, and the acknowledgement is success.
#[test]
fn created_tokens_are_acknowledged_with_success() {
    let done = reply(&Reply {
        id: ACK_AND_DO_NOTHING_REPLY_ID,
        result: SubMsgResult::Succeeded(None),
    })
    .unwrap();
    match done {
        Completion::Respond(response) => assert_eq!(response.data, Some(ack_success())),
        other => panic!("unexpected completion {:?}", other),
    }
}

/// Tokens that were sent out on `channel-9` and come back over it are redeemed
/// from that channel's escrow, and the ledger is cleaned up as the last step.
#[test]
fn returning_tokens_are_redeemed() {
    let mut state = State::new(1, None);
    let local = endpoint("wasm.local", "channel-9");
    let remote = endpoint("wasm.remote", "channel-3");

    // the tokens leave on channel-9 and the transfer is acknowledged
    let sent = packet("cats", &["1", "2", "3"], "A", "B");
    ibc_packet_ack(&mut state, &local, &ack_success(), &Ok(sent)).unwrap();
    for token_id in ["1", "2", "3"] {
        assert_eq!(
            state.outgoing_class_token_to_channel.may_load(&key("cats", token_id)),
            Some(&"channel-9".to_string())
        );
    }

    // they come back with the prefix of the other end
    let back = packet("wasm.remote/channel-3/cats", &["1", "2", "3"], "B", "A");
    let response = receive_ibc_packet(&mut state, &env(), &remote, &local, &back, None).unwrap();

    let keys = vec![key("cats", "1"), key("cats", "2"), key("cats", "3")];
    let expected = Response {
        messages: vec![always(Dispatch::Conjunction {
            operands: vec![
                Operation::Callback(CallbackMsg::BatchTransfer {
                    channel: "channel-9".to_string(),
                    receiver: "A".to_string(),
                    transfers: TransferInfo {
                        class_id: "cats".to_string(),
                        token_ids: strings(&["1", "2", "3"]),
                    },
                }),
                Operation::Callback(CallbackMsg::RedeemOutgoingChannelEntries(keys.clone())),
            ],
        })],
        attributes: attrs(&[
            ("method", "receive_ibc_packet"),
            ("class_id", "wasm.remote/channel-3/cats"),
            ("local_channel", "channel-9"),
            ("counterparty_channel", "channel-3"),
        ]),
        data: None,
    };
    assert_eq!(response, expected);

    // nothing is recorded on receipt: the entries go when the cleanup step runs
    assert!(state.outgoing_class_token_to_channel.has(&key("cats", "1")));
    assert!(!state.incoming_class_token_to_channel.has(&key("cats", "1")));
    execute_callback(&mut state, CallbackMsg::RedeemOutgoingChannelEntries(keys)).unwrap();
    for token_id in ["1", "2", "3"] {
        assert!(!state.outgoing_class_token_to_channel.has(&key("cats", token_id)));
    }
}

/// Two tokens and one URI: the packet is refused and nothing changes.
#[test]
fn mismatched_lengths_are_an_invalid_packet() {
    let mut state = State::new(1, None);
    let src = endpoint("wasm.remote", "channel-3");
    let dest = endpoint("wasm.local", "channel-9");
    let mut data = packet("cats", &["1", "2"], "A", "B");
    data.tokenUris = Some(strings(&["https://metadata-url.com/my-metadata1"]));

    assert_eq!(data.validate(), Err(ContractError::InvalidPacket));
    assert_eq!(
        receive_ibc_packet(&mut state, &env(), &src, &dest, &data, None),
        Err(ContractError::InvalidPacket)
    );

    let response = ibc_packet_receive(&mut state, &env(), &src, &dest, Ok(data), None);
    assert_eq!(
        response,
        Response {
            messages: vec![],
            attributes: attrs(&[("method", "ibc_packet_receive"), ("error", "invalid packet")]),
            data: Some(ack_fail("invalid packet").unwrap()),
        }
    );
    assert!(!state.incoming_class_token_to_channel.has(&key("wasm.local/channel-9/cats", "1")));
    assert!(!state.incoming_class_token_to_channel.has(&key("wasm.local/channel-9/cats", "2")));
}

#[test]
fn undecodable_packets_are_answered_with_a_failure() {
    let mut state = State::new(1, None);
    let src = endpoint("wasm.remote", "channel-3");
    let dest = endpoint("wasm.local", "channel-9");
    let response = ibc_packet_receive(
        &mut state,
        &env(),
        &src,
        &dest,
        Err("Error parsing into type packet: EOF while parsing a JSON value.".to_string()),
        None,
    );
    assert!(response.messages.is_empty());
    assert_eq!(
        response.data,
        Some(
            ack_fail("Error parsing into type packet: EOF while parsing a JSON value.").unwrap()
        )
    );
    assert_eq!(response.attributes[0], ("method".to_string(), "ibc_packet_receive".to_string()));
}

#[test]
fn an_error_that_reads_as_success_is_hidden() {
    let mut state = State::new(1, None);
    let src = endpoint("wasm.remote", "channel-3");
    let dest = endpoint("wasm.local", "channel-9");
    let response = ibc_packet_receive(&mut state, &env(), &src, &dest, Err("AQ==".to_string()), None);
    assert_ne!(response.data, Some(ack_success()));
    assert_eq!(
        response.data,
        Some(ack_fail(ics721::ack::ACK_ERROR_FALLBACK).unwrap())
    );
}

#[test]
fn empty_token_list_is_an_invalid_packet() {
    let mut state = State::new(1, None);
    let src = endpoint("wasm.remote", "channel-3");
    let dest = endpoint("wasm.local", "channel-9");
    let data = packet("cats", &[], "A", "B");
    assert_eq!(
        receive_ibc_packet(&mut state, &env(), &src, &dest, &data, None),
        Err(ContractError::InvalidPacket)
    );
    let mut data = packet("cats", &["1"], "A", "B");
    data.tokenData = Some(vec![]);
    assert_eq!(data.validate(), Err(ContractError::InvalidPacket));
    data.tokenData = Some(vec![vec![1, 2, 3]]);
    assert_eq!(data.validate(), Ok(()));
}

/// One token was sent out on this channel and one was not: the packet is
/// refused as a whole and nothing is recorded.
#[test]
fn mixed_packets_are_refused() {
    let mut state = State::new(1, None);
    let local = endpoint("wasm.local", "channel-9");
    let remote = endpoint("wasm.remote", "channel-3");
    state.outgoing_class_token_to_channel.save(key("cats", "1"), "channel-9".to_string());

    let back = packet("wasm.remote/channel-3/cats", &["1", "2"], "B", "A");
    assert_eq!(
        receive_ibc_packet(&mut state, &env(), &remote, &local, &back, None),
        Err(ContractError::InvalidTransferBothActions)
    );
    assert!(!state.incoming_class_token_to_channel.has(&key("cats", "2")));
    assert!(state.outgoing_class_token_to_channel.has(&key("cats", "1")));

    let response = ibc_packet_receive(&mut state, &env(), &remote, &local, Ok(back), None);
    assert_eq!(response.data, Some(ack_fail("invalid transfer: both actions").unwrap()));
    assert!(response.messages.is_empty());
}

#[test]
fn classification_over_all_ledger_states_of_two_tokens() {
    let class_id = "cats".to_string();
    let channel = "channel-9".to_string();
    let ids = strings(&["1", "2"]);
    // 0: no entry, 1: entry for this channel, 2: entry for another channel
    for first in 0..3 {
        for second in 0..3 {
            let mut outgoing: Store<(String, String), String> = Store::new();
            for (token_id, entry) in [("1", first), ("2", second)] {
                match entry {
                    1 => outgoing.save(key("cats", token_id), "channel-9".to_string()),
                    2 => outgoing.save(key("cats", token_id), "channel-1".to_string()),
                    _ => {}
                }
            }
            let expected = match (first == 1, second == 1) {
                (true, true) => Ok(true),
                (false, false) => Ok(false),
                _ => Err(ContractError::InvalidTransferBothActions),
            };
            assert_eq!(classify(&outgoing, true, &class_id, &ids, &channel), expected);
            // a class that is not returning never redeems
            assert_eq!(classify(&outgoing, false, &class_id, &ids, &channel), Ok(false));
        }
    }
}

#[test]
fn no_token_is_no_action() {
    let outgoing: Store<(String, String), String> = Store::new();
    assert_eq!(
        classify(&outgoing, true, &"cats".to_string(), &vec![], &"channel-9".to_string()),
        Err(ContractError::InvalidTransferNoAction)
    );
}

#[test]
fn a_token_redeems_only_on_the_channel_it_left_on() {
    let mut outgoing: Store<(String, String), String> = Store::new();
    outgoing.save(key("cats", "1"), "channel-9".to_string());
    let cats = "cats".to_string();
    let one = "1".to_string();
    assert!(is_redemption(&outgoing, true, &cats, &one, &"channel-9".to_string()));
    assert!(!is_redemption(&outgoing, true, &cats, &one, &"channel-1".to_string()));
    assert!(!is_redemption(&outgoing, false, &cats, &one, &"channel-9".to_string()));
    assert!(!is_redemption(&outgoing, true, &cats, &"2".to_string(), &"channel-9".to_string()));
    assert!(!is_redemption(&outgoing, true, &"dogs".to_string(), &one, &"channel-9".to_string()));
}

/// Sent out on `channel-9`, back on `channel-1`: a creation, and the outgoing
/// entry stays as it was.
#[test]
fn returning_on_another_channel_creates() {
    let mut state = State::new(1, None);
    let sent_on = endpoint("wasm.local", "channel-9");
    ibc_packet_ack(&mut state, &sent_on, &ack_success(), &Ok(packet("cats", &["1"], "A", "B")))
        .unwrap();

    let local = endpoint("wasm.local", "channel-1");
    let remote = endpoint("wasm.remote", "channel-3");
    let back = packet("wasm.remote/channel-3/cats", &["1"], "B", "A");
    let response = receive_ibc_packet(&mut state, &env(), &remote, &local, &back, None).unwrap();
    match &response.messages[0].msg {
        Dispatch::Single(Operation::Callback(CallbackMsg::DoInstantiateAndMint {
            receiver,
            new_tokens,
        })) => {
            assert_eq!(receiver, "A");
            assert_eq!(new_tokens.class.id, "cats");
            assert_eq!(new_tokens.tokens.len(), 1);
        }
        other => panic!("unexpected message {:?}", other),
    }
    assert_eq!(
        state.outgoing_class_token_to_channel.may_load(&key("cats", "1")),
        Some(&"channel-9".to_string())
    );
    assert_eq!(
        state.incoming_class_token_to_channel.may_load(&key("cats", "1")),
        Some(&"channel-1".to_string())
    );
}

#[test]
fn class_id_is_popped_or_pushed() {
    let src = endpoint("wasm.remote", "channel-3");
    let dest = endpoint("wasm.local", "channel-9");
    assert_eq!(
        resolve_class_id(&src, &dest, "wasm.remote/channel-3/cats"),
        ("cats".to_string(), true)
    );
    assert_eq!(
        resolve_class_id(&src, &dest, "cats"),
        ("wasm.local/channel-9/cats".to_string(), false)
    );
    assert_eq!(resolve_class_id(&src, &dest, ""), ("wasm.local/channel-9/".to_string(), false));
    assert_eq!(resolve_class_id(&src, &dest, "wasm.remote/channel-3/"), ("".to_string(), true));
}

#[test]
fn metadata_travels_with_each_token() {
    let mut state = State::new(1, None);
    let src = endpoint("wasm.remote", "channel-3");
    let dest = endpoint("wasm.local", "channel-9");
    let mut data = packet("cats", &["1", "2"], "A", "B");
    data.classUri = Some("https://metadata-url.com/my-metadata".to_string());
    data.classData = Some(vec![1, 2]);
    data.tokenUris = Some(strings(&[
        "https://metadata-url.com/my-metadata1",
        "https://metadata-url.com/my-metadata2",
    ]));
    data.tokenData = Some(vec![vec![10], vec![20, 21]]);
    data.memo = Some("hello".to_string());

    let response = receive_ibc_packet(&mut state, &env(), &src, &dest, &data, None).unwrap();
    assert_eq!(response.attributes[0], ("ics721_memo".to_string(), "hello".to_string()));
    assert_eq!(response.attributes.len(), 5);
    assert_eq!(
        response.messages[0].msg,
        Dispatch::Single(Operation::Callback(CallbackMsg::DoInstantiateAndMint {
            receiver: "B".to_string(),
            new_tokens: NewTokenInfo {
                class: Class {
                    id: "wasm.local/channel-9/cats".to_string(),
                    uri: Some("https://metadata-url.com/my-metadata".to_string()),
                    data: Some(vec![1, 2]),
                },
                tokens: vec![
                    Token {
                        id: "1".to_string(),
                        uri: Some("https://metadata-url.com/my-metadata1".to_string()),
                        data: Some(vec![10]),
                    },
                    Token {
                        id: "2".to_string(),
                        uri: Some("https://metadata-url.com/my-metadata2".to_string()),
                        data: Some(vec![20, 21]),
                    },
                ],
            },
        }))
    );
}

#[test]
fn steps_run_in_a_fixed_order() {
    let voucher = Operation::Callback(CallbackMsg::BatchTransfer {
        channel: "channel-9".to_string(),
        receiver: "A".to_string(),
        transfers: TransferInfo { class_id: "cats".to_string(), token_ids: strings(&["1"]) },
    });
    let callback = Operation::ReceiveCallback {
        target: "A".to_string(),
        nft_contract: NftContract::Registered("cats-contract".to_string()),
        msg: vec![1],
    };
    let proxy = Operation::IncomingProxy { proxy: "proxy".to_string() };
    let keys = vec![key("cats", "1")];

    // a single step stands on its own
    assert_eq!(
        into_submessage(voucher.clone(), None, None, None),
        always(Dispatch::Single(voucher.clone()))
    );
    // proxy, voucher, callback, cleanup
    assert_eq!(
        into_submessage(
            voucher.clone(),
            Some(callback.clone()),
            Some(keys.clone()),
            Some(proxy.clone())
        ),
        always(Dispatch::Conjunction {
            operands: vec![
                proxy.clone(),
                voucher.clone(),
                callback.clone(),
                Operation::Callback(CallbackMsg::RedeemOutgoingChannelEntries(keys)),
            ],
        })
    );
    assert_eq!(
        into_submessage(voucher.clone(), None, None, Some(proxy.clone())),
        always(Dispatch::Conjunction { operands: vec![proxy, voucher] })
    );
}

#[test]
fn proxy_and_callback_surround_the_creation() {
    let mut state = State::new(1, Some("proxy".to_string()));
    let src = endpoint("wasm.remote", "channel-3");
    let dest = endpoint("wasm.local", "channel-9");
    let data = packet("cats", &["1"], "A", "B");
    let callback = ReceiveCallback { msg: vec![5, 6], addr: None };
    let response =
        receive_ibc_packet(&mut state, &env(), &src, &dest, &data, Some(callback)).unwrap();
    match &response.messages[0].msg {
        Dispatch::Conjunction { operands } => {
            assert_eq!(operands.len(), 3);
            assert_eq!(operands[0], Operation::IncomingProxy { proxy: "proxy".to_string() });
            assert!(matches!(
                operands[1],
                Operation::Callback(CallbackMsg::DoInstantiateAndMint { .. })
            ));
            match &operands[2] {
                Operation::ReceiveCallback { target, nft_contract, msg } => {
                    assert_eq!(target, "B");
                    assert_eq!(msg, &vec![5, 6]);
                    let expected = ics721::address::get_instantiate2_address(
                        &[9u8; 32],
                        &[7u8; 20],
                        "wasm.local/channel-9/cats",
                    )
                    .unwrap();
                    assert_eq!(nft_contract, &NftContract::Derived(expected));
                }
                other => panic!("unexpected step {:?}", other),
            }
        }
        other => panic!("unexpected message {:?}", other),
    }
}

#[test]
fn callback_of_a_redemption_needs_the_registered_contract() {
    let mut state = State::new(1, None);
    let local = endpoint("wasm.local", "channel-9");
    let remote = endpoint("wasm.remote", "channel-3");
    state.outgoing_class_token_to_channel.save(key("cats", "1"), "channel-9".to_string());
    let back = packet("wasm.remote/channel-3/cats", &["1"], "B", "A");
    let callback = ReceiveCallback { msg: vec![], addr: Some("listener".to_string()) };

    assert_eq!(
        receive_ibc_packet(&mut state, &env(), &remote, &local, &back, Some(callback.clone())),
        Err(ContractError::NoNftContractForClassId { class_id: "cats".to_string() })
    );

    state.class_id_to_nft_contract.save("cats".to_string(), "cats-contract".to_string());
    let response =
        receive_ibc_packet(&mut state, &env(), &remote, &local, &back, Some(callback)).unwrap();
    match &response.messages[0].msg {
        Dispatch::Conjunction { operands } => {
            assert_eq!(operands.len(), 3);
            assert_eq!(
                operands[1],
                Operation::ReceiveCallback {
                    target: "listener".to_string(),
                    nft_contract: NftContract::Registered("cats-contract".to_string()),
                    msg: vec![],
                }
            );
            assert!(matches!(
                operands[2],
                Operation::Callback(CallbackMsg::RedeemOutgoingChannelEntries(_))
            ));
        }
        other => panic!("unexpected message {:?}", other),
    }
}

#[test]
fn callback_of_a_creation_needs_a_checksum_of_32_bytes() {
    let mut state = State::new(1, None);
    let src = endpoint("wasm.remote", "channel-3");
    let dest = endpoint("wasm.local", "channel-9");
    let data = packet("cats", &["1"], "A", "B");
    let mut env = env();
    env.cw721_checksum = vec![9u8; 31];
    let callback = ReceiveCallback { msg: vec![], addr: None };
    assert_eq!(
        receive_ibc_packet(&mut state, &env, &src, &dest, &data, Some(callback)),
        Err(ContractError::InvalidChecksum)
    );
    assert!(!state.incoming_class_token_to_channel.has(&key("wasm.local/channel-9/cats", "1")));
    // without a callback the checksum is not needed
    assert!(receive_ibc_packet(&mut state, &env, &src, &dest, &data, None).is_ok());
}
