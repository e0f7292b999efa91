use ics721::ack::{ack_fail, ack_success, ACK_ERROR_FALLBACK};
use ics721::error::ContractError;
use ics721::msg::{
    attr,
    Response,
    ACK_AND_DO_NOTHING_REPLY_ID,
    FAILURE_RESPONSE_FAILURE_REPLY_ID,
    INSTANTIATE_CW721_REPLY_ID,
    INSTANTIATE_ESCROW_REPLY_ID,
};
use ics721::reply::{
    Completion,
    get_reported_address,
    instantiate_cw721_reply,
    instantiate_escrow_reply,
    reply,
    Reply,
    settle,
    SubMsgResult,
};
use ics721::state::State;

/// The data of an instantiation: field 1 holds the address, field 2 the data.
fn instantiate_data(address: &str, data: &[u8]) -> Vec<u8> {
    let mut bytes = vec![0x0a, address.len() as u8];
    bytes.extend_from_slice(address.as_bytes());
    if !data.is_empty() {
        bytes.push(0x12);
        bytes.push(data.len() as u8);
        bytes.extend_from_slice(data);
    }
    bytes
}

fn ack_only(data: Vec<u8>) -> Completion {
    Completion::Respond(Response { messages: vec![], attributes: vec![], data: Some(data) })
}

#[test]
fn the_tags_differ() {
    let tags = [
        INSTANTIATE_CW721_REPLY_ID,
        INSTANTIATE_ESCROW_REPLY_ID,
        ACK_AND_DO_NOTHING_REPLY_ID,
        FAILURE_RESPONSE_FAILURE_REPLY_ID,
    ];
    for i in 0..tags.len() {
        for j in 0..i {
            assert_ne!(tags[i], tags[j]);
        }
    }
}

#[test]
fn reported_address_is_read_from_the_data() {
    let data = instantiate_data("contract-7", b"xyz");
    assert_eq!(
        get_reported_address(&SubMsgResult::Succeeded(Some(data))),
        Ok("contract-7".to_string())
    );
    assert_eq!(
        get_reported_address(&SubMsgResult::Succeeded(Some(instantiate_data("c", b"")))),
        Ok("c".to_string())
    );
    assert_eq!(
        get_reported_address(&SubMsgResult::Succeeded(None)),
        Err(ContractError::InvalidCompletionData)
    );
    assert_eq!(
        get_reported_address(&SubMsgResult::Failed("boom".to_string())),
        Err(ContractError::InvalidCompletionData)
    );
    // wrong field number
    assert_eq!(
        get_reported_address(&SubMsgResult::Succeeded(Some(vec![0x12, 1, b'c']))),
        Err(ContractError::InvalidCompletionData)
    );
    // length runs past the end
    assert_eq!(
        get_reported_address(&SubMsgResult::Succeeded(Some(vec![0x0a, 9, b'c']))),
        Err(ContractError::InvalidCompletionData)
    );
}

#[test]
fn terminal_steps_settle_the_acknowledgement() {
    for id in [ACK_AND_DO_NOTHING_REPLY_ID, FAILURE_RESPONSE_FAILURE_REPLY_ID] {
        assert_eq!(
            reply(&Reply { id, result: SubMsgResult::Succeeded(None) }),
            Ok(ack_only(ack_success()))
        );
        assert_eq!(
            reply(&Reply { id, result: SubMsgResult::Succeeded(Some(vec![1, 2])) }),
            Ok(ack_only(ack_success()))
        );
        assert_eq!(
            reply(&Reply { id, result: SubMsgResult::Failed("no such nft".to_string()) }),
            Ok(ack_only(ack_fail("no such nft").unwrap()))
        );
        assert_eq!(
            reply(&Reply { id, result: SubMsgResult::Failed("AQ==".to_string()) }),
            Ok(ack_only(ack_fail(ACK_ERROR_FALLBACK).unwrap()))
        );
    }
}

#[test]
fn settle_writes_nothing_but_the_acknowledgement() {
    let response = settle(&SubMsgResult::Failed("x".to_string()));
    assert!(response.messages.is_empty());
    assert!(response.attributes.is_empty());
    assert_eq!(response.data, Some(b"\"x\"".to_vec()));
}

#[test]
fn unknown_tags_are_fatal() {
    for id in [0u64, 5, 6, 99, u64::MAX] {
        assert_eq!(
            reply(&Reply { id, result: SubMsgResult::Succeeded(None) }),
            Err(ContractError::UnrecognizedCompletion)
        );
        assert_eq!(
            reply(&Reply { id, result: SubMsgResult::Failed("x".to_string()) }),
            Err(ContractError::UnrecognizedCompletion)
        );
    }
}

#[test]
fn a_new_token_contract_is_resolved_then_recorded() {
    let done = reply(&Reply {
        id: INSTANTIATE_CW721_REPLY_ID,
        result: SubMsgResult::Succeeded(Some(instantiate_data("cats-contract", b""))),
    });
    assert_eq!(
        done,
        Ok(Completion::ResolveClass { contract_address: "cats-contract".to_string() })
    );

    let mut state = State::new(1, None);
    let response =
        instantiate_cw721_reply(&mut state, "cats-contract".to_string(), "cats".to_string());
    assert_eq!(
        response,
        Response {
            messages: vec![],
            attributes: vec![
                attr("method", "instantiate_cw721_reply"),
                attr("class_id", "cats"),
                attr("cw721_addr", "cats-contract"),
            ],
            data: None,
        }
    );
    assert_eq!(
        state.class_id_to_nft_contract.may_load(&"cats".to_string()),
        Some(&"cats-contract".to_string())
    );
    assert_eq!(
        state.nft_contract_to_class_id.may_load(&"cats-contract".to_string()),
        Some(&"cats".to_string())
    );
    assert!(!state.channels.has(&"cats".to_string()));
}

#[test]
fn a_failed_token_contract_records_nothing() {
    assert_eq!(
        reply(&Reply {
            id: INSTANTIATE_CW721_REPLY_ID,
            result: SubMsgResult::Failed("out of gas".to_string()),
        }),
        Err(ContractError::InvalidCompletionData)
    );
    assert_eq!(
        reply(&Reply { id: INSTANTIATE_CW721_REPLY_ID, result: SubMsgResult::Succeeded(None) }),
        Err(ContractError::InvalidCompletionData)
    );
}

#[test]
fn a_new_escrow_is_resolved_then_recorded() {
    let done = reply(&Reply {
        id: INSTANTIATE_ESCROW_REPLY_ID,
        result: SubMsgResult::Succeeded(Some(instantiate_data("escrow-9", b""))),
    });
    assert_eq!(done, Ok(Completion::ResolveChannel { contract_address: "escrow-9".to_string() }));

    let mut state = State::new(1, None);
    let response =
        instantiate_escrow_reply(&mut state, "escrow-9".to_string(), "channel-9".to_string());
    assert_eq!(
        response,
        Response {
            messages: vec![],
            attributes: vec![
                attr("method", "instantiate_escrow_reply"),
                attr("escrow_addr", "escrow-9"),
                attr("channel_id", "channel-9"),
            ],
            data: Some(ack_success()),
        }
    );
    assert_eq!(
        state.channels.may_load(&"channel-9".to_string()),
        Some(&"escrow-9".to_string())
    );
    assert!(!state.channels.has(&"channel-1".to_string()));
}

#[test]
fn a_failed_escrow_is_acknowledged_and_not_recorded() {
    assert_eq!(
        reply(&Reply {
            id: INSTANTIATE_ESCROW_REPLY_ID,
            result: SubMsgResult::Failed("code not found".to_string()),
        }),
        Ok(ack_only(ack_fail("code not found").unwrap()))
    );
    assert_eq!(
        reply(&Reply {
            id: INSTANTIATE_ESCROW_REPLY_ID,
            result: SubMsgResult::Succeeded(Some(vec![0xff])),
        }),
        Err(ContractError::InvalidCompletionData)
    );
}
