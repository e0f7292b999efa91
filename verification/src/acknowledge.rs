//! The fate of packets this chain sent: acknowledged, refused, or timed out.

use vstd::prelude::*;
use crate::ack::{parsed_json_string, success_text, try_get_ack_error};
use crate::endpoint::IbcEndpoint;
use crate::error::{ContractError, ErrorView};
use crate::ledger::{class_token_keys, remove_entries, token_keys, without_entries};
use crate::msg::{
    attr, withdrawal, Dispatch, Operation, ReplyOn, Response, ResponseView, SubMsg,
    FAILURE_RESPONSE_FAILURE_REPLY_ID,
};
use crate::packet::{NonFungibleTokenPacketData, PacketView};
use crate::receive::{all_redeem, classification, none_redeem, redeems};
use crate::state::{State, TokenKey};

verus! {

/// A list of strings as `{:?}` writes it.
pub uninterp spec fn debug_list(items: Seq<Seq<char>>) -> Seq<char>;

/// Formats a list of strings with `{:?}`.
#[verifier::external_body]
fn format_debug(items: &Vec<String>) -> (text: String)
    ensures
        text@ == debug_list(items.deep_view()),
{
    format!("{:?}", items)
}

/// What a failed packet is answered with: each of its tokens is withdrawn from
/// the escrow of the channel it was sent on, to the address that sent it.
pub open spec fn refund_response(
    escrow: Seq<char>,
    nft_address: Seq<char>,
    channel_id: Seq<char>,
    data: PacketView,
    error: Seq<char>,
) -> ResponseView {
    ResponseView {
        messages: Seq::new(
            data.token_ids.len(),
            |i: int| withdrawal(escrow, nft_address, data.token_ids[i], data.sender),
        ),
        attributes: seq![
            ("method"@, "handle_packet_fail"@),
            ("token_ids"@, debug_list(data.token_ids)),
            ("class_id"@, data.class_id),
            ("escrow"@, escrow),
            ("channel_id"@, channel_id),
            ("address_refunded"@, data.sender),
            ("error"@, error),
        ],
        data: None,
    }
}

/// What the failure of a sent packet comes to. The escrow is that of the
/// packet's source channel, which is this chain's own; a channel without an
/// escrow is an error, and so are a packet that cannot be decoded and a class
/// without a token contract.
pub open spec fn refund_outcome(
    state: State,
    src: IbcEndpoint,
    decoded: Result<NonFungibleTokenPacketData, String>,
    error: Seq<char>,
) -> Result<ResponseView, ErrorView> {
    if !state.channels@.contains_key(src.channel_id@) {
        Err(ErrorView::UnknownChannel { channel: src.channel_id@ })
    } else {
        match decoded {
            Err(reason) => Err(ErrorView::Decode { reason: reason@ }),
            Ok(data) => if !state.class_id_to_nft_contract@.contains_key(data@.class_id) {
                Err(ErrorView::NoNftContractForClassId { class_id: data@.class_id })
            } else {
                Ok(
                    refund_response(
                        state.channels@[src.channel_id@]@,
                        state.class_id_to_nft_contract@[data@.class_id]@,
                        src.channel_id@,
                        data@,
                        error,
                    ),
                )
            },
        }
    }
}

/// On fail, return the tokens from the escrow. We only ever handle our own
/// packets here, so the packet's source is used, which is trusted.
pub fn handle_packet_fail(
    state: &State,
    src: &IbcEndpoint,
    decoded: &Result<NonFungibleTokenPacketData, String>,
    error: &str,
) -> (handled: Result<Response, ContractError>)
    ensures
        match refund_outcome(*state, *src, *decoded, error@) {
            Ok(expected) => handled matches Ok(response) && response@ == expected,
            Err(refusal) => handled matches Err(failure) && failure@ == refusal,
        },
{
    let escrow_addr = match state.channels.may_load(&src.channel_id) {
        Some(escrow_addr) => escrow_addr,
        None => {
            return Err(ContractError::UnknownChannel { channel: src.channel_id.clone() });
        },
    };
    let message = match decoded {
        Ok(message) => message,
        Err(reason) => {
            return Err(ContractError::Decode { reason: reason.clone() });
        },
    };
    let nft_address = match state.class_id_to_nft_contract.may_load(&message.classId) {
        Some(nft_address) => nft_address,
        None => {
            return Err(
                ContractError::NoNftContractForClassId { class_id: message.classId.clone() },
            );
        },
    };
    let ghost expected = refund_response(
        escrow_addr@,
        nft_address@,
        src.channel_id@,
        message@,
        error@,
    );
    let mut return_nfts: Vec<SubMsg> = Vec::new();
    let mut i: usize = 0;
    while i < message.tokenIds.len()
        invariant
            i <= message.tokenIds.len(),
            return_nfts.len() == i,
            forall|j: int|
                0 <= j < i ==> (#[trigger] return_nfts[j])@ == withdrawal(
                    escrow_addr@,
                    nft_address@,
                    message.tokenIds[j]@,
                    message.sender@,
                ),
        decreases message.tokenIds.len() - i,
    {
        // More likely than not, more than one of these will fail if any
        // fail. In that case the failure ack just repeatedly overrides itself.
        return_nfts.push(
            SubMsg {
                id: FAILURE_RESPONSE_FAILURE_REPLY_ID,
                msg: Dispatch::Single(
                    Operation::EscrowWithdraw {
                        escrow: escrow_addr.clone(),
                        nft_address: nft_address.clone(),
                        token_id: message.tokenIds[i].clone(),
                        receiver: message.sender.clone(),
                    },
                ),
                reply_on: ReplyOn::Error,
            },
        );
        i = i + 1;
    }
    let token_ids = format_debug(&message.tokenIds);
    let mut attributes: Vec<(String, String)> = Vec::new();
    attributes.push(attr("method", "handle_packet_fail"));
    attributes.push(attr("token_ids", token_ids.as_str()));
    attributes.push(attr("class_id", message.classId.as_str()));
    attributes.push(attr("escrow", escrow_addr.as_str()));
    attributes.push(attr("channel_id", src.channel_id.as_str()));
    attributes.push(attr("address_refunded", message.sender.as_str()));
    attributes.push(attr("error", error));
    let response = Response { messages: return_nfts, attributes, data: None };
    proof {
        assert(response@.messages =~= expected.messages);
        assert(response@.attributes =~= expected.attributes);
    }
    Ok(response)
}

/// The text that a timeout is reported with.
pub const TIMEOUT_ERROR: &'static str = "timeout";

/// A packet that timed out is handled as one that was refused: its tokens go
/// back to their sender.
pub fn ibc_packet_timeout(
    state: &State,
    src: &IbcEndpoint,
    decoded: &Result<NonFungibleTokenPacketData, String>,
) -> (handled: Result<Response, ContractError>)
    ensures
        match refund_outcome(*state, *src, *decoded, TIMEOUT_ERROR@) {
            Ok(expected) => handled matches Ok(response) && response@ == expected,
            Err(refusal) => handled matches Err(failure) && failure@ == refusal,
        },
{
    handle_packet_fail(state, src, decoded, TIMEOUT_ERROR)
}

/// The outgoing ledger once a packet is acknowledged: each token of the packet
/// that did not arrive from elsewhere is entered for the channel it left on.
pub open spec fn with_sent(
    outgoing: Map<TokenKey, String>,
    incoming: Map<TokenKey, String>,
    class_id: Seq<char>,
    token_ids: Seq<Seq<char>>,
    channel: String,
) -> Map<TokenKey, String>
    decreases token_ids.len(),
{
    if token_ids.len() == 0 {
        outgoing
    } else {
        let before = with_sent(outgoing, incoming, class_id, token_ids.drop_last(), channel);
        if incoming.contains_key((class_id, token_ids.last())) {
            before
        } else {
            before.insert((class_id, token_ids.last()), channel)
        }
    }
}

/// What is logged of a packet that was acknowledged.
pub open spec fn acknowledged_response(data: PacketView) -> ResponseView {
    ResponseView {
        messages: seq![],
        attributes: seq![
            ("method"@, "acknowledge"@),
            ("sender"@, data.sender),
            ("receiver"@, data.receiver),
            ("classId"@, data.class_id),
            ("token_ids"@, debug_list(data.token_ids)),
        ],
        data: None,
    }
}

/// Whether `after` is `before` with one acknowledged transfer committed: a
/// token that had arrived from elsewhere has gone back, so its incoming entry
/// and its metadata are removed; every other token is entered in the outgoing
/// ledger for the channel it left on. Nothing else differs.
pub open spec fn transfer_committed(
    before: State,
    after: State,
    src: IbcEndpoint,
    data: PacketView,
) -> bool {
    &&& after.outgoing_class_token_to_channel@ == with_sent(
        before.outgoing_class_token_to_channel@,
        before.incoming_class_token_to_channel@,
        data.class_id,
        data.token_ids,
        src.channel_id,
    )
    &&& after.incoming_class_token_to_channel@ == without_entries(
        before.incoming_class_token_to_channel@,
        class_token_keys(data.class_id, data.token_ids),
    )
    &&& after.token_metadata@ == without_entries(
        before.token_metadata@,
        class_token_keys(data.class_id, data.token_ids),
    )
    &&& after == (State {
        outgoing_class_token_to_channel: after.outgoing_class_token_to_channel,
        incoming_class_token_to_channel: after.incoming_class_token_to_channel,
        token_metadata: after.token_metadata,
        ..before
    })
}

/// Commits a transfer that the other chain has acknowledged. Only now the
/// ledgers learn of it.
pub fn commit_transfer(state: &mut State, src: &IbcEndpoint, data: &NonFungibleTokenPacketData)
    ensures
        transfer_committed(*old(state), *final(state), *src, data@),
{
    let ghost ids = data@.token_ids;
    let mut i: usize = 0;
    assert(ids.take(0) =~= Seq::<Seq<char>>::empty());
    while i < data.tokenIds.len()
        invariant
            i <= data.tokenIds.len(),
            ids == data.tokenIds.deep_view(),
            state.outgoing_class_token_to_channel@ == with_sent(
                old(state).outgoing_class_token_to_channel@,
                old(state).incoming_class_token_to_channel@,
                data.classId@,
                ids.take(i as int),
                src.channel_id,
            ),
            *state == (State {
                outgoing_class_token_to_channel: state.outgoing_class_token_to_channel,
                ..*old(state)
            }),
        decreases data.tokenIds.len() - i,
    {
        proof {
            let next = ids.take(i + 1);
            assert(next.drop_last() =~= ids.take(i as int));
            assert(next.last() == data.tokenIds[i as int]@);
        }
        let key = (data.classId.clone(), data.tokenIds[i].clone());
        if !state.incoming_class_token_to_channel.has(&key) {
            state.outgoing_class_token_to_channel.save(key, src.channel_id.clone());
        }
        i = i + 1;
    }
    assert(ids.take(i as int) =~= ids);
    let keys = token_keys(&data.classId, &data.tokenIds);
    remove_entries(&mut state.incoming_class_token_to_channel, &keys);
    remove_entries(&mut state.token_metadata, &keys);
}

/// What an acknowledgement comes to, given what it says: `None` for success,
/// and else the failure's message.
pub open spec fn acknowledge_outcome(
    state: State,
    src: IbcEndpoint,
    decoded: Result<NonFungibleTokenPacketData, String>,
    failure: Option<Seq<char>>,
) -> Result<ResponseView, ErrorView> {
    match failure {
        Some(error) => refund_outcome(state, src, decoded, error),
        None => match decoded {
            Err(reason) => Err(ErrorView::Decode { reason: reason@ }),
            Ok(data) => Ok(acknowledged_response(data@)),
        },
    }
}

/// Whether an acknowledgement commits the transfer it answers.
pub open spec fn commits(
    decoded: Result<NonFungibleTokenPacketData, String>,
    failure: Option<Seq<char>>,
) -> bool {
    failure is None && decoded is Ok
}

/// Handles an acknowledgement that has been read. A failure sends the tokens
/// back and records nothing; success commits the transfer to the ledgers.
pub fn acknowledge_packet(
    state: &mut State,
    src: &IbcEndpoint,
    decoded: &Result<NonFungibleTokenPacketData, String>,
    failure: Option<String>,
) -> (handled: Result<Response, ContractError>)
    ensures
        match acknowledge_outcome(*old(state), *src, *decoded, failure.deep_view()) {
            Ok(expected) => handled matches Ok(response) && response@ == expected,
            Err(refusal) => handled matches Err(error) && error@ == refusal,
        },
        !commits(*decoded, failure.deep_view()) ==> *final(state) == *old(state),
        commits(*decoded, failure.deep_view()) ==> transfer_committed(
            *old(state),
            *final(state),
            *src,
            decoded->Ok_0@,
        ),
{
    match failure {
        Some(error) => handle_packet_fail(state, src, decoded, error.as_str()),
        None => match decoded {
            Err(reason) => Err(ContractError::Decode { reason: reason.clone() }),
            Ok(msg) => {
                commit_transfer(state, src, msg);
                let token_ids = format_debug(&msg.tokenIds);
                let mut attributes: Vec<(String, String)> = Vec::new();
                attributes.push(attr("method", "acknowledge"));
                attributes.push(attr("sender", msg.sender.as_str()));
                attributes.push(attr("receiver", msg.receiver.as_str()));
                attributes.push(attr("classId", msg.classId.as_str()));
                attributes.push(attr("token_ids", token_ids.as_str()));
                let response = Response { messages: Vec::new(), attributes, data: None };
                proof {
                    let expected = acknowledged_response(msg@);
                    assert(response@.messages =~= expected.messages);
                    assert(response@.attributes =~= expected.attributes);
                }
                Ok(response)
            },
        },
    }
}

/// What an acknowledgement's payload says: nothing where it cannot be read,
/// `Some(None)` for success, and `Some(Some(message))` for a failure.
pub open spec fn acknowledgement_read(acknowledgement: Seq<u8>) -> Option<Option<Seq<char>>> {
    match parsed_json_string(acknowledgement) {
        None => None,
        Some(text) => if text == success_text() {
            Some(None)
        } else {
            Some(Some(text))
        },
    }
}

/// Handles the acknowledgement of a packet this chain sent. An acknowledgement
/// that cannot be read is an error and changes nothing; one that can is
/// handled as [`acknowledge_packet`] says.
pub fn ibc_packet_ack(
    state: &mut State,
    src: &IbcEndpoint,
    acknowledgement: &[u8],
    decoded: &Result<NonFungibleTokenPacketData, String>,
) -> (handled: Result<Response, ContractError>)
    ensures
        match acknowledgement_read(acknowledgement@) {
            None => handled matches Err(error) && error == ContractError::InvalidAcknowledgement
                && *final(state) == *old(state),
            Some(failure) => {
                &&& match acknowledge_outcome(*old(state), *src, *decoded, failure) {
                    Ok(expected) => handled matches Ok(response) && response@ == expected,
                    Err(refusal) => handled matches Err(error) && error@ == refusal,
                }
                &&& !commits(*decoded, failure) ==> *final(state) == *old(state)
                &&& commits(*decoded, failure) ==> transfer_committed(
                    *old(state),
                    *final(state),
                    *src,
                    decoded->Ok_0@,
                )
            },
        },
{
    match try_get_ack_error(acknowledgement) {
        Err(error) => Err(error),
        Ok(failure) => acknowledge_packet(state, src, decoded, failure),
    }
}

/// What the outgoing ledger holds for a token once a transfer is committed:
/// the channel it left on, if it is a token of the transfer that had not
/// arrived from elsewhere, and else what the ledger held.
pub proof fn lemma_with_sent_entry(
    outgoing: Map<TokenKey, String>,
    incoming: Map<TokenKey, String>,
    class_id: Seq<char>,
    token_ids: Seq<Seq<char>>,
    channel: String,
    key: TokenKey,
)
    ensures
        ({
            let after = with_sent(outgoing, incoming, class_id, token_ids, channel);
            if key.0 == class_id && token_ids.contains(key.1) && !incoming.contains_key(key) {
                after.contains_key(key) && after[key] == channel
            } else {
                after.contains_key(key) == outgoing.contains_key(key) && (after.contains_key(key)
                    ==> after[key] == outgoing[key])
            }
        }),
    decreases token_ids.len(),
{
    if token_ids.len() > 0 {
        let front = token_ids.drop_last();
        lemma_with_sent_entry(outgoing, incoming, class_id, front, channel, key);
        if token_ids.contains(key.1) && key.1 != token_ids.last() {
            let at = choose|i: int| 0 <= i < token_ids.len() && token_ids[i] == key.1;
            assert(front[at] == key.1);
        }
        if front.contains(key.1) {
            let at = choose|i: int| 0 <= i < front.len() && front[i] == key.1;
            assert(token_ids[at] == key.1);
        }
        assert(token_ids[token_ids.len() - 1] == token_ids.last());
    }
}

/// Round trip. Tokens of this chain that were sent out on a channel, with the
/// transfer acknowledged, classify as a redemption when they return on that
/// channel, and as a creation when they return on any other.
pub proof fn lemma_round_trip(
    outgoing: Map<TokenKey, String>,
    incoming: Map<TokenKey, String>,
    class_id: Seq<char>,
    token_ids: Seq<Seq<char>>,
    sent_on: String,
    arrives_on: Seq<char>,
)
    requires
        token_ids.len() > 0,
        forall|i: int|
            0 <= i < token_ids.len() ==> !incoming.contains_key((class_id, #[trigger] token_ids[i])),
    ensures
        arrives_on == sent_on@ ==> classification(
            with_sent(outgoing, incoming, class_id, token_ids, sent_on),
            true,
            class_id,
            token_ids,
            arrives_on,
        ) == Ok::<bool, ErrorView>(true),
        arrives_on != sent_on@ ==> classification(
            with_sent(outgoing, incoming, class_id, token_ids, sent_on),
            true,
            class_id,
            token_ids,
            arrives_on,
        ) == Ok::<bool, ErrorView>(false),
{
    let after = with_sent(outgoing, incoming, class_id, token_ids, sent_on);
    assert forall|i: int| 0 <= i < token_ids.len() implies after.contains_key(
        (class_id, #[trigger] token_ids[i]),
    ) && after[(class_id, token_ids[i])] == sent_on by {
        lemma_with_sent_entry(
            outgoing,
            incoming,
            class_id,
            token_ids,
            sent_on,
            (class_id, token_ids[i]),
        );
    }
    if arrives_on == sent_on@ {
        assert(all_redeem(after, true, class_id, token_ids, arrives_on));
    } else {
        assert(none_redeem(after, true, class_id, token_ids, arrives_on));
        assert(!redeems(after, true, class_id, token_ids[0], arrives_on));
    }
}

/// A timeout refunds as a refusal does: for one packet both give the same
/// withdrawals from the escrow of the source channel, to the packet's sender,
/// or fail with the same error; neither writes an acknowledgement.
pub proof fn lemma_timeout_refunds_as_failure(
    state: State,
    src: IbcEndpoint,
    decoded: Result<NonFungibleTokenPacketData, String>,
    error: Seq<char>,
)
    ensures
        match (
            refund_outcome(state, src, decoded, TIMEOUT_ERROR@),
            acknowledge_outcome(state, src, decoded, Some(error)),
        ) {
            (Ok(timed_out), Ok(refused)) => {
                &&& timed_out.messages == refused.messages
                &&& timed_out.data == refused.data
                &&& timed_out.attributes.len() == refused.attributes.len()
                &&& forall|i: int|
                    0 <= i < 6 ==> timed_out.attributes[i] == refused.attributes[i]
                &&& forall|i: int|
                    0 <= i < timed_out.messages.len() ==> (
                    #[trigger] timed_out.messages[i]) == withdrawal(
                        state.channels@[src.channel_id@]@,
                        state.class_id_to_nft_contract@[decoded->Ok_0@.class_id]@,
                        decoded->Ok_0@.token_ids[i],
                        decoded->Ok_0@.sender,
                    )
            },
            (Err(timed_out), Err(refused)) => timed_out == refused,
            _ => false,
        },
{
}

} // verus!
