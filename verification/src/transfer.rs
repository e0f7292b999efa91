//! Outbound transfers: the packets this chain sends.

use vstd::prelude::*;
use vstd::string::StringExecFns;
use crate::copy::copy_texts;
use crate::error::{ContractError, ErrorView};
use crate::msg::{
    attr, unreported, Dispatch, Operation, OperationView, ReplyOn, Response, ResponseView, SubMsg,
    SubMsgView,
};
use crate::packet::{NonFungibleTokenPacketData, PacketView};
use crate::state::State;

verus! {

/// A request to send tokens of one class away over a channel.
#[derive(Clone, Debug, PartialEq, Eq)]
pub struct TransferMsg {
    /// The class of the tokens.
    pub class_id: String,
    /// The tokens to send.
    pub token_ids: Vec<String>,
    /// Where the metadata of each token can be found, matched with `token_ids` by index.
    pub token_uris: Vec<String>,
    /// The local channel to send the tokens on.
    pub channel: String,
    /// The address on the other chain that should receive the tokens.
    pub remote_address: String,
    /// How long the packet may travel, in nanoseconds; the default where absent.
    pub timeout: Option<u64>,
}

/// `items` with `separator` between them.
pub open spec fn joined(items: Seq<Seq<char>>, separator: Seq<char>) -> Seq<char>
    decreases items.len(),
{
    if items.len() == 0 {
        Seq::empty()
    } else if items.len() == 1 {
        items[0]
    } else {
        joined(items.drop_last(), separator) + separator + items.last()
    }
}

/// Joins strings with a separator between them.
pub fn join(items: &Vec<String>, separator: &str) -> (text: String)
    ensures
        text@ == joined(items.deep_view(), separator@),
{
    let ghost all = items.deep_view();
    let mut text = String::new();
    let mut i: usize = 0;
    assert(all.take(0) =~= Seq::<Seq<char>>::empty());
    while i < items.len()
        invariant
            i <= items.len(),
            all == items.deep_view(),
            text@ == joined(all.take(i as int), separator@),
        decreases items.len() - i,
    {
        proof {
            let next = all.take(i + 1);
            assert(next.drop_last() =~= all.take(i as int));
            assert(next.last() == items[i as int]@);
            if i == 0 {
                assert(text@ + items[i as int]@ =~= items[i as int]@);
            }
        }
        if i > 0 {
            text.append(separator);
        }
        text.append(items[i].as_str());
        i = i + 1;
    }
    assert(all.take(i as int) =~= all);
    text
}

/// The packet that a transfer sends.
pub open spec fn transfer_packet(
    class_id: Seq<char>,
    token_ids: Seq<Seq<char>>,
    token_uris: Seq<Seq<char>>,
    sender: Seq<char>,
    receiver: Seq<char>,
) -> PacketView {
    PacketView {
        class_id,
        class_uri: None,
        class_data: None,
        token_ids,
        token_uris: Some(token_uris),
        token_data: None,
        sender,
        receiver,
        memo: None,
    }
}

/// The token contract of a class: the contract registered for it, and for a
/// class without one the contract that its identifier names.
pub open spec fn token_contract(contracts: Map<Seq<char>, String>, class_id: Seq<char>) -> Seq<
    char,
> {
    if contracts.contains_key(class_id) {
        contracts[class_id]@
    } else {
        class_id
    }
}

/// What a transfer dispatches: each token is first moved into the escrow of the
/// channel, in the packet's order, and then the packet is sent.
pub open spec fn transfer_messages(
    escrow: Seq<char>,
    nft_address: Seq<char>,
    channel: Seq<char>,
    data: PacketView,
    timeout: u64,
) -> Seq<SubMsgView> {
    Seq::new(
        data.token_ids.len(),
        |i: int|
            unreported(
                OperationView::TransferToEscrow {
                    nft_address,
                    token_id: data.token_ids[i],
                    escrow,
                },
            ),
    ).push(unreported(OperationView::SendPacket { channel_id: channel, data, timeout }))
}

/// What a transfer hands back: the work to dispatch, and what is logged of it.
pub open spec fn transfer_response(
    escrow: Seq<char>,
    nft_address: Seq<char>,
    channel: Seq<char>,
    data: PacketView,
    timeout: u64,
) -> ResponseView {
    ResponseView {
        messages: transfer_messages(escrow, nft_address, channel, data, timeout),
        attributes: seq![
            ("action"@, "transfer"@),
            ("sender"@, data.sender),
            ("receiver"@, data.receiver),
            ("class_id"@, data.class_id),
            ("token_ids"@, joined(data.token_ids, ","@)),
        ],
        data: None,
    }
}

/// The delay after which a transfer times out.
pub open spec fn timeout_delta(requested: Option<u64>, default_timeout: u64) -> u64 {
    match requested {
        Some(delta) => delta,
        None => default_timeout,
    }
}

/// What a transfer comes to. The channel must have an escrow, the timeout must
/// fit the clock, and the packet must be well-formed.
pub open spec fn transfer_outcome(
    state: State,
    now: u64,
    default_timeout: u64,
    msg: TransferMsg,
    sender: Seq<char>,
) -> Result<ResponseView, ErrorView> {
    let data = transfer_packet(
        msg.class_id@,
        msg.token_ids.deep_view(),
        msg.token_uris.deep_view(),
        sender,
        msg.remote_address@,
    );
    let delta = timeout_delta(msg.timeout, default_timeout);
    if !state.channels@.contains_key(msg.channel@) {
        Err(ErrorView::UnknownChannel { channel: msg.channel@ })
    } else if now + delta > u64::MAX {
        Err(ErrorView::TimeoutOverflow)
    } else if !data.valid() {
        Err(ErrorView::InvalidPacket)
    } else {
        Ok(
            transfer_response(
                state.channels@[msg.channel@]@,
                token_contract(state.class_id_to_nft_contract@, msg.class_id@),
                msg.channel@,
                data,
                (now + delta) as u64,
            ),
        )
    }
}

/// Sends tokens away: moves each into the escrow of the channel and sends the
/// packet. Nothing is recorded: the ledgers learn of the transfer when the
/// packet is acknowledged, not before.
pub fn execute_transfer(
    state: &State,
    now: u64,
    default_timeout: u64,
    msg: &TransferMsg,
    sender: &str,
) -> (sent: Result<Response, ContractError>)
    ensures
        match transfer_outcome(*state, now, default_timeout, *msg, sender@) {
            Ok(expected) => sent matches Ok(response) && response@ == expected,
            Err(refusal) => sent matches Err(error) && error@ == refusal,
        },
{
    // ensure the requested channel is registered
    let escrow = match state.channels.may_load(&msg.channel) {
        Some(escrow) => escrow,
        None => {
            return Err(ContractError::UnknownChannel { channel: msg.channel.clone() });
        },
    };
    let timeout_delta = match msg.timeout {
        Some(t) => t,
        None => default_timeout,
    };
    let timeout = match now.checked_add(timeout_delta) {
        Some(timeout) => timeout,
        None => {
            return Err(ContractError::TimeoutOverflow);
        },
    };
    let packet = NonFungibleTokenPacketData {
        classId: msg.class_id.clone(),
        classUri: None,
        classData: None,
        tokenIds: copy_texts(&msg.token_ids),
        tokenUris: Some(copy_texts(&msg.token_uris)),
        tokenData: None,
        sender: String::from_str(sender),
        receiver: msg.remote_address.clone(),
        memo: None,
    };
    match packet.validate() {
        Ok(()) => {},
        Err(error) => {
            return Err(error);
        },
    }
    let nft_address = match state.class_id_to_nft_contract.may_load(&msg.class_id) {
        Some(nft_address) => nft_address.clone(),
        None => msg.class_id.clone(),
    };
    let token_ids = join(&packet.tokenIds, ",");
    let mut attributes: Vec<(String, String)> = Vec::new();
    attributes.push(attr("action", "transfer"));
    attributes.push(attr("sender", packet.sender.as_str()));
    attributes.push(attr("receiver", packet.receiver.as_str()));
    attributes.push(attr("class_id", packet.classId.as_str()));
    attributes.push(attr("token_ids", token_ids.as_str()));
    let ghost data = packet@;
    let ghost expected = transfer_response(escrow@, nft_address@, msg.channel@, data, timeout);
    let mut messages: Vec<SubMsg> = Vec::new();
    let mut i: usize = 0;
    while i < packet.tokenIds.len()
        invariant
            i <= packet.tokenIds.len(),
            data == packet@,
            messages.len() == i,
            forall|j: int|
                0 <= j < i ==> (#[trigger] messages[j])@ == unreported(
                    OperationView::TransferToEscrow {
                        nft_address: nft_address@,
                        token_id: data.token_ids[j],
                        escrow: escrow@,
                    },
                ),
        decreases packet.tokenIds.len() - i,
    {
        messages.push(
            SubMsg {
                id: 0,
                msg: Dispatch::Single(
                    Operation::TransferToEscrow {
                        nft_address: nft_address.clone(),
                        token_id: packet.tokenIds[i].clone(),
                        escrow: escrow.clone(),
                    },
                ),
                reply_on: ReplyOn::Never,
            },
        );
        i = i + 1;
    }
    messages.push(
        SubMsg {
            id: 0,
            msg: Dispatch::Single(
                Operation::SendPacket { channel_id: msg.channel.clone(), data: packet, timeout },
            ),
            reply_on: ReplyOn::Never,
        },
    );
    let response = Response { messages, attributes, data: None };
    proof {
        assert(response@.messages =~= expected.messages);
        assert(response@.attributes =~= expected.attributes);
    }
    Ok(response)
}

/// A message from a token contract that hands tokens over to be sent away.
#[derive(Debug, PartialEq, Eq)]
pub struct Cw721ReceiveMsg {
    /// The address that handed the tokens over.
    pub sender: String,
    /// What the address asked for, or why that could not be read.
    pub msg: Result<TransferMsg, String>,
}

/// What the bridge can be asked to do.
#[derive(Debug, PartialEq, Eq)]
pub enum ExecuteMsg {
    /// Tokens were handed over to be sent away.
    Receive(Cw721ReceiveMsg),
    /// Tokens are to be sent away for the caller.
    Transfer(TransferMsg),
}

/// What the receipt of tokens comes to. A message that brings funds is
/// refused, and so is one whose request cannot be read; the request is then
/// handled as a transfer for the address that handed the tokens over.
pub open spec fn receive_nft_outcome(
    state: State,
    now: u64,
    default_timeout: u64,
    funds: usize,
    wrapper: Cw721ReceiveMsg,
) -> Result<ResponseView, ErrorView> {
    if funds != 0 {
        Err(ErrorView::NonPayable)
    } else {
        match wrapper.msg {
            Err(reason) => Err(ErrorView::Decode { reason: reason@ }),
            Ok(msg) => transfer_outcome(state, now, default_timeout, msg, wrapper.sender@),
        }
    }
}

/// Takes tokens that a token contract handed over, and sends them away.
/// `funds` is the number of coins that came with the message.
pub fn execute_receive(
    state: &State,
    now: u64,
    default_timeout: u64,
    funds: usize,
    wrapper: &Cw721ReceiveMsg,
) -> (sent: Result<Response, ContractError>)
    ensures
        match receive_nft_outcome(*state, now, default_timeout, funds, *wrapper) {
            Ok(expected) => sent matches Ok(response) && response@ == expected,
            Err(refusal) => sent matches Err(error) && error@ == refusal,
        },
{
    if funds != 0 {
        return Err(ContractError::NonPayable);
    }
    match &wrapper.msg {
        Ok(msg) => execute_transfer(state, now, default_timeout, msg, wrapper.sender.as_str()),
        Err(reason) => Err(ContractError::Decode { reason: reason.clone() }),
    }
}

/// Does what the bridge is asked to do: tokens that were handed over are sent
/// away for the address that handed them over, and a transfer is made for the
/// caller.
pub fn execute(
    state: &State,
    now: u64,
    default_timeout: u64,
    funds: usize,
    sender: &str,
    msg: &ExecuteMsg,
) -> (sent: Result<Response, ContractError>)
    ensures
        match (match *msg {
            ExecuteMsg::Receive(wrapper) => receive_nft_outcome(
                *state,
                now,
                default_timeout,
                funds,
                wrapper,
            ),
            ExecuteMsg::Transfer(transfer) => transfer_outcome(
                *state,
                now,
                default_timeout,
                transfer,
                sender@,
            ),
        }) {
            Ok(expected) => sent matches Ok(response) && response@ == expected,
            Err(refusal) => sent matches Err(error) && error@ == refusal,
        },
{
    match msg {
        ExecuteMsg::Receive(msg) => execute_receive(state, now, default_timeout, funds, msg),
        ExecuteMsg::Transfer(msg) => execute_transfer(state, now, default_timeout, msg, sender),
    }
}

} // verus!
