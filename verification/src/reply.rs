//! Completions: what the bridge does when work it dispatched reports back.

use vstd::prelude::*;
use crate::ack::{ack_fail_or_fallback, ack_success, failure_message, json_string, success_ack};
use crate::error::{ContractError, ErrorView};
use crate::endpoint::IbcEndpoint;
use crate::msg::{
    attr, ReplyOn, Response, ResponseView, ACK_AND_DO_NOTHING_REPLY_ID,
    FAILURE_RESPONSE_FAILURE_REPLY_ID, INSTANTIATE_CW721_REPLY_ID, INSTANTIATE_ESCROW_REPLY_ID,
};
use crate::packet::NonFungibleTokenPacketData;
use crate::receive::{packet_response, Env, ReceiveCallbackView};
use crate::state::State;

verus! {

/// How dispatched work ended.
#[derive(Clone, Debug, PartialEq, Eq)]
pub enum SubMsgResult {
    /// It succeeded, and may have handed data back.
    Succeeded(Option<Vec<u8>>),
    /// It failed, for the reason given.
    Failed(String),
}

/// The outcome of dispatched work, under the tag it was dispatched with.
#[derive(Clone, Debug, PartialEq, Eq)]
pub struct Reply {
    /// The tag.
    pub id: u64,
    /// The outcome.
    pub result: SubMsgResult,
}

/// The address of the contract that an instantiation's data reports, where the
/// data can be read.
pub uninterp spec fn instantiated_address(data: Seq<u8>) -> Option<Seq<char>>;

/// Calls `cw_utils::parse_instantiate_response_data` and keeps the contract's
/// address: there is none where the data cannot be read.
#[verifier::external_body]
fn parse_instantiate_response_data(data: &[u8]) -> (address: Option<String>)
    ensures
        address.deep_view() == instantiated_address(data@),
{
    cw_utils::parse_instantiate_response_data(data).ok().map(|response| response.contract_address)
}

/// What a completion asks for next.
#[derive(Clone, Debug, PartialEq, Eq)]
pub enum Completion {
    /// Nothing but this response.
    Respond(Response),
    /// The class of the token contract at this address is to be looked up, and
    /// then recorded with [`instantiate_cw721_reply`].
    ResolveClass { contract_address: String },
    /// The channel of the escrow at this address is to be looked up, and then
    /// recorded with [`instantiate_escrow_reply`].
    ResolveChannel { contract_address: String },
}

/// What a [`Completion`] holds, as mathematical values.
pub enum CompletionView {
    Respond(ResponseView),
    ResolveClass { contract_address: Seq<char> },
    ResolveChannel { contract_address: Seq<char> },
}

impl View for Completion {
    type V = CompletionView;

    open spec fn view(&self) -> CompletionView {
        match *self {
            Completion::Respond(response) => CompletionView::Respond(response@),
            Completion::ResolveClass { contract_address } => CompletionView::ResolveClass {
                contract_address: contract_address@,
            },
            Completion::ResolveChannel { contract_address } => CompletionView::ResolveChannel {
                contract_address: contract_address@,
            },
        }
    }
}

/// The address that a successful instantiation reports.
pub open spec fn reported_address(result: SubMsgResult) -> Option<Seq<char>> {
    match result {
        SubMsgResult::Succeeded(Some(data)) => instantiated_address(data@),
        _ => None,
    }
}

/// A response that does nothing but write an acknowledgement.
pub open spec fn ack_response(ack: Seq<u8>) -> ResponseView {
    ResponseView { messages: seq![], attributes: seq![], data: Some(ack) }
}

/// The response that settles the acknowledgement by an outcome: the success
/// acknowledgement for success, and for a failure the failure that carries its
/// text, or a fixed message where that text cannot be encoded safely.
pub open spec fn settled(result: SubMsgResult) -> ResponseView {
    match result {
        SubMsgResult::Succeeded(_) => ack_response(success_ack()),
        SubMsgResult::Failed(error) => ack_response(json_string(failure_message(error@))),
    }
}

/// Whether a tag is that of a step which only settles the acknowledgement.
pub open spec fn is_terminal(id: u64) -> bool {
    id == ACK_AND_DO_NOTHING_REPLY_ID || id == FAILURE_RESPONSE_FAILURE_REPLY_ID
}

/// What a completion comes to.
///
/// A new token contract is recorded only if its instantiation succeeded and
/// reported an address. A new escrow likewise; its failure is acknowledged.
/// Every other known step settles the acknowledgement by its outcome, and a
/// tag that was never issued is an error.
pub open spec fn reply_outcome(reply: Reply) -> Result<CompletionView, ErrorView> {
    if reply.id == INSTANTIATE_CW721_REPLY_ID {
        match reported_address(reply.result) {
            Some(contract_address) => Ok(CompletionView::ResolveClass { contract_address }),
            None => Err(ErrorView::InvalidCompletionData),
        }
    } else if reply.id == INSTANTIATE_ESCROW_REPLY_ID {
        if reply.result is Failed {
            Ok(CompletionView::Respond(settled(reply.result)))
        } else {
            match reported_address(reply.result) {
                Some(contract_address) => Ok(CompletionView::ResolveChannel { contract_address }),
                None => Err(ErrorView::InvalidCompletionData),
            }
        }
    } else if is_terminal(reply.id) {
        Ok(CompletionView::Respond(settled(reply.result)))
    } else {
        Err(ErrorView::UnrecognizedCompletion)
    }
}

/// The address that a successful instantiation reports.
pub fn get_reported_address(result: &SubMsgResult) -> (address: Result<String, ContractError>)
    ensures
        match reported_address(*result) {
            Some(expected) => address matches Ok(found) && found@ == expected,
            None => address matches Err(error) && error == ContractError::InvalidCompletionData,
        },
{
    match result {
        SubMsgResult::Succeeded(Some(data)) => match parse_instantiate_response_data(data.as_slice()) {
            Some(address) => Ok(address),
            None => Err(ContractError::InvalidCompletionData),
        },
        _ => Err(ContractError::InvalidCompletionData),
    }
}

/// The response that settles the acknowledgement by an outcome.
pub fn settle(result: &SubMsgResult) -> (response: Response)
    ensures
        response@ == settled(*result),
{
    let data = match result {
        // On success, set a successful ack. Nothing else to do.
        SubMsgResult::Succeeded(_) => ack_success(),
        // On error the acknowledgement says so.
        SubMsgResult::Failed(error) => ack_fail_or_fallback(error.as_str()),
    };
    let response = Response { messages: Vec::new(), attributes: Vec::new(), data: Some(data) };
    proof {
        assert(response.data->0.deep_view() =~= response.data->0@);
        assert(response@.messages =~= settled(*result).messages);
        assert(response@.attributes =~= settled(*result).attributes);
    }
    response
}

/// Routes the outcome of dispatched work by the tag it was dispatched with.
/// Nothing is recorded here: a completion that reports a new contract is
/// recorded once what the contract stands for has been looked up.
pub fn reply(msg: &Reply) -> (handled: Result<Completion, ContractError>)
    ensures
        match reply_outcome(*msg) {
            Ok(expected) => handled matches Ok(completion) && completion@ == expected,
            Err(refusal) => handled matches Err(error) && error@ == refusal,
        },
{
    if msg.id == INSTANTIATE_CW721_REPLY_ID {
        match get_reported_address(&msg.result) {
            Ok(contract_address) => Ok(Completion::ResolveClass { contract_address }),
            Err(error) => Err(error),
        }
    } else if msg.id == INSTANTIATE_ESCROW_REPLY_ID {
        match &msg.result {
            SubMsgResult::Failed(_) => Ok(Completion::Respond(settle(&msg.result))),
            SubMsgResult::Succeeded(_) => match get_reported_address(&msg.result) {
                Ok(contract_address) => Ok(Completion::ResolveChannel { contract_address }),
                Err(error) => Err(error),
            },
        }
    } else if msg.id == ACK_AND_DO_NOTHING_REPLY_ID || msg.id
        == FAILURE_RESPONSE_FAILURE_REPLY_ID {
        // These completions don't need to do any state changes - just need to commit an ack.
        Ok(Completion::Respond(settle(&msg.result)))
    } else {
        Err(ContractError::UnrecognizedCompletion)
    }
}

/// What recording a new token contract hands back.
pub open spec fn cw721_recorded(class_id: Seq<char>, cw721_addr: Seq<char>) -> ResponseView {
    ResponseView {
        messages: seq![],
        attributes: seq![
            ("method"@, "instantiate_cw721_reply"@),
            ("class_id"@, class_id),
            ("cw721_addr"@, cw721_addr),
        ],
        data: None,
    }
}

/// Records the token contract that was instantiated for a class, in both
/// directions. Nothing else changes.
pub fn instantiate_cw721_reply(state: &mut State, cw721_addr: String, class_id: String) -> (response:
    Response)
    ensures
        response@ == cw721_recorded(class_id@, cw721_addr@),
        final(state).class_id_to_nft_contract@ == old(state).class_id_to_nft_contract@.insert(
            class_id@,
            cw721_addr,
        ),
        final(state).nft_contract_to_class_id@ == old(state).nft_contract_to_class_id@.insert(
            cw721_addr@,
            class_id,
        ),
        *final(state) == (State {
            class_id_to_nft_contract: final(state).class_id_to_nft_contract,
            nft_contract_to_class_id: final(state).nft_contract_to_class_id,
            ..*old(state)
        }),
{
    let mut attributes: Vec<(String, String)> = Vec::new();
    attributes.push(attr("method", "instantiate_cw721_reply"));
    attributes.push(attr("class_id", class_id.as_str()));
    attributes.push(attr("cw721_addr", cw721_addr.as_str()));
    // Save classId <-> contract mappings.
    state.class_id_to_nft_contract.save(class_id.clone(), cw721_addr.clone());
    state.nft_contract_to_class_id.save(cw721_addr, class_id);
    let response = Response { messages: Vec::new(), attributes, data: None };
    proof {
        let expected = cw721_recorded(class_id@, cw721_addr@);
        assert(response@.messages =~= expected.messages);
        assert(response@.attributes =~= expected.attributes);
    }
    response
}

/// Whether the two registries of token contracts mirror each other: each
/// class leads to a contract that leads back to it, and each contract to a
/// class that leads back to it.
pub open spec fn bidirectional(
    class_to_contract: Map<Seq<char>, String>,
    contract_to_class: Map<Seq<char>, String>,
) -> bool {
    &&& forall|class_id: Seq<char>| #[trigger]
        class_to_contract.contains_key(class_id) ==> {
            &&& contract_to_class.contains_key(class_to_contract[class_id]@)
            &&& contract_to_class[class_to_contract[class_id]@]@ == class_id
        }
    &&& forall|contract: Seq<char>| #[trigger]
        contract_to_class.contains_key(contract) ==> {
            &&& class_to_contract.contains_key(contract_to_class[contract]@)
            &&& class_to_contract[contract_to_class[contract]@]@ == contract
        }
}

/// Recording a token contract for a class keeps the registries mirrored, as
/// long as the class had no contract and the contract no class: a contract is
/// registered at most once for a class.
pub proof fn lemma_registration_is_bidirectional(
    class_to_contract: Map<Seq<char>, String>,
    contract_to_class: Map<Seq<char>, String>,
    class_id: String,
    cw721_addr: String,
)
    requires
        bidirectional(class_to_contract, contract_to_class),
        !class_to_contract.contains_key(class_id@),
        !contract_to_class.contains_key(cw721_addr@),
    ensures
        bidirectional(
            class_to_contract.insert(class_id@, cw721_addr),
            contract_to_class.insert(cw721_addr@, class_id),
        ),
{
    let classes = class_to_contract.insert(class_id@, cw721_addr);
    let contracts = contract_to_class.insert(cw721_addr@, class_id);
    assert forall|c: Seq<char>| #[trigger] classes.contains_key(c) implies {
        &&& contracts.contains_key(classes[c]@)
        &&& contracts[classes[c]@]@ == c
    } by {
        if c != class_id@ {
            assert(class_to_contract.contains_key(c));
        }
    }
    assert forall|a: Seq<char>| #[trigger] contracts.contains_key(a) implies {
        &&& classes.contains_key(contracts[a]@)
        &&& classes[contracts[a]@]@ == a
    } by {
        if a != cw721_addr@ {
            assert(contract_to_class.contains_key(a));
        }
    }
}

/// What recording a new escrow hands back: the success acknowledgement.
pub open spec fn escrow_recorded(escrow_addr: Seq<char>, channel_id: Seq<char>) -> ResponseView {
    ResponseView {
        messages: seq![],
        attributes: seq![
            ("method"@, "instantiate_escrow_reply"@),
            ("escrow_addr"@, escrow_addr),
            ("channel_id"@, channel_id),
        ],
        data: Some(success_ack()),
    }
}

/// Records the escrow that was instantiated for a channel. Nothing else changes.
pub fn instantiate_escrow_reply(state: &mut State, escrow_addr: String, channel_id: String) -> (response:
    Response)
    ensures
        response@ == escrow_recorded(escrow_addr@, channel_id@),
        final(state).channels@ == old(state).channels@.insert(channel_id@, escrow_addr),
        *final(state) == (State { channels: final(state).channels, ..*old(state) }),
{
    let mut attributes: Vec<(String, String)> = Vec::new();
    attributes.push(attr("method", "instantiate_escrow_reply"));
    attributes.push(attr("escrow_addr", escrow_addr.as_str()));
    attributes.push(attr("channel_id", channel_id.as_str()));
    state.channels.save(channel_id, escrow_addr);
    let response = Response { messages: Vec::new(), attributes, data: Some(ack_success()) };
    proof {
        let expected = escrow_recorded(escrow_addr@, channel_id@);
        assert(response.data->0.deep_view() =~= response.data->0@);
        assert(response@.messages =~= expected.messages);
        assert(response@.attributes =~= expected.attributes);
    }
    response
}

/// Every received packet is acknowledged once. A packet that is refused is
/// acknowledged at once and dispatches nothing. A packet that is accepted is
/// not acknowledged yet: it dispatches one unit of work whose outcome is
/// always reported, and that outcome, whatever it is, writes the
/// acknowledgement.
pub proof fn lemma_one_acknowledgement(
    state: State,
    env: Env,
    src: IbcEndpoint,
    dest: IbcEndpoint,
    decoded: Result<NonFungibleTokenPacketData, String>,
    callback: Option<ReceiveCallbackView>,
    result: SubMsgResult,
)
    ensures
        ({
            let response = packet_response(state, env, src, dest, decoded, callback);
            if response.data is Some {
                response.messages.len() == 0
            } else {
                &&& response.messages.len() == 1
                &&& response.messages[0].id == ACK_AND_DO_NOTHING_REPLY_ID
                &&& response.messages[0].reply_on == ReplyOn::Always
            }
        }),
        reply_outcome(Reply { id: ACK_AND_DO_NOTHING_REPLY_ID, result }) matches Ok(
            CompletionView::Respond(settled),
        ) && settled.data is Some && settled.messages.len() == 0,
{
}

} // verus!
