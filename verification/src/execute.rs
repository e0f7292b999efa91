//! The steps that the bridge asks of itself, each run when its turn comes.

use vstd::prelude::*;
use crate::address::{class_salt, nft_contract_salt};
use crate::copy::{copy_optional_bytes, copy_optional_text};
use crate::error::{ContractError, ErrorView};
use crate::ledger::{remove_entries, without_entries};
use crate::msg::{
    unreported, CallbackMsg, CallbackMsgView, Dispatch, DispatchView, NewTokenInfo,
    NewTokenInfoView, Operation, OperationView, ReplyOn, Response, ResponseView, SubMsg,
    SubMsgView, TransferInfo, TransferInfoView, INSTANTIATE_CW721_REPLY_ID,
};
use crate::packet::{Token, TokenView};
use crate::state::{metadata_view, State, TokenKey};

verus! {

/// A response that dispatches work and nothing else.
pub open spec fn dispatching(messages: Seq<SubMsgView>) -> ResponseView {
    ResponseView { messages, attributes: seq![], data: None }
}

/// The request to instantiate the token contract of a class. Its outcome is
/// reported only if it succeeds: a failure fails the unit it is part of.
pub open spec fn instantiation(class_id: Seq<char>) -> SubMsgView {
    SubMsgView {
        id: INSTANTIATE_CW721_REPLY_ID,
        msg: DispatchView::Single(
            OperationView::InstantiateNftContract { class_id, salt: class_salt(class_id) },
        ),
        reply_on: ReplyOn::Success,
    }
}

/// What creating the tokens of a class dispatches: the instantiation of the
/// class's token contract iff the class has none yet, and then the minting.
pub open spec fn instantiate_and_mint(
    contracts: Map<Seq<char>, String>,
    receiver: Seq<char>,
    new_tokens: NewTokenInfoView,
) -> ResponseView {
    let mint = unreported(
        OperationView::Callback(
            CallbackMsgView::Mint {
                class_id: new_tokens.class.id,
                tokens: new_tokens.tokens,
                receiver,
            },
        ),
    );
    dispatching(
        if contracts.contains_key(new_tokens.class.id) {
            seq![mint]
        } else {
            seq![instantiation(new_tokens.class.id), mint]
        },
    )
}

/// Instantiates the token contract of the class iff the class does not have
/// one yet, and then mints the tokens. Nothing is recorded here.
pub fn callback_instantiate_and_mint(state: &State, receiver: String, new_tokens: NewTokenInfo) -> (response:
    Response)
    ensures
        response@ == instantiate_and_mint(
            state.class_id_to_nft_contract@,
            receiver@,
            new_tokens@,
        ),
{
    let ghost expected = instantiate_and_mint(
        state.class_id_to_nft_contract@,
        receiver@,
        new_tokens@,
    );
    let mut messages: Vec<SubMsg> = Vec::new();
    if !state.class_id_to_nft_contract.has(&new_tokens.class.id) {
        let salt = nft_contract_salt(new_tokens.class.id.as_str());
        messages.push(
            SubMsg {
                id: INSTANTIATE_CW721_REPLY_ID,
                msg: Dispatch::Single(
                    Operation::InstantiateNftContract {
                        class_id: new_tokens.class.id.clone(),
                        salt,
                    },
                ),
                reply_on: ReplyOn::Success,
            },
        );
    }
    messages.push(
        SubMsg {
            id: 0,
            msg: Dispatch::Single(
                Operation::Callback(
                    CallbackMsg::Mint {
                        class_id: new_tokens.class.id,
                        tokens: new_tokens.tokens,
                        receiver,
                    },
                ),
            ),
            reply_on: ReplyOn::Never,
        },
    );
    let response = Response { messages, attributes: Vec::new(), data: None };
    proof {
        assert(response@.messages =~= expected.messages);
        assert(response@.attributes =~= expected.attributes);
    }
    response
}

/// The request to mint one token for its owner.
pub open spec fn minting(nft_address: Seq<char>, token: TokenView, owner: Seq<char>) -> SubMsgView {
    unreported(
        OperationView::MintToken {
            nft_address,
            token_id: token.id,
            token_uri: token.uri,
            owner,
        },
    )
}

/// A metadata store in which the metadata of each of the tokens is kept.
pub open spec fn with_metadata(
    metadata: Map<TokenKey, Option<Seq<u8>>>,
    class_id: Seq<char>,
    tokens: Seq<TokenView>,
) -> Map<TokenKey, Option<Seq<u8>>>
    decreases tokens.len(),
{
    if tokens.len() == 0 {
        metadata
    } else {
        with_metadata(metadata, class_id, tokens.drop_last()).insert(
            (class_id, tokens.last().id),
            tokens.last().data,
        )
    }
}

/// What minting tokens comes to: one request for each token, in order, to the
/// token contract of the class, which must exist.
pub open spec fn mint_outcome(
    contracts: Map<Seq<char>, String>,
    class_id: Seq<char>,
    tokens: Seq<TokenView>,
    receiver: Seq<char>,
) -> Result<ResponseView, ErrorView> {
    if contracts.contains_key(class_id) {
        Ok(
            dispatching(
                Seq::new(
                    tokens.len(),
                    |i: int| minting(contracts[class_id]@, tokens[i], receiver),
                ),
            ),
        )
    } else {
        Err(ErrorView::NoNftContractForClassId { class_id })
    }
}

/// Mints tokens of a class for the receiver and keeps the metadata of each,
/// whether or not it has any, under its class and token. A class without a
/// token contract is an error, and then nothing is kept.
pub fn callback_mint(
    state: &mut State,
    class_id: &String,
    tokens: &Vec<Token>,
    receiver: &String,
) -> (minted: Result<Response, ContractError>)
    ensures
        match mint_outcome(
            old(state).class_id_to_nft_contract@,
            class_id@,
            tokens.deep_view(),
            receiver@,
        ) {
            Ok(expected) => {
                &&& minted matches Ok(response) && response@ == expected
                &&& metadata_view(final(state).token_metadata@) == with_metadata(
                    metadata_view(old(state).token_metadata@),
                    class_id@,
                    tokens.deep_view(),
                )
            },
            Err(refusal) => {
                &&& minted matches Err(error) && error@ == refusal
                &&& *final(state) == *old(state)
            },
        },
        *final(state) == (State { token_metadata: final(state).token_metadata, ..*old(state) }),
{
    let nft_address = match state.class_id_to_nft_contract.may_load(class_id) {
        Some(nft_address) => nft_address.clone(),
        None => {
            return Err(ContractError::NoNftContractForClassId { class_id: class_id.clone() });
        },
    };
    let ghost all = tokens.deep_view();
    let ghost before = metadata_view(old(state).token_metadata@);
    let mut messages: Vec<SubMsg> = Vec::new();
    let mut i: usize = 0;
    assert(all.take(0) =~= Seq::<TokenView>::empty());
    while i < tokens.len()
        invariant
            i <= tokens.len(),
            all == tokens.deep_view(),
            before == metadata_view(old(state).token_metadata@),
            messages.len() == i,
            forall|j: int|
                0 <= j < i ==> (#[trigger] messages[j])@ == minting(
                    nft_address@,
                    tokens[j]@,
                    receiver@,
                ),
            metadata_view(state.token_metadata@) == with_metadata(
                before,
                class_id@,
                all.take(i as int),
            ),
            *state == (State { token_metadata: state.token_metadata, ..*old(state) }),
        decreases tokens.len() - i,
    {
        let token = &tokens[i];
        let data = copy_optional_bytes(&token.data);
        proof {
            let next = all.take(i + 1);
            assert(next.drop_last() =~= all.take(i as int));
            assert(next.last() == token@);
            assert(metadata_view(state.token_metadata@.insert((class_id@, token.id@), data))
                =~= metadata_view(state.token_metadata@).insert(
                (class_id@, token.id@),
                token@.data,
            ));
        }
        state.token_metadata.save((class_id.clone(), token.id.clone()), data);
        messages.push(
            SubMsg {
                id: 0,
                msg: Dispatch::Single(
                    Operation::MintToken {
                        nft_address: nft_address.clone(),
                        token_id: token.id.clone(),
                        token_uri: copy_optional_text(&token.uri),
                        owner: receiver.clone(),
                    },
                ),
                reply_on: ReplyOn::Never,
            },
        );
        i = i + 1;
    }
    assert(all.take(i as int) =~= all);
    let response = Response { messages, attributes: Vec::new(), data: None };
    proof {
        let expected = mint_outcome(
            old(state).class_id_to_nft_contract@,
            class_id@,
            tokens.deep_view(),
            receiver@,
        )->Ok_0;
        assert(response@.messages =~= expected.messages);
        assert(response@.attributes =~= expected.attributes);
    }
    Ok(response)
}

/// The request to release one token from an escrow to its receiver. Its
/// outcome is not reported: a failure fails the unit it is part of.
pub open spec fn release(
    escrow: Seq<char>,
    nft_address: Seq<char>,
    token_id: Seq<char>,
    receiver: Seq<char>,
) -> SubMsgView {
    unreported(OperationView::EscrowWithdraw { escrow, nft_address, token_id, receiver })
}

/// What a transfer out of escrow comes to: one release for each token, in
/// order, from the escrow of the channel to the receiver. The channel must have
/// an escrow and the class a token contract.
pub open spec fn batch_transfer_outcome(
    state: State,
    channel: Seq<char>,
    receiver: Seq<char>,
    transfers: TransferInfoView,
) -> Result<ResponseView, ErrorView> {
    if !state.channels@.contains_key(channel) {
        Err(ErrorView::UnknownChannel { channel })
    } else if !state.class_id_to_nft_contract@.contains_key(transfers.class_id) {
        Err(ErrorView::NoNftContractForClassId { class_id: transfers.class_id })
    } else {
        Ok(
            dispatching(
                Seq::new(
                    transfers.token_ids.len(),
                    |i: int|
                        release(
                            state.channels@[channel]@,
                            state.class_id_to_nft_contract@[transfers.class_id]@,
                            transfers.token_ids[i],
                            receiver,
                        ),
                ),
            ),
        )
    }
}

/// Transfers tokens out of the escrow of a channel to the receiver.
pub fn callback_batch_transfer(
    state: &State,
    channel: &String,
    receiver: &String,
    transfers: &TransferInfo,
) -> (transferred: Result<Response, ContractError>)
    ensures
        match batch_transfer_outcome(*state, channel@, receiver@, transfers@) {
            Ok(expected) => transferred matches Ok(response) && response@ == expected,
            Err(refusal) => transferred matches Err(error) && error@ == refusal,
        },
{
    let escrow = match state.channels.may_load(channel) {
        Some(escrow) => escrow,
        None => {
            return Err(ContractError::UnknownChannel { channel: channel.clone() });
        },
    };
    let nft_address = match state.class_id_to_nft_contract.may_load(&transfers.class_id) {
        Some(nft_address) => nft_address,
        None => {
            return Err(
                ContractError::NoNftContractForClassId { class_id: transfers.class_id.clone() },
            );
        },
    };
    let mut messages: Vec<SubMsg> = Vec::new();
    let mut i: usize = 0;
    while i < transfers.token_ids.len()
        invariant
            i <= transfers.token_ids.len(),
            messages.len() == i,
            forall|j: int|
                0 <= j < i ==> (#[trigger] messages[j])@ == release(
                    escrow@,
                    nft_address@,
                    transfers.token_ids[j]@,
                    receiver@,
                ),
        decreases transfers.token_ids.len() - i,
    {
        messages.push(
            SubMsg {
                id: 0,
                msg: Dispatch::Single(
                    Operation::EscrowWithdraw {
                        escrow: escrow.clone(),
                        nft_address: nft_address.clone(),
                        token_id: transfers.token_ids[i].clone(),
                        receiver: receiver.clone(),
                    },
                ),
                reply_on: ReplyOn::Never,
            },
        );
        i = i + 1;
    }
    let response = Response { messages, attributes: Vec::new(), data: None };
    proof {
        let expected = batch_transfer_outcome(*state, channel@, receiver@, transfers@)->Ok_0;
        assert(response@.messages =~= expected.messages);
        assert(response@.attributes =~= expected.attributes);
    }
    Ok(response)
}

/// Forgets on which channel the tokens were sent out: they have come back.
/// This is the last step of a redemption, run once the tokens have left the
/// escrow.
pub fn callback_redeem_outgoing_channel_entries(state: &mut State, entries: &Vec<(String, String)>) -> (response:
    Response)
    ensures
        response@ == dispatching(seq![]),
        final(state).outgoing_class_token_to_channel@ == without_entries(
            old(state).outgoing_class_token_to_channel@,
            entries.deep_view(),
        ),
        *final(state) == (State {
            outgoing_class_token_to_channel: final(state).outgoing_class_token_to_channel,
            ..*old(state)
        }),
{
    remove_entries(&mut state.outgoing_class_token_to_channel, entries);
    let response = Response { messages: Vec::new(), attributes: Vec::new(), data: None };
    proof {
        assert(response@.messages =~= dispatching(seq![]).messages);
        assert(response@.attributes =~= dispatching(seq![]).attributes);
    }
    response
}

/// Runs a step that the bridge asked of itself. Each step does what its own
/// function says; only minting and the cleanup of the ledger record anything.
pub fn execute_callback(state: &mut State, msg: CallbackMsg) -> (handled: Result<
    Response,
    ContractError,
>)
    ensures
        match msg {
            CallbackMsg::DoInstantiateAndMint { receiver, new_tokens } => {
                &&& handled matches Ok(response) && response@ == instantiate_and_mint(
                    old(state).class_id_to_nft_contract@,
                    receiver@,
                    new_tokens@,
                )
                &&& *final(state) == *old(state)
            },
            CallbackMsg::BatchTransfer { channel, receiver, transfers } => {
                &&& match batch_transfer_outcome(*old(state), channel@, receiver@, transfers@) {
                    Ok(expected) => handled matches Ok(response) && response@ == expected,
                    Err(refusal) => handled matches Err(error) && error@ == refusal,
                }
                &&& *final(state) == *old(state)
            },
            CallbackMsg::Mint { class_id, tokens, receiver } => {
                &&& match mint_outcome(
                    old(state).class_id_to_nft_contract@,
                    class_id@,
                    tokens.deep_view(),
                    receiver@,
                ) {
                    Ok(expected) => {
                        &&& handled matches Ok(response) && response@ == expected
                        &&& metadata_view(final(state).token_metadata@) == with_metadata(
                            metadata_view(old(state).token_metadata@),
                            class_id@,
                            tokens.deep_view(),
                        )
                    },
                    Err(refusal) => {
                        &&& handled matches Err(error) && error@ == refusal
                        &&& *final(state) == *old(state)
                    },
                }
                &&& *final(state) == (State {
                    token_metadata: final(state).token_metadata,
                    ..*old(state)
                })
            },
            CallbackMsg::RedeemOutgoingChannelEntries(entries) => {
                &&& handled matches Ok(response) && response@ == dispatching(seq![])
                &&& final(state).outgoing_class_token_to_channel@ == without_entries(
                    old(state).outgoing_class_token_to_channel@,
                    entries.deep_view(),
                )
                &&& *final(state) == (State {
                    outgoing_class_token_to_channel: final(state).outgoing_class_token_to_channel,
                    ..*old(state)
                })
            },
        },
{
    match msg {
        CallbackMsg::DoInstantiateAndMint { receiver, new_tokens } => Ok(
            callback_instantiate_and_mint(state, receiver, new_tokens),
        ),
        CallbackMsg::BatchTransfer { channel, receiver, transfers } => callback_batch_transfer(
            state,
            &channel,
            &receiver,
            &transfers,
        ),
        CallbackMsg::Mint { class_id, tokens, receiver } => callback_mint(
            state,
            &class_id,
            &tokens,
            &receiver,
        ),
        CallbackMsg::RedeemOutgoingChannelEntries(entries) => Ok(
            callback_redeem_outgoing_channel_entries(state, &entries),
        ),
    }
}

} // verus!
