//! The operations that packet handling schedules, and the responses that carry them.

use vstd::prelude::*;
use vstd::string::StringExecFns;
use crate::packet::{
    Class, ClassView, NonFungibleTokenPacketData, PacketView, Token, TokenView,
};

verus! {

/// Tokens of one class that leave an escrow.
#[derive(Clone, Debug, PartialEq, Eq)]
pub struct TransferInfo {
    /// The class ID the tokens belong to.
    pub class_id: String,
    /// The tokens to be transfered.
    pub token_ids: Vec<String>,
}

/// What a [`TransferInfo`] holds, as mathematical values.
pub struct TransferInfoView {
    pub class_id: Seq<char>,
    pub token_ids: Seq<Seq<char>>,
}

impl View for TransferInfo {
    type V = TransferInfoView;

    open spec fn view(&self) -> TransferInfoView {
        TransferInfoView { class_id: self.class_id@, token_ids: self.token_ids.deep_view() }
    }
}

/// Tokens of one class that are to be minted.
#[derive(Clone, Debug, PartialEq, Eq)]
pub struct NewTokenInfo {
    /// The class to mint tokens for, with its metadata.
    pub class: Class,
    /// The tokens to be minted, each with its metadata.
    pub tokens: Vec<Token>,
}

/// What a [`NewTokenInfo`] holds, as mathematical values.
pub struct NewTokenInfoView {
    pub class: ClassView,
    pub tokens: Seq<TokenView>,
}

impl View for NewTokenInfo {
    type V = NewTokenInfoView;

    open spec fn view(&self) -> NewTokenInfoView {
        NewTokenInfoView { class: self.class@, tokens: self.tokens.deep_view() }
    }
}

/// Messages used internally by the contract. These may only be
/// called by the contract itself.
#[derive(Clone, Debug, PartialEq, Eq)]
pub enum CallbackMsg {
    /// Instantiates the token contract of the class iff the class does not
    /// have one yet, then mints the tokens for the receiver and keeps
    /// their metadata.
    DoInstantiateAndMint {
        /// The address that ought to receive the tokens.
        receiver: String,
        /// The class and the tokens to mint.
        new_tokens: NewTokenInfo,
    },
    /// Transfers tokens out of the escrow of a channel to the receiver.
    BatchTransfer {
        /// The local channel whose escrow holds the tokens.
        channel: String,
        /// The address that should receive the tokens.
        receiver: String,
        /// The tokens that should be sent.
        transfers: TransferInfo,
    },
    /// Mints tokens of a class that has its token contract for the receiver
    /// and keeps their metadata.
    Mint {
        /// The class to mint for.
        class_id: String,
        /// The tokens to mint, each with its metadata.
        tokens: Vec<Token>,
        /// The address that ought to receive the tokens.
        receiver: String,
    },
    /// Forgets on which channel these tokens were sent out.
    RedeemOutgoingChannelEntries(Vec<(String, String)>),
}

/// What a [`CallbackMsg`] holds, as mathematical values.
pub enum CallbackMsgView {
    DoInstantiateAndMint { receiver: Seq<char>, new_tokens: NewTokenInfoView },
    BatchTransfer { channel: Seq<char>, receiver: Seq<char>, transfers: TransferInfoView },
    Mint { class_id: Seq<char>, tokens: Seq<TokenView>, receiver: Seq<char> },
    RedeemOutgoingChannelEntries(Seq<(Seq<char>, Seq<char>)>),
}

impl View for CallbackMsg {
    type V = CallbackMsgView;

    open spec fn view(&self) -> CallbackMsgView {
        match *self {
            CallbackMsg::DoInstantiateAndMint { receiver, new_tokens } => {
                CallbackMsgView::DoInstantiateAndMint {
                    receiver: receiver@,
                    new_tokens: new_tokens@,
                }
            },
            CallbackMsg::BatchTransfer { channel, receiver, transfers } => {
                CallbackMsgView::BatchTransfer {
                    channel: channel@,
                    receiver: receiver@,
                    transfers: transfers@,
                }
            },
            CallbackMsg::Mint { class_id, tokens, receiver } => CallbackMsgView::Mint {
                class_id: class_id@,
                tokens: tokens.deep_view(),
                receiver: receiver@,
            },
            CallbackMsg::RedeemOutgoingChannelEntries(entries) => {
                CallbackMsgView::RedeemOutgoingChannelEntries(entries.deep_view())
            },
        }
    }
}

/// The contract that a receive callback is told about.
#[derive(Clone, Debug, PartialEq, Eq)]
pub enum NftContract {
    /// The contract registered for the class.
    Registered(String),
    /// The canonical address at which the class's contract is or will be instantiated.
    Derived(Vec<u8>),
}

/// What an [`NftContract`] holds, as mathematical values.
pub enum NftContractView {
    Registered(Seq<char>),
    Derived(Seq<u8>),
}

impl View for NftContract {
    type V = NftContractView;

    open spec fn view(&self) -> NftContractView {
        match *self {
            NftContract::Registered(address) => NftContractView::Registered(address@),
            NftContract::Derived(canonical) => NftContractView::Derived(canonical@),
        }
    }
}

/// One step of handling a packet.
#[derive(Clone, Debug, PartialEq, Eq)]
pub enum Operation {
    /// Hands the packet to the incoming proxy, which may refuse it.
    IncomingProxy {
        /// The proxy's address.
        proxy: String,
    },
    /// A message of the contract to itself.
    Callback(CallbackMsg),
    /// Tells a contract that tokens have arrived.
    ReceiveCallback {
        /// The contract to tell.
        target: String,
        /// The token contract that holds the tokens.
        nft_contract: NftContract,
        /// What the sender asked to be handed on.
        msg: Vec<u8>,
    },
    /// Asks the escrow of a channel to give a token back.
    EscrowWithdraw {
        /// The escrow's address.
        escrow: String,
        /// The token contract that holds the token.
        nft_address: String,
        /// The token.
        token_id: String,
        /// The address that gets the token.
        receiver: String,
    },
    /// Instantiates the token contract of a class at its derived address.
    InstantiateNftContract {
        /// The class, which names the contract.
        class_id: String,
        /// The salt that fixes the contract's address.
        salt: Vec<u8>,
    },
    /// Mints one token.
    MintToken {
        /// The token contract.
        nft_address: String,
        /// The token.
        token_id: String,
        /// Where the token's metadata can be found, if anywhere.
        token_uri: Option<String>,
        /// The address that gets the token.
        owner: String,
    },
    /// Moves one token into the escrow of a channel. The token contract
    /// refuses unless the bridge has authority over the token.
    TransferToEscrow {
        /// The token contract.
        nft_address: String,
        /// The token.
        token_id: String,
        /// The escrow's address.
        escrow: String,
    },
    /// Sends a packet over a channel.
    SendPacket {
        /// The local channel to send on.
        channel_id: String,
        /// The packet.
        data: NonFungibleTokenPacketData,
        /// The time after which the packet is no longer accepted, in nanoseconds.
        timeout: u64,
    },
    /// Instantiates the escrow of a channel.
    InstantiateEscrow {
        /// The code to instantiate.
        code_id: u64,
        /// The address that administers the escrow.
        admin_address: String,
        /// The channel that the escrow serves.
        channel_id: String,
        /// The label of the new contract.
        label: String,
    },
}

/// What an [`Operation`] holds, as mathematical values.
pub enum OperationView {
    IncomingProxy { proxy: Seq<char> },
    Callback(CallbackMsgView),
    ReceiveCallback { target: Seq<char>, nft_contract: NftContractView, msg: Seq<u8> },
    EscrowWithdraw {
        escrow: Seq<char>,
        nft_address: Seq<char>,
        token_id: Seq<char>,
        receiver: Seq<char>,
    },
    InstantiateNftContract { class_id: Seq<char>, salt: Seq<u8> },
    MintToken {
        nft_address: Seq<char>,
        token_id: Seq<char>,
        token_uri: Option<Seq<char>>,
        owner: Seq<char>,
    },
    TransferToEscrow { nft_address: Seq<char>, token_id: Seq<char>, escrow: Seq<char> },
    SendPacket { channel_id: Seq<char>, data: PacketView, timeout: u64 },
    InstantiateEscrow {
        code_id: u64,
        admin_address: Seq<char>,
        channel_id: Seq<char>,
        label: Seq<char>,
    },
}

impl View for Operation {
    type V = OperationView;

    open spec fn view(&self) -> OperationView {
        match *self {
            Operation::IncomingProxy { proxy } => OperationView::IncomingProxy { proxy: proxy@ },
            Operation::Callback(msg) => OperationView::Callback(msg@),
            Operation::ReceiveCallback { target, nft_contract, msg } => {
                OperationView::ReceiveCallback {
                    target: target@,
                    nft_contract: nft_contract@,
                    msg: msg@,
                }
            },
            Operation::EscrowWithdraw { escrow, nft_address, token_id, receiver } => {
                OperationView::EscrowWithdraw {
                    escrow: escrow@,
                    nft_address: nft_address@,
                    token_id: token_id@,
                    receiver: receiver@,
                }
            },
            Operation::InstantiateNftContract { class_id, salt } => {
                OperationView::InstantiateNftContract { class_id: class_id@, salt: salt@ }
            },
            Operation::MintToken { nft_address, token_id, token_uri, owner } => {
                OperationView::MintToken {
                    nft_address: nft_address@,
                    token_id: token_id@,
                    token_uri: token_uri.deep_view(),
                    owner: owner@,
                }
            },
            Operation::TransferToEscrow { nft_address, token_id, escrow } => {
                OperationView::TransferToEscrow {
                    nft_address: nft_address@,
                    token_id: token_id@,
                    escrow: escrow@,
                }
            },
            Operation::SendPacket { channel_id, data, timeout } => OperationView::SendPacket {
                channel_id: channel_id@,
                data: data@,
                timeout,
            },
            Operation::InstantiateEscrow { code_id, admin_address, channel_id, label } => {
                OperationView::InstantiateEscrow {
                    code_id,
                    admin_address: admin_address@,
                    channel_id: channel_id@,
                    label: label@,
                }
            },
        }
    }
}

impl DeepView for Operation {
    type V = OperationView;

    open spec fn deep_view(&self) -> OperationView {
        self@
    }
}

/// What is dispatched as one unit: a single step, or several steps of which
/// one failure fails all.
#[derive(Clone, Debug, PartialEq, Eq)]
pub enum Dispatch {
    /// One step on its own.
    Single(Operation),
    /// Steps that run in order and succeed or fail together.
    Conjunction {
        /// The steps, in the order in which they run.
        operands: Vec<Operation>,
    },
}

/// What a [`Dispatch`] holds, as mathematical values.
pub enum DispatchView {
    Single(OperationView),
    Conjunction { operands: Seq<OperationView> },
}

impl View for Dispatch {
    type V = DispatchView;

    open spec fn view(&self) -> DispatchView {
        match *self {
            Dispatch::Single(operation) => DispatchView::Single(operation@),
            Dispatch::Conjunction { operands } => DispatchView::Conjunction {
                operands: operands.deep_view(),
            },
        }
    }
}

/// When the outcome of a dispatched unit is reported back.
#[derive(Clone, Copy, Debug, PartialEq, Eq, Structural)]
pub enum ReplyOn {
    /// Whatever the outcome.
    Always,
    /// Only when the unit failed.
    Error,
    /// Only when the unit succeeded.
    Success,
    /// Never.
    Never,
}

/// A unit of work dispatched under a tag by which its outcome is told apart.
#[derive(Clone, Debug, PartialEq, Eq)]
pub struct SubMsg {
    /// The tag under which the outcome is reported.
    pub id: u64,
    /// The work.
    pub msg: Dispatch,
    /// When the outcome is reported.
    pub reply_on: ReplyOn,
}

/// What a [`SubMsg`] holds, as mathematical values.
pub struct SubMsgView {
    pub id: u64,
    pub msg: DispatchView,
    pub reply_on: ReplyOn,
}

impl View for SubMsg {
    type V = SubMsgView;

    open spec fn view(&self) -> SubMsgView {
        SubMsgView { id: self.id, msg: self.msg@, reply_on: self.reply_on }
    }
}

impl DeepView for SubMsg {
    type V = SubMsgView;

    open spec fn deep_view(&self) -> SubMsgView {
        self@
    }
}

/// What handling an event hands back to the runtime.
#[derive(Clone, Debug, PartialEq, Eq)]
pub struct Response {
    /// The units of work to dispatch, in order.
    pub messages: Vec<SubMsg>,
    /// What is logged of the event, as keys and values in order.
    pub attributes: Vec<(String, String)>,
    /// The acknowledgement to commit, if this event settles it.
    pub data: Option<Vec<u8>>,
}

/// What a [`Response`] holds, as mathematical values.
pub struct ResponseView {
    pub messages: Seq<SubMsgView>,
    pub attributes: Seq<(Seq<char>, Seq<char>)>,
    pub data: Option<Seq<u8>>,
}

impl View for Response {
    type V = ResponseView;

    open spec fn view(&self) -> ResponseView {
        ResponseView {
            messages: self.messages.deep_view(),
            attributes: self.attributes.deep_view(),
            data: self.data.deep_view(),
        }
    }
}

/// The tag of the completion that reports a new token contract.
pub const INSTANTIATE_CW721_REPLY_ID: u64 = 1;

/// The tag of the completion that reports a new escrow.
pub const INSTANTIATE_ESCROW_REPLY_ID: u64 = 2;

/// The tag of the completion that settles a received packet.
pub const ACK_AND_DO_NOTHING_REPLY_ID: u64 = 3;

/// The tag of the completion of a withdrawal from escrow.
pub const FAILURE_RESPONSE_FAILURE_REPLY_ID: u64 = 4;

/// Each kind of dispatched work has a tag of its own, so that an outcome is
/// matched to the work it is the outcome of.
pub proof fn lemma_tags_differ()
    ensures
        INSTANTIATE_CW721_REPLY_ID != INSTANTIATE_ESCROW_REPLY_ID,
        INSTANTIATE_CW721_REPLY_ID != ACK_AND_DO_NOTHING_REPLY_ID,
        INSTANTIATE_CW721_REPLY_ID != FAILURE_RESPONSE_FAILURE_REPLY_ID,
        INSTANTIATE_ESCROW_REPLY_ID != ACK_AND_DO_NOTHING_REPLY_ID,
        INSTANTIATE_ESCROW_REPLY_ID != FAILURE_RESPONSE_FAILURE_REPLY_ID,
        ACK_AND_DO_NOTHING_REPLY_ID != FAILURE_RESPONSE_FAILURE_REPLY_ID,
{
}

/// A key and a value of a response's log.
pub fn attr(key: &str, value: &str) -> (pair: (String, String))
    ensures
        pair.0@ == key@,
        pair.1@ == value@,
{
    (String::from_str(key), String::from_str(value))
}

/// A step that is dispatched without a report of its outcome.
pub open spec fn unreported(operation: OperationView) -> SubMsgView {
    SubMsgView { id: 0, msg: DispatchView::Single(operation), reply_on: ReplyOn::Never }
}

/// The request to give one token of a failed packet back to its sender. Its
/// outcome is reported only if it fails.
pub open spec fn withdrawal(
    escrow: Seq<char>,
    nft_address: Seq<char>,
    token_id: Seq<char>,
    receiver: Seq<char>,
) -> SubMsgView {
    SubMsgView {
        id: FAILURE_RESPONSE_FAILURE_REPLY_ID,
        msg: DispatchView::Single(
            OperationView::EscrowWithdraw { escrow, nft_address, token_id, receiver },
        ),
        reply_on: ReplyOn::Error,
    }
}

} // verus!
