//! Receipt of a packet: whether its tokens return home or arrive fresh, and
//! what is scheduled for them.

use vstd::prelude::*;
use vstd::string::StringExecFns;
use crate::ack::ack_fail_or_fallback;
use crate::ack::{failure_message, json_string};
use crate::address::{get_instantiate2_address, nft_contract_address};
use crate::copy::{copy_optional_bytes, copy_optional_text, copy_texts};
use crate::endpoint::{get_endpoint_prefix, pop_prefix, try_pop_source_prefix, IbcEndpoint};
use crate::error::{error_text, ContractError, ErrorView};
use crate::ledger::{add_entries, class_token_keys, token_keys, with_entries};
use crate::msg::{
    attr, CallbackMsg, CallbackMsgView, Dispatch, DispatchView, NewTokenInfo, NewTokenInfoView,
    NftContract, NftContractView, Operation, OperationView, ReplyOn, Response, ResponseView,
    SubMsg, SubMsgView, TransferInfo, TransferInfoView, ACK_AND_DO_NOTHING_REPLY_ID,
};
use crate::packet::{Class, ClassView, NonFungibleTokenPacketData, PacketView};
use crate::state::{State, TokenKey};
use crate::store::Store;

verus! {

/// Whether a token returns home: its class came back over the channel's
/// prefix, and the token was last sent out on the very channel it arrives on.
pub open spec fn redeems(
    outgoing: Map<TokenKey, String>,
    returning: bool,
    class_id: Seq<char>,
    token_id: Seq<char>,
    channel: Seq<char>,
) -> bool {
    &&& returning
    &&& outgoing.contains_key((class_id, token_id))
    &&& outgoing[(class_id, token_id)]@ == channel
}

/// Every token of the list returns home.
pub open spec fn all_redeem(
    outgoing: Map<TokenKey, String>,
    returning: bool,
    class_id: Seq<char>,
    token_ids: Seq<Seq<char>>,
    channel: Seq<char>,
) -> bool {
    forall|i: int|
        0 <= i < token_ids.len() ==> redeems(
            outgoing,
            returning,
            class_id,
            #[trigger] token_ids[i],
            channel,
        )
}

/// No token of the list returns home.
pub open spec fn none_redeem(
    outgoing: Map<TokenKey, String>,
    returning: bool,
    class_id: Seq<char>,
    token_ids: Seq<Seq<char>>,
    channel: Seq<char>,
) -> bool {
    forall|i: int|
        0 <= i < token_ids.len() ==> !redeems(
            outgoing,
            returning,
            class_id,
            #[trigger] token_ids[i],
            channel,
        )
}

/// How the tokens of one packet classify: `Ok(true)` when all of them are
/// redeemed, `Ok(false)` when all of them are created, and an error when there
/// is no token or when some are redeemed and some created.
pub open spec fn classification(
    outgoing: Map<TokenKey, String>,
    returning: bool,
    class_id: Seq<char>,
    token_ids: Seq<Seq<char>>,
    channel: Seq<char>,
) -> Result<bool, ErrorView> {
    if token_ids.len() == 0 {
        Err(ErrorView::InvalidTransferNoAction)
    } else if all_redeem(outgoing, returning, class_id, token_ids, channel) {
        Ok(true)
    } else if none_redeem(outgoing, returning, class_id, token_ids, channel) {
        Ok(false)
    } else {
        Err(ErrorView::InvalidTransferBothActions)
    }
}

/// The tokens of one packet never classify both ways: where the packet is
/// accepted as a redemption every token returns home, where it is accepted as a
/// creation none does, and a packet with a token of each kind is refused,
/// whatever the outgoing ledger holds.
pub proof fn lemma_classification_never_mixed(
    outgoing: Map<TokenKey, String>,
    returning: bool,
    class_id: Seq<char>,
    token_ids: Seq<Seq<char>>,
    channel: Seq<char>,
)
    ensures
        classification(outgoing, returning, class_id, token_ids, channel) == Ok::<
            bool,
            ErrorView,
        >(true) ==> token_ids.len() > 0 && all_redeem(
            outgoing,
            returning,
            class_id,
            token_ids,
            channel,
        ),
        classification(outgoing, returning, class_id, token_ids, channel) == Ok::<
            bool,
            ErrorView,
        >(false) ==> token_ids.len() > 0 && none_redeem(
            outgoing,
            returning,
            class_id,
            token_ids,
            channel,
        ),
        (exists|i: int, j: int|
            0 <= i < token_ids.len() && 0 <= j < token_ids.len() && redeems(
                outgoing,
                returning,
                class_id,
                #[trigger] token_ids[i],
                channel,
            ) && !redeems(outgoing, returning, class_id, #[trigger] token_ids[j], channel))
            ==> classification(outgoing, returning, class_id, token_ids, channel) == Err::<
            bool,
            ErrorView,
        >(ErrorView::InvalidTransferBothActions),
        !returning && token_ids.len() > 0 ==> classification(
            outgoing,
            returning,
            class_id,
            token_ids,
            channel,
        ) == Ok::<bool, ErrorView>(false),
{
    if !returning && token_ids.len() > 0 {
        assert(!redeems(outgoing, returning, class_id, token_ids[0], channel));
    }
}

/// Whether one token returns home.
pub fn is_redemption(
    outgoing: &Store<(String, String), String>,
    returning: bool,
    class_id: &String,
    token_id: &String,
    channel: &String,
) -> (redeemable: bool)
    ensures
        redeemable == redeems(outgoing@, returning, class_id@, token_id@, channel@),
{
    if !returning {
        return false;
    }
    let key = (class_id.clone(), token_id.clone());
    match outgoing.may_load(&key) {
        Some(outgoing_channel) => *outgoing_channel == *channel,
        None => false,
    }
}

/// Classifies the tokens of one packet. All of them must be either a
/// redemption or a creation: they can't be both.
pub fn classify(
    outgoing: &Store<(String, String), String>,
    returning: bool,
    class_id: &String,
    token_ids: &Vec<String>,
    channel: &String,
) -> (classified: Result<bool, ContractError>)
    ensures
        match classification(outgoing@, returning, class_id@, token_ids.deep_view(), channel@) {
            Ok(redemption) => classified == Ok::<bool, ContractError>(redemption),
            Err(refusal) => classified matches Err(error) && error@ == refusal,
        },
{
    let ghost ids = token_ids.deep_view();
    let mut redeemed: bool = false;
    let mut created: bool = false;
    let mut i: usize = 0;
    while i < token_ids.len()
        invariant
            i <= token_ids.len(),
            ids == token_ids.deep_view(),
            redeemed <==> exists|j: int|
                0 <= j < i && redeems(outgoing@, returning, class_id@, #[trigger] ids[j], channel@),
            created <==> exists|j: int|
                0 <= j < i && !redeems(outgoing@, returning, class_id@, #[trigger] ids[j], channel@),
        decreases token_ids.len() - i,
    {
        let redeemable = is_redemption(outgoing, returning, class_id, &token_ids[i], channel);
        assert(ids[i as int] == token_ids[i as int]@);
        if redeemable {
            redeemed = true;
        } else {
            created = true;
        }
        i = i + 1;
    }
    proof {
        if !created && !redeemed && ids.len() > 0 {
            let first = redeems(outgoing@, returning, class_id@, ids[0], channel@);
            assert(first || !first);
            assert(false);
        }
    }
    if redeemed && created {
        Err(ContractError::InvalidTransferBothActions)
    } else if redeemed {
        Ok(true)
    } else if created {
        Ok(false)
    } else {
        Err(ContractError::InvalidTransferNoAction)
    }
}

/// What the bridge knows of itself when it handles a packet.
#[derive(Clone, Debug, PartialEq, Eq)]
pub struct Env {
    /// The address of the bridge.
    pub contract_address: String,
    /// The address of the bridge in canonical form.
    pub canonical_address: Vec<u8>,
    /// The checksum of the code that token contracts are instantiated from.
    pub cw721_checksum: Vec<u8>,
}

/// A callback that the sender of a packet asked for.
#[derive(Clone, Debug, PartialEq, Eq)]
pub struct ReceiveCallback {
    /// What is to be handed on.
    pub msg: Vec<u8>,
    /// The contract to call; the receiver of the tokens where none is named.
    pub addr: Option<String>,
}

/// The class identifier by which this chain knows the class of a packet: the
/// identifier without the source's prefix where it has that prefix, and else
/// the identifier behind the destination's prefix.
pub open spec fn local_class_id(
    source_prefix: Seq<char>,
    destination_prefix: Seq<char>,
    class_id: Seq<char>,
) -> Seq<char> {
    match pop_prefix(source_prefix, class_id) {
        Some(unprefixed) => unprefixed,
        None => destination_prefix + class_id,
    }
}

/// Resolves the local class identifier of a packet, and says whether the class
/// is returning to this chain.
pub fn resolve_class_id(src: &IbcEndpoint, dest: &IbcEndpoint, class_id: &str) -> (resolved: (
    String,
    bool,
))
    ensures
        resolved.0@ == local_class_id(src.prefix(), dest.prefix(), class_id@),
        resolved.1 == pop_prefix(src.prefix(), class_id@) is Some,
{
    match try_pop_source_prefix(src, class_id) {
        Some(unprefixed) => (String::from_str(unprefixed), true),
        None => {
            let mut local = get_endpoint_prefix(dest);
            local.append(class_id);
            (local, false)
        },
    }
}

/// The step that redeems or creates the tokens of a packet. A redemption takes
/// the tokens out of the escrow of the channel that the packet arrived on.
pub open spec fn voucher_operation(
    redemption: bool,
    class_id: Seq<char>,
    data: PacketView,
    channel: Seq<char>,
) -> OperationView {
    if redemption {
        OperationView::Callback(
            CallbackMsgView::BatchTransfer {
                channel,
                receiver: data.receiver,
                transfers: TransferInfoView { class_id, token_ids: data.token_ids },
            },
        )
    } else {
        OperationView::Callback(
            CallbackMsgView::DoInstantiateAndMint {
                receiver: data.receiver,
                new_tokens: NewTokenInfoView {
                    class: ClassView { id: class_id, uri: data.class_uri, data: data.class_data },
                    tokens: data.tokens(),
                },
            },
        )
    }
}

/// The token contract that a receive callback is told about: for a redemption
/// the contract registered for the class, for a creation the address at which
/// the class's contract is instantiated.
pub open spec fn callback_contract(
    contracts: Map<Seq<char>, String>,
    checksum: Seq<u8>,
    creator: Seq<u8>,
    redemption: bool,
    class_id: Seq<char>,
) -> Result<NftContractView, ErrorView> {
    if redemption {
        if contracts.contains_key(class_id) {
            Ok(NftContractView::Registered(contracts[class_id]@))
        } else {
            Err(ErrorView::NoNftContractForClassId { class_id })
        }
    } else {
        match nft_contract_address(checksum, creator, class_id) {
            Some(canonical) => Ok(NftContractView::Derived(canonical)),
            None => Err(ErrorView::InvalidChecksum),
        }
    }
}

/// The steps of handling a packet, in the order in which they run: the proxy's
/// check, the redemption or creation, the receive callback, and the cleanup of
/// the ledger.
pub open spec fn operations(
    incoming_proxy: Option<OperationView>,
    voucher: OperationView,
    callback: Option<OperationView>,
    redeem_outgoing_class_tokens: Option<Seq<TokenKey>>,
) -> Seq<OperationView> {
    (match incoming_proxy {
        Some(proxy) => seq![proxy],
        None => seq![],
    }) + seq![voucher] + (match callback {
        Some(callback) => seq![callback],
        None => seq![],
    }) + (match redeem_outgoing_class_tokens {
        Some(keys) => seq![
            OperationView::Callback(CallbackMsgView::RedeemOutgoingChannelEntries(keys)),
        ],
        None => seq![],
    })
}

/// Steps as one unit: a single step on its own, several as a conjunction.
pub open spec fn composed(operations: Seq<OperationView>) -> SubMsgView {
    SubMsgView {
        id: ACK_AND_DO_NOTHING_REPLY_ID,
        msg: if operations.len() == 1 {
            DispatchView::Single(operations[0])
        } else {
            DispatchView::Conjunction { operands: operations }
        },
        reply_on: ReplyOn::Always,
    }
}

/// Composes the steps of handling a packet into one unit, so that a failure of
/// any of them fails all, and asks for its outcome to be reported whatever it is.
pub fn into_submessage(
    voucher_message: Operation,
    callback_msg: Option<Operation>,
    redeem_outgoing_class_tokens: Option<Vec<(String, String)>>,
    incoming_proxy_msg: Option<Operation>,
) -> (message: SubMsg)
    ensures
        message@ == composed(
            operations(
                incoming_proxy_msg.deep_view(),
                voucher_message@,
                callback_msg.deep_view(),
                redeem_outgoing_class_tokens.deep_view(),
            ),
        ),
{
    let ghost expected = operations(
        incoming_proxy_msg.deep_view(),
        voucher_message@,
        callback_msg.deep_view(),
        redeem_outgoing_class_tokens.deep_view(),
    );
    let mut m: Vec<Operation> = Vec::new();
    if let Some(incoming_proxy_msg) = incoming_proxy_msg {
        m.push(incoming_proxy_msg);
    }
    m.push(voucher_message);
    if let Some(callback_msg) = callback_msg {
        m.push(callback_msg);
    }
    // once all other steps are done, we can redeem entries in the outgoing channel
    if let Some(outgoing_class_tokens) = redeem_outgoing_class_tokens {
        m.push(Operation::Callback(CallbackMsg::RedeemOutgoingChannelEntries(outgoing_class_tokens)));
    }
    assert(m.deep_view() =~= expected);
    let msg = if m.len() == 1 {
        let only = m.pop().unwrap();
        Dispatch::Single(only)
    } else {
        Dispatch::Conjunction { operands: m }
    };
    SubMsg { id: ACK_AND_DO_NOTHING_REPLY_ID, msg, reply_on: ReplyOn::Always }
}

/// What a [`ReceiveCallback`] holds, as mathematical values.
pub struct ReceiveCallbackView {
    pub msg: Seq<u8>,
    pub addr: Option<Seq<char>>,
}

impl View for ReceiveCallback {
    type V = ReceiveCallbackView;

    open spec fn view(&self) -> ReceiveCallbackView {
        ReceiveCallbackView { msg: self.msg@, addr: self.addr.deep_view() }
    }
}

impl DeepView for ReceiveCallback {
    type V = ReceiveCallbackView;

    open spec fn deep_view(&self) -> ReceiveCallbackView {
        self@
    }
}

/// The step that tells a contract of the tokens' arrival: the contract that
/// the callback names, and the receiver of the tokens where it names none.
pub open spec fn callback_operation(
    callback: ReceiveCallbackView,
    receiver: Seq<char>,
    nft_contract: NftContractView,
) -> OperationView {
    OperationView::ReceiveCallback {
        target: match callback.addr {
            Some(addr) => addr,
            None => receiver,
        },
        nft_contract,
        msg: callback.msg,
    }
}

/// What is logged of a received packet.
pub open spec fn receive_attributes(
    data: PacketView,
    src: IbcEndpoint,
    dest: IbcEndpoint,
) -> Seq<(Seq<char>, Seq<char>)> {
    (match data.memo {
        Some(memo) => seq![("ics721_memo"@, memo)],
        None => seq![],
    }) + seq![
        ("method"@, "receive_ibc_packet"@),
        ("class_id"@, data.class_id),
        ("local_channel"@, dest.channel_id@),
        ("counterparty_channel"@, src.channel_id@),
    ]
}

/// The response to a packet whose tokens classify one way, given the callback
/// step if there is one.
pub open spec fn receive_response(
    incoming_proxy: Option<Seq<char>>,
    src: IbcEndpoint,
    dest: IbcEndpoint,
    data: PacketView,
    redemption: bool,
    callback: Option<OperationView>,
) -> ResponseView {
    let class_id = local_class_id(src.prefix(), dest.prefix(), data.class_id);
    ResponseView {
        messages: seq![
            composed(
                operations(
                    match incoming_proxy {
                        Some(proxy) => Some(OperationView::IncomingProxy { proxy }),
                        None => None,
                    },
                    voucher_operation(redemption, class_id, data, dest.channel_id@),
                    callback,
                    if redemption {
                        Some(class_token_keys(class_id, data.token_ids))
                    } else {
                        None
                    },
                ),
            ),
        ],
        attributes: receive_attributes(data, src, dest),
        data: None,
    }
}

/// What receipt of a packet comes to: the response that schedules the work,
/// or the error for which the packet is refused.
///
/// A packet that is not well-formed is refused first. The tokens are then
/// classified; a packet whose tokens do not all classify the same way is
/// refused. Where a callback was asked for, the token contract it is told
/// about must be known or derivable. The steps run in a fixed order: the
/// proxy's check, the redemption or creation, the callback, and for a
/// redemption the cleanup of the outgoing ledger.
pub open spec fn receive_outcome(
    state: State,
    env: Env,
    src: IbcEndpoint,
    dest: IbcEndpoint,
    data: PacketView,
    callback: Option<ReceiveCallbackView>,
) -> Result<ResponseView, ErrorView> {
    let class_id = local_class_id(src.prefix(), dest.prefix(), data.class_id);
    let returning = pop_prefix(src.prefix(), data.class_id) is Some;
    if !data.valid() {
        Err(ErrorView::InvalidPacket)
    } else {
        match classification(
            state.outgoing_class_token_to_channel@,
            returning,
            class_id,
            data.token_ids,
            dest.channel_id@,
        ) {
            Err(refusal) => Err(refusal),
            Ok(redemption) => match callback {
                None => Ok(
                    receive_response(
                        state.incoming_proxy.deep_view(),
                        src,
                        dest,
                        data,
                        redemption,
                        None,
                    ),
                ),
                Some(callback) => match callback_contract(
                    state.class_id_to_nft_contract@,
                    env.cw721_checksum@,
                    env.canonical_address@,
                    redemption,
                    class_id,
                ) {
                    Err(refusal) => Err(refusal),
                    Ok(nft_contract) => Ok(
                        receive_response(
                            state.incoming_proxy.deep_view(),
                            src,
                            dest,
                            data,
                            redemption,
                            Some(callback_operation(callback, data.receiver, nft_contract)),
                        ),
                    ),
                },
            },
        }
    }
}

/// The state that receipt of a packet leaves: each created token is entered in
/// the incoming ledger for the channel it arrived on. A redemption changes
/// nothing yet, and neither does a packet that is refused.
pub open spec fn receive_state(
    state: State,
    env: Env,
    src: IbcEndpoint,
    dest: IbcEndpoint,
    data: PacketView,
    callback: Option<ReceiveCallbackView>,
    incoming: Store<(String, String), String>,
) -> bool {
    let class_id = local_class_id(src.prefix(), dest.prefix(), data.class_id);
    let returning = pop_prefix(src.prefix(), data.class_id) is Some;
    let created = receive_outcome(state, env, src, dest, data, callback) is Ok && classification(
        state.outgoing_class_token_to_channel@,
        returning,
        class_id,
        data.token_ids,
        dest.channel_id@,
    ) == Ok::<bool, ErrorView>(false);
    if created {
        incoming@ == with_entries(
            state.incoming_class_token_to_channel@,
            class_id,
            data.token_ids,
            dest.channel_id,
        )
    } else {
        incoming == state.incoming_class_token_to_channel
    }
}

/// The token contract that a receive callback is told about.
pub fn get_callback_contract(
    state: &State,
    env: &Env,
    redemption: bool,
    class_id: &String,
) -> (contract: Result<NftContract, ContractError>)
    ensures
        match callback_contract(
            state.class_id_to_nft_contract@,
            env.cw721_checksum@,
            env.canonical_address@,
            redemption,
            class_id@,
        ) {
            Ok(expected) => contract matches Ok(found) && found@ == expected,
            Err(refusal) => contract matches Err(error) && error@ == refusal,
        },
{
    if redemption {
        // a redemption means the class has been sent out, so its contract is registered
        match state.class_id_to_nft_contract.may_load(class_id) {
            Some(address) => Ok(NftContract::Registered(address.clone())),
            None => Err(ContractError::NoNftContractForClassId { class_id: class_id.clone() }),
        }
    } else {
        // whether or not the contract is instantiated yet: a later step instantiates it if not
        match get_instantiate2_address(
            env.cw721_checksum.as_slice(),
            env.canonical_address.as_slice(),
            class_id.as_str(),
        ) {
            Ok(canonical) => Ok(NftContract::Derived(canonical)),
            Err(error) => Err(error),
        }
    }
}

/// Handles a decoded packet: classifies its tokens, records the tokens that
/// arrive fresh, and schedules the work as one unit whose completion settles
/// the acknowledgement. A packet that is refused changes nothing.
pub fn receive_ibc_packet(
    state: &mut State,
    env: &Env,
    src: &IbcEndpoint,
    dest: &IbcEndpoint,
    data: &NonFungibleTokenPacketData,
    callback: Option<ReceiveCallback>,
) -> (received: Result<Response, ContractError>)
    ensures
        match receive_outcome(*old(state), *env, *src, *dest, data@, callback.deep_view()) {
            Ok(expected) => received matches Ok(response) && response@ == expected,
            Err(refusal) => received matches Err(error) && error@ == refusal,
        },
        receive_state(
            *old(state),
            *env,
            *src,
            *dest,
            data@,
            callback.deep_view(),
            final(state).incoming_class_token_to_channel,
        ),
        *final(state) == (State {
            incoming_class_token_to_channel: final(state).incoming_class_token_to_channel,
            ..*old(state)
        }),
{
    match data.validate() {
        Ok(()) => {},
        Err(error) => {
            return Err(error);
        },
    }
    // Check if the class is local; if not, get the local class id
    let (local_class_id, returning) = resolve_class_id(src, dest, data.classId.as_str());
    let is_redemption = match classify(
        &state.outgoing_class_token_to_channel,
        returning,
        &local_class_id,
        &data.tokenIds,
        &dest.channel_id,
    ) {
        Ok(is_redemption) => is_redemption,
        Err(error) => {
            return Err(error);
        },
    };
    // if there is a callback, generate the callback message
    let callback_msg = match callback {
        Some(callback) => {
            let nft_contract = match get_callback_contract(
                state,
                env,
                is_redemption,
                &local_class_id,
            ) {
                Ok(nft_contract) => nft_contract,
                Err(error) => {
                    return Err(error);
                },
            };
            let target = match callback.addr {
                Some(addr) => addr,
                None => data.receiver.clone(),
            };
            Some(Operation::ReceiveCallback { target, nft_contract, msg: callback.msg })
        },
        None => None,
    };
    let incoming_proxy_msg = match &state.incoming_proxy {
        Some(proxy) => Some(Operation::IncomingProxy { proxy: proxy.clone() }),
        None => None,
    };
    let (voucher_message, redeem_outgoing_class_tokens) = if is_redemption {
        let transfers = TransferInfo {
            class_id: local_class_id.clone(),
            token_ids: copy_texts(&data.tokenIds),
        };
        (
            Operation::Callback(
                CallbackMsg::BatchTransfer {
                    channel: dest.channel_id.clone(),
                    receiver: data.receiver.clone(),
                    transfers,
                },
            ),
            Some(token_keys(&local_class_id, &data.tokenIds)),
        )
    } else {
        let new_tokens = NewTokenInfo {
            class: Class {
                id: local_class_id.clone(),
                uri: copy_optional_text(&data.classUri),
                data: copy_optional_bytes(&data.classData),
            },
            tokens: data.tokens(),
        };
        add_entries(
            &mut state.incoming_class_token_to_channel,
            &local_class_id,
            &data.tokenIds,
            &dest.channel_id,
        );
        (
            Operation::Callback(
                CallbackMsg::DoInstantiateAndMint { receiver: data.receiver.clone(), new_tokens },
            ),
            None,
        )
    };
    let submessage = into_submessage(
        voucher_message,
        callback_msg,
        redeem_outgoing_class_tokens,
        incoming_proxy_msg,
    );
    let mut attributes: Vec<(String, String)> = Vec::new();
    if let Some(memo) = &data.memo {
        attributes.push(attr("ics721_memo", memo.as_str()));
    }
    attributes.push(attr("method", "receive_ibc_packet"));
    attributes.push(attr("class_id", data.classId.as_str()));
    attributes.push(attr("local_channel", dest.channel_id.as_str()));
    attributes.push(attr("counterparty_channel", src.channel_id.as_str()));
    let mut messages: Vec<SubMsg> = Vec::new();
    messages.push(submessage);
    let response = Response { messages, attributes, data: None };
    proof {
        let expected = receive_outcome(*old(state), *env, *src, *dest, data@, callback.deep_view())->Ok_0;
        assert(response@.attributes =~= expected.attributes);
        assert(response@.messages =~= expected.messages);
    }
    Ok(response)
}

/// The response to a packet that could not be handled: nothing is scheduled,
/// and the acknowledgement is the failure that carries the error's text.
pub open spec fn failure_response(error: Seq<char>) -> ResponseView {
    ResponseView {
        messages: seq![],
        attributes: seq![("method"@, "ibc_packet_receive"@), ("error"@, error)],
        data: Some(json_string(failure_message(error))),
    }
}

/// What a packet is answered with, whatever was in it. A packet that was
/// decoded and accepted is answered with the response that schedules its work;
/// its acknowledgement is written when that work completes. Every other packet
/// is answered with a failure acknowledgement at once.
pub open spec fn packet_response(
    state: State,
    env: Env,
    src: IbcEndpoint,
    dest: IbcEndpoint,
    decoded: Result<NonFungibleTokenPacketData, String>,
    callback: Option<ReceiveCallbackView>,
) -> ResponseView {
    match decoded {
        Err(reason) => failure_response(reason@),
        Ok(data) => match receive_outcome(state, env, src, dest, data@, callback) {
            Ok(response) => response,
            Err(refusal) => failure_response(error_text(refusal)),
        },
    }
}

/// Receives a packet. Regardless of whether handling the packet works, the
/// packet is answered: an error in decoding it or in handling it becomes a
/// failure acknowledgement, and leaves the state as it was.
pub fn ibc_packet_receive(
    state: &mut State,
    env: &Env,
    src: &IbcEndpoint,
    dest: &IbcEndpoint,
    decoded: Result<NonFungibleTokenPacketData, String>,
    callback: Option<ReceiveCallback>,
) -> (response: Response)
    ensures
        response@ == packet_response(*old(state), *env, *src, *dest, decoded, callback.deep_view()),
        match decoded {
            Err(_) => *final(state) == *old(state),
            Ok(data) => receive_state(
                *old(state),
                *env,
                *src,
                *dest,
                data@,
                callback.deep_view(),
                final(state).incoming_class_token_to_channel,
            ) && *final(state) == (State {
                incoming_class_token_to_channel: final(state).incoming_class_token_to_channel,
                ..*old(state)
            }),
        },
{
    let handled = match &decoded {
        Ok(data) => receive_ibc_packet(state, env, src, dest, data, callback),
        Err(reason) => Err(ContractError::Decode { reason: reason.clone() }),
    };
    match handled {
        Ok(response) => response,
        Err(error) => {
            let text = error.message();
            let mut attributes: Vec<(String, String)> = Vec::new();
            attributes.push(attr("method", "ibc_packet_receive"));
            attributes.push(attr("error", text.as_str()));
            let response = Response {
                messages: Vec::new(),
                attributes,
                data: Some(ack_fail_or_fallback(text.as_str())),
            };
            proof {
                let expected = failure_response(text@);
                assert(response.data->0.deep_view() =~= response.data->0@);
                assert(response@.attributes =~= expected.attributes);
                assert(response@.messages =~= expected.messages);
            }
            response
        },
    }
}

} // verus!
