//! Channel handshake: which channels may be opened, and what opening one sets off.

use vstd::prelude::*;
use vstd::string::StringExecFns;
use crate::endpoint::IbcEndpoint;
use crate::error::{ContractError, ErrorView};
use crate::msg::{
    attr, Dispatch, DispatchView, Operation, OperationView, ReplyOn, Response, ResponseView,
    SubMsg, SubMsgView, INSTANTIATE_ESCROW_REPLY_ID,
};

verus! {

/// The version that both ends of a channel must speak.
pub const IBC_VERSION: &'static str = "ics721-1";

/// How a channel orders its packets.
#[derive(Clone, Copy, Debug, PartialEq, Eq, Structural)]
pub enum IbcOrder {
    /// Packets may arrive in any order.
    Unordered,
    /// Packets arrive in the order in which they were sent.
    Ordered,
}

/// A channel as the handshake proposes it.
#[derive(Clone, Debug, PartialEq, Eq)]
pub struct IbcChannel {
    /// This end of the channel.
    pub endpoint: IbcEndpoint,
    /// The other end of the channel.
    pub counterparty_endpoint: IbcEndpoint,
    /// How the channel orders its packets.
    pub order: IbcOrder,
    /// The version proposed for the channel.
    pub version: String,
    /// The connection that the channel runs over.
    pub connection_id: String,
}

/// The first half of the handshake.
#[derive(Clone, Debug, PartialEq, Eq)]
pub enum IbcChannelOpenMsg {
    /// This chain starts the handshake; the counterparty's version is not known yet.
    OpenInit { channel: IbcChannel },
    /// The counterparty started the handshake and has said which version it speaks.
    OpenTry { channel: IbcChannel, counterparty_version: String },
}

/// The second half of the handshake.
#[derive(Clone, Debug, PartialEq, Eq)]
pub enum IbcChannelConnectMsg {
    /// The counterparty accepted; only now its version is known.
    OpenAck { channel: IbcChannel, counterparty_version: String },
    /// The counterparty confirmed a handshake that it started.
    OpenConfirm { channel: IbcChannel },
}

/// An attempt to close a channel.
#[derive(Clone, Debug, PartialEq, Eq)]
pub enum IbcChannelCloseMsg {
    /// This chain asks for the channel to be closed.
    CloseInit { channel: IbcChannel },
    /// The counterparty has closed the channel.
    CloseConfirm { channel: IbcChannel },
}

impl IbcChannelOpenMsg {
    /// The channel that is proposed.
    pub open spec fn spec_channel(&self) -> IbcChannel {
        match *self {
            IbcChannelOpenMsg::OpenInit { channel } => channel,
            IbcChannelOpenMsg::OpenTry { channel, .. } => channel,
        }
    }

    /// The counterparty's version, where it is known.
    pub open spec fn spec_counterparty_version(&self) -> Option<Seq<char>> {
        match *self {
            IbcChannelOpenMsg::OpenInit { .. } => None,
            IbcChannelOpenMsg::OpenTry { counterparty_version, .. } => Some(
                counterparty_version@,
            ),
        }
    }

    /// The channel that is proposed.
    pub fn channel(&self) -> (channel: &IbcChannel)
        ensures
            *channel == self.spec_channel(),
    {
        match self {
            IbcChannelOpenMsg::OpenInit { channel } => channel,
            IbcChannelOpenMsg::OpenTry { channel, .. } => channel,
        }
    }

    /// The counterparty's version, where it is known.
    pub fn counterparty_version(&self) -> (version: Option<&str>)
        ensures
            version.deep_view() == self.spec_counterparty_version(),
    {
        match self {
            IbcChannelOpenMsg::OpenInit { .. } => None,
            IbcChannelOpenMsg::OpenTry { counterparty_version, .. } => Some(
                counterparty_version.as_str(),
            ),
        }
    }
}

impl IbcChannelConnectMsg {
    /// The channel that is being connected.
    pub open spec fn spec_channel(&self) -> IbcChannel {
        match *self {
            IbcChannelConnectMsg::OpenAck { channel, .. } => channel,
            IbcChannelConnectMsg::OpenConfirm { channel } => channel,
        }
    }

    /// The counterparty's version, where it was not known before.
    pub open spec fn spec_counterparty_version(&self) -> Option<Seq<char>> {
        match *self {
            IbcChannelConnectMsg::OpenAck { counterparty_version, .. } => Some(
                counterparty_version@,
            ),
            IbcChannelConnectMsg::OpenConfirm { .. } => None,
        }
    }

    /// The channel that is being connected.
    pub fn channel(&self) -> (channel: &IbcChannel)
        ensures
            *channel == self.spec_channel(),
    {
        match self {
            IbcChannelConnectMsg::OpenAck { channel, .. } => channel,
            IbcChannelConnectMsg::OpenConfirm { channel } => channel,
        }
    }

    /// The counterparty's version, where it was not known before.
    pub fn counterparty_version(&self) -> (version: Option<&str>)
        ensures
            version.deep_view() == self.spec_counterparty_version(),
    {
        match self {
            IbcChannelConnectMsg::OpenAck { counterparty_version, .. } => Some(
                counterparty_version.as_str(),
            ),
            IbcChannelConnectMsg::OpenConfirm { .. } => None,
        }
    }
}

/// What the handshake says of a proposed order and the versions that are known:
/// nothing where all is well, and else the first objection.
pub open spec fn handshake_objection(
    order: IbcOrder,
    version: Seq<char>,
    counterparty_version: Option<Seq<char>>,
) -> Option<ErrorView> {
    if order != IbcOrder::Unordered {
        Some(ErrorView::OrderedChannelRejected)
    } else if version != IBC_VERSION@ {
        Some(ErrorView::VersionMismatch { actual: version, expected: IBC_VERSION@ })
    } else if counterparty_version is Some && counterparty_version->0 != IBC_VERSION@ {
        Some(
            ErrorView::VersionMismatch {
                actual: counterparty_version->0,
                expected: IBC_VERSION@,
            },
        )
    } else {
        None
    }
}

/// Validates order and version information for ics721. We expect
/// ics721-1 as the version and an unordered channel. The counterparty's
/// version is checked when we have it; when we don't it's alright.
pub fn validate_order_and_version(channel: &IbcChannel, counterparty_version: Option<&str>) -> (checked:
    Result<(), ContractError>)
    ensures
        match handshake_objection(
            channel.order,
            channel.version@,
            counterparty_version.deep_view(),
        ) {
            None => checked is Ok,
            Some(objection) => checked matches Err(error) && error@ == objection,
        },
{
    match channel.order {
        IbcOrder::Unordered => {},
        IbcOrder::Ordered => {
            return Err(ContractError::OrderedChannelRejected);
        },
    }
    if channel.version != String::from_str(IBC_VERSION) {
        return Err(
            ContractError::VersionMismatch {
                actual: channel.version.clone(),
                expected: String::from_str(IBC_VERSION),
            },
        );
    }
    if let Some(counterparty_version) = counterparty_version {
        let actual = String::from_str(counterparty_version);
        if actual != String::from_str(IBC_VERSION) {
            return Err(
                ContractError::VersionMismatch { actual, expected: String::from_str(IBC_VERSION) },
            );
        }
    }
    Ok(())
}

/// Open and Try: the channel may be opened iff it is unordered and every
/// version known so far is the protocol's.
pub fn ibc_channel_open(msg: &IbcChannelOpenMsg) -> (checked: Result<(), ContractError>)
    ensures
        match handshake_objection(
            msg.spec_channel().order,
            msg.spec_channel().version@,
            msg.spec_counterparty_version(),
        ) {
            None => checked is Ok,
            Some(objection) => checked matches Err(error) && error@ == objection,
        },
{
    validate_order_and_version(msg.channel(), msg.counterparty_version())
}

/// The label of the escrow of a channel.
pub open spec fn escrow_label(channel_id: Seq<char>) -> Seq<char> {
    "channel ("@ + channel_id + ") ICS721 escrow"@
}

/// What connecting a channel hands back: the request to instantiate the
/// channel's escrow, reported back under its own tag whatever the outcome.
pub open spec fn connect_response(
    escrow_code_id: u64,
    contract_address: Seq<char>,
    endpoint: IbcEndpoint,
) -> ResponseView {
    ResponseView {
        messages: seq![
            SubMsgView {
                id: INSTANTIATE_ESCROW_REPLY_ID,
                msg: DispatchView::Single(
                    OperationView::InstantiateEscrow {
                        code_id: escrow_code_id,
                        admin_address: contract_address,
                        channel_id: endpoint.channel_id@,
                        label: escrow_label(endpoint.channel_id@),
                    },
                ),
                reply_on: ReplyOn::Always,
            },
        ],
        attributes: seq![
            ("method"@, "ibc_channel_connect"@),
            ("channel"@, endpoint.channel_id@),
            ("port"@, endpoint.port_id@),
        ],
        data: None,
    }
}

/// Ack and Confirm: validates the channel again, with the counterparty's
/// version where it is known only now, and asks for the channel's escrow to be
/// instantiated. Nothing is recorded before that instantiation has completed.
pub fn ibc_channel_connect(
    escrow_code_id: u64,
    contract_address: &str,
    msg: &IbcChannelConnectMsg,
) -> (connected: Result<Response, ContractError>)
    ensures
        match handshake_objection(
            msg.spec_channel().order,
            msg.spec_channel().version@,
            msg.spec_counterparty_version(),
        ) {
            None => connected matches Ok(response) && response@ == connect_response(
                escrow_code_id,
                contract_address@,
                msg.spec_channel().endpoint,
            ),
            Some(objection) => connected matches Err(error) && error@ == objection,
        },
{
    let channel = msg.channel();
    match validate_order_and_version(channel, msg.counterparty_version()) {
        Ok(()) => {},
        Err(error) => {
            return Err(error);
        },
    }
    let mut label = String::from_str("channel (");
    label.append(channel.endpoint.channel_id.as_str());
    label.append(") ICS721 escrow");
    let message = SubMsg {
        id: INSTANTIATE_ESCROW_REPLY_ID,
        msg: Dispatch::Single(
            Operation::InstantiateEscrow {
                code_id: escrow_code_id,
                admin_address: String::from_str(contract_address),
                channel_id: channel.endpoint.channel_id.clone(),
                label,
            },
        ),
        reply_on: ReplyOn::Always,
    };
    let mut messages: Vec<SubMsg> = Vec::new();
    messages.push(message);
    let mut attributes: Vec<(String, String)> = Vec::new();
    attributes.push(attr("method", "ibc_channel_connect"));
    attributes.push(attr("channel", channel.endpoint.channel_id.as_str()));
    attributes.push(attr("port", channel.endpoint.port_id.as_str()));
    let response = Response { messages, attributes, data: None };
    proof {
        let expected = connect_response(
            escrow_code_id,
            contract_address@,
            msg.spec_channel().endpoint,
        );
        assert(response@.messages =~= expected.messages);
        assert(response@.attributes =~= expected.attributes);
    }
    Ok(response)
}

/// Close: unsupported. Every attempt to close a channel is refused, whoever
/// makes it, and nothing is changed.
pub fn ibc_channel_close(msg: &IbcChannelCloseMsg) -> (closed: Result<Response, ContractError>)
    ensures
        closed matches Err(error) && error == ContractError::ChannelCloseUnsupported,
{
    match msg {
        IbcChannelCloseMsg::CloseInit { .. } => Err(ContractError::ChannelCloseUnsupported),
        IbcChannelCloseMsg::CloseConfirm { .. } => Err(ContractError::ChannelCloseUnsupported),
    }
}

} // verus!
