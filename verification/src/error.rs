//! The ways in which handling a channel event or a packet can fail.

use vstd::prelude::*;
use vstd::string::StringExecFns;

verus! {

/// Why an operation of the bridge was refused.
#[derive(Clone, Debug, PartialEq, Eq)]
pub enum ContractError {
    /// The packet could not be decoded; the decoder's message is kept.
    Decode { reason: String },
    /// The packet names no token, or its per-token lists differ in length.
    InvalidPacket,
    /// Some tokens of one packet return home while others arrive fresh.
    InvalidTransferBothActions,
    /// A transfer that neither redeems nor creates any token.
    InvalidTransferNoAction,
    /// No escrow is registered for the channel.
    UnknownChannel { channel: String },
    /// No token contract is registered for the class.
    NoNftContractForClassId { class_id: String },
    /// A completion arrived under a tag that the dispatcher never issued.
    UnrecognizedCompletion,
    /// A completion that should report a new contract could not be read.
    InvalidCompletionData,
    /// The proposed channel is ordered.
    OrderedChannelRejected,
    /// A version string differs from the protocol's.
    VersionMismatch { actual: String, expected: String },
    /// Channels cannot be closed.
    ChannelCloseUnsupported,
    /// An acknowledgement's payload is not the encoding of a string.
    InvalidAcknowledgement,
    /// A failure message that would read as the success acknowledgement.
    AmbiguousAcknowledgement,
    /// The timeout of an outbound transfer does not fit the clock.
    TimeoutOverflow,
    /// The checksum of the token contract's code is not one of 32 bytes.
    InvalidChecksum,
    /// Funds came with a message that takes none.
    NonPayable,
}

/// A view of [`ContractError`] in which every string is a sequence of characters.
pub enum ErrorView {
    Decode { reason: Seq<char> },
    InvalidPacket,
    InvalidTransferBothActions,
    InvalidTransferNoAction,
    UnknownChannel { channel: Seq<char> },
    NoNftContractForClassId { class_id: Seq<char> },
    UnrecognizedCompletion,
    InvalidCompletionData,
    OrderedChannelRejected,
    VersionMismatch { actual: Seq<char>, expected: Seq<char> },
    ChannelCloseUnsupported,
    InvalidAcknowledgement,
    AmbiguousAcknowledgement,
    TimeoutOverflow,
    InvalidChecksum,
    NonPayable,
}

impl View for ContractError {
    type V = ErrorView;

    open spec fn view(&self) -> ErrorView {
        match *self {
            ContractError::Decode { reason } => ErrorView::Decode { reason: reason@ },
            ContractError::InvalidPacket => ErrorView::InvalidPacket,
            ContractError::InvalidTransferBothActions => ErrorView::InvalidTransferBothActions,
            ContractError::InvalidTransferNoAction => ErrorView::InvalidTransferNoAction,
            ContractError::UnknownChannel { channel } => ErrorView::UnknownChannel {
                channel: channel@,
            },
            ContractError::NoNftContractForClassId { class_id } => {
                ErrorView::NoNftContractForClassId { class_id: class_id@ }
            },
            ContractError::UnrecognizedCompletion => ErrorView::UnrecognizedCompletion,
            ContractError::InvalidCompletionData => ErrorView::InvalidCompletionData,
            ContractError::OrderedChannelRejected => ErrorView::OrderedChannelRejected,
            ContractError::VersionMismatch { actual, expected } => ErrorView::VersionMismatch {
                actual: actual@,
                expected: expected@,
            },
            ContractError::ChannelCloseUnsupported => ErrorView::ChannelCloseUnsupported,
            ContractError::InvalidAcknowledgement => ErrorView::InvalidAcknowledgement,
            ContractError::AmbiguousAcknowledgement => ErrorView::AmbiguousAcknowledgement,
            ContractError::TimeoutOverflow => ErrorView::TimeoutOverflow,
            ContractError::InvalidChecksum => ErrorView::InvalidChecksum,
            ContractError::NonPayable => ErrorView::NonPayable,
        }
    }
}

/// The text that an error is reported with.
pub open spec fn error_text(error: ErrorView) -> Seq<char> {
    match error {
        ErrorView::Decode { reason } => reason,
        ErrorView::InvalidPacket => "invalid packet"@,
        ErrorView::InvalidTransferBothActions => "invalid transfer: both actions"@,
        ErrorView::InvalidTransferNoAction => "invalid transfer: no action"@,
        ErrorView::UnknownChannel { channel } => "unknown channel: "@ + channel,
        ErrorView::NoNftContractForClassId { class_id } => "no NFT contract for class id: "@
            + class_id,
        ErrorView::UnrecognizedCompletion => "unrecognised reply ID"@,
        ErrorView::InvalidCompletionData => "invalid reply data"@,
        ErrorView::OrderedChannelRejected => "only unordered channels are supported"@,
        ErrorView::VersionMismatch { actual, expected } => "invalid IBC channel version. Got ("@
            + actual + "), expected ("@ + expected + ")"@,
        ErrorView::ChannelCloseUnsupported => "ICS 721 channels may not be closed"@,
        ErrorView::InvalidAcknowledgement => "invalid acknowledgement"@,
        ErrorView::AmbiguousAcknowledgement => "ACK fail would have the same encoding as ACK success."@,
        ErrorView::TimeoutOverflow => "timeout overflows the clock"@,
        ErrorView::InvalidChecksum => "invalid checksum length"@,
        ErrorView::NonPayable => "This message does no accept funds"@,
    }
}

impl ContractError {
    /// The text that the error is reported with, as in an attribute or a failure
    /// acknowledgement.
    pub fn message(&self) -> (text: String)
        ensures
            text@ == error_text(self@),
    {
        match self {
            ContractError::Decode { reason } => reason.clone(),
            ContractError::InvalidPacket => String::from_str("invalid packet"),
            ContractError::InvalidTransferBothActions => String::from_str(
                "invalid transfer: both actions",
            ),
            ContractError::InvalidTransferNoAction => String::from_str(
                "invalid transfer: no action",
            ),
            ContractError::UnknownChannel { channel } => {
                let mut text = String::from_str("unknown channel: ");
                text.append(channel.as_str());
                text
            },
            ContractError::NoNftContractForClassId { class_id } => {
                let mut text = String::from_str("no NFT contract for class id: ");
                text.append(class_id.as_str());
                text
            },
            ContractError::UnrecognizedCompletion => String::from_str("unrecognised reply ID"),
            ContractError::InvalidCompletionData => String::from_str("invalid reply data"),
            ContractError::OrderedChannelRejected => String::from_str(
                "only unordered channels are supported",
            ),
            ContractError::VersionMismatch { actual, expected } => {
                let mut text = String::from_str("invalid IBC channel version. Got (");
                text.append(actual.as_str());
                text.append("), expected (");
                text.append(expected.as_str());
                text.append(")");
                text
            },
            ContractError::ChannelCloseUnsupported => String::from_str(
                "ICS 721 channels may not be closed",
            ),
            ContractError::InvalidAcknowledgement => String::from_str("invalid acknowledgement"),
            ContractError::AmbiguousAcknowledgement => String::from_str(
                "ACK fail would have the same encoding as ACK success.",
            ),
            ContractError::TimeoutOverflow => String::from_str("timeout overflows the clock"),
            ContractError::InvalidChecksum => String::from_str("invalid checksum length"),
            ContractError::NonPayable => String::from_str("This message does no accept funds"),
        }
    }
}

} // verus!
