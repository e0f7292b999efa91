//! Cross-chain transfer of non-fungible tokens.
//!
//! A token that leaves its chain is held in the escrow of the channel it left
//! on, and stands on the other chain as a voucher of a class whose identifier
//! is prefixed by the channel. This library decides what each event of that
//! protocol comes to: whether a channel may be opened, whether the tokens of
//! a packet return home or arrive fresh, which work is dispatched for them and
//! in which order, and which acknowledgement settles the packet. It reads and
//! writes nothing but the [`state::State`] it is handed, and dispatches
//! nothing itself: a [`msg::Response`] says what is to be done.
//!
//! - [`packet`]: the wire packet and its well-formedness.
//! - [`endpoint`]: channel-scoped prefixes of class identifiers.
//! - [`handshake`]: which channels may be opened; closing is unsupported.
//! - [`receive`]: receipt of a packet, and the classification of its tokens.
//! - [`execute`]: the steps that the bridge asks of itself.
//! - [`transfer`]: outbound transfers.
//! - [`acknowledge`]: acknowledgements and timeouts of sent packets.
//! - [`reply`]: completions of dispatched work.
//! - [`ack`]: the bytes of acknowledgements.
//! - [`address`]: the address of a class's token contract.
//! - [`state`], [`ledger`], [`store`]: what the bridge remembers.
//! - [`msg`], [`error`]: what it hands back.

pub mod ack;
pub mod acknowledge;
pub mod address;
mod copy;
pub mod endpoint;
pub mod error;
pub mod execute;
pub mod handshake;
pub mod ledger;
pub mod msg;
pub mod packet;
pub mod receive;
pub mod reply;
pub mod state;
pub mod store;
pub mod transfer;
