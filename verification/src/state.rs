//! What the bridge remembers between events.

use vstd::prelude::*;
use crate::store::Store;

verus! {

/// The key of a ledger: a class and a token of it, as mathematical values.
pub type TokenKey = (Seq<char>, Seq<char>);

/// What the metadata store holds, as mathematical values.
pub open spec fn metadata_view(metadata: Map<TokenKey, Option<Vec<u8>>>) -> Map<
    TokenKey,
    Option<Seq<u8>>,
> {
    metadata.map_values(|data: Option<Vec<u8>>| data.deep_view())
}

/// The registries and ledgers of the bridge. Packet handling and the completions
/// it sets off are their only writers.
pub struct State {
    /// The code that each channel's escrow is instantiated from.
    pub escrow_code_id: u64,
    /// The proxy that incoming packets are shown to first, if any.
    pub incoming_proxy: Option<String>,
    /// Maps channel IDs to the escrow address for that channel.
    pub channels: Store<String, String>,
    /// Maps a class ID to the token contract instantiated for that class.
    pub class_id_to_nft_contract: Store<String, String>,
    /// Maps token contracts to the class ID they were instantiated for.
    pub nft_contract_to_class_id: Store<String, String>,
    /// Maps (class ID, token ID) to the local channel that the token was sent out on.
    pub outgoing_class_token_to_channel: Store<(String, String), String>,
    /// Maps (class ID, token ID) to the local channel that the token arrived on.
    pub incoming_class_token_to_channel: Store<(String, String), String>,
    /// Maps (class ID, token ID) to the metadata that arrived with the token.
    pub token_metadata: Store<(String, String), Option<Vec<u8>>>,
}

impl State {
    /// A bridge that has seen no channel and no packet.
    pub fn new(escrow_code_id: u64, incoming_proxy: Option<String>) -> (state: State)
        ensures
            state.escrow_code_id == escrow_code_id,
            state.incoming_proxy == incoming_proxy,
            state.channels@ == Map::<Seq<char>, String>::empty(),
            state.class_id_to_nft_contract@ == Map::<Seq<char>, String>::empty(),
            state.nft_contract_to_class_id@ == Map::<Seq<char>, String>::empty(),
            state.outgoing_class_token_to_channel@ == Map::<TokenKey, String>::empty(),
            state.incoming_class_token_to_channel@ == Map::<TokenKey, String>::empty(),
            state.token_metadata@ == Map::<TokenKey, Option<Vec<u8>>>::empty(),
    {
        State {
            escrow_code_id,
            incoming_proxy,
            channels: Store::new(),
            class_id_to_nft_contract: Store::new(),
            nft_contract_to_class_id: Store::new(),
            outgoing_class_token_to_channel: Store::new(),
            incoming_class_token_to_channel: Store::new(),
            token_metadata: Store::new(),
        }
    }
}

} // verus!
