//! The wire packet of a transfer, with the metadata it carries.

use vstd::prelude::*;
use crate::copy::copy_bytes;
use crate::error::ContractError;

verus! {

/// Per-token metadata carried with a transfer.
#[derive(Clone, Debug, PartialEq, Eq)]
pub struct Token {
    /// Identifies the token within its class.
    pub id: String,
    /// Where the token's metadata can be found, if anywhere.
    pub uri: Option<String>,
    /// Opaque metadata of the token.
    pub data: Option<Vec<u8>>,
}

/// What a [`Token`] holds, as mathematical values.
pub struct TokenView {
    pub id: Seq<char>,
    pub uri: Option<Seq<char>>,
    pub data: Option<Seq<u8>>,
}

impl View for Token {
    type V = TokenView;

    open spec fn view(&self) -> TokenView {
        TokenView { id: self.id@, uri: self.uri.deep_view(), data: self.data.deep_view() }
    }
}

impl DeepView for Token {
    type V = TokenView;

    open spec fn deep_view(&self) -> TokenView {
        self@
    }
}

/// Collection-level metadata.
#[derive(Clone, Debug, PartialEq, Eq)]
pub struct Class {
    /// Identifies the collection.
    pub id: String,
    /// Where the collection's metadata can be found, if anywhere.
    pub uri: Option<String>,
    /// Opaque metadata of the collection.
    pub data: Option<Vec<u8>>,
}

/// What a [`Class`] holds, as mathematical values.
pub struct ClassView {
    pub id: Seq<char>,
    pub uri: Option<Seq<char>>,
    pub data: Option<Seq<u8>>,
}

impl View for Class {
    type V = ClassView;

    open spec fn view(&self) -> ClassView {
        ClassView { id: self.id@, uri: self.uri.deep_view(), data: self.data.deep_view() }
    }
}

/// The packet that carries tokens of one class from one chain to another.
#[allow(non_snake_case)]
#[derive(Clone, Debug, PartialEq, Eq)]
pub struct NonFungibleTokenPacketData {
    /// Uniquely identifies the collection which the tokens being
    /// transfered belong to on the sending chain.
    pub classId: String,
    /// URL that points to metadata about the collection. This is not
    /// validated.
    pub classUri: Option<String>,
    /// Opaque metadata about the collection.
    pub classData: Option<Vec<u8>>,
    /// Uniquely identifies the tokens in the NFT collection being
    /// transfered.
    pub tokenIds: Vec<String>,
    /// URL that points to metadata for each token being
    /// transfered. `tokenUris[N]` should hold the metadata for
    /// `tokenIds[N]` and both lists should have the same length.
    pub tokenUris: Option<Vec<String>>,
    /// Opaque metadata for each token being transfered, matched
    /// with `tokenIds` by index.
    pub tokenData: Option<Vec<Vec<u8>>>,
    /// The address sending the tokens on the sending chain.
    pub sender: String,
    /// The address that should receive the tokens on the receiving
    /// chain.
    pub receiver: String,
    /// Free-form note that travels with the packet.
    pub memo: Option<String>,
}

/// What a [`NonFungibleTokenPacketData`] holds, as mathematical values.
pub struct PacketView {
    pub class_id: Seq<char>,
    pub class_uri: Option<Seq<char>>,
    pub class_data: Option<Seq<u8>>,
    pub token_ids: Seq<Seq<char>>,
    pub token_uris: Option<Seq<Seq<char>>>,
    pub token_data: Option<Seq<Seq<u8>>>,
    pub sender: Seq<char>,
    pub receiver: Seq<char>,
    pub memo: Option<Seq<char>>,
}

impl View for NonFungibleTokenPacketData {
    type V = PacketView;

    open spec fn view(&self) -> PacketView {
        PacketView {
            class_id: self.classId@,
            class_uri: self.classUri.deep_view(),
            class_data: self.classData.deep_view(),
            token_ids: self.tokenIds.deep_view(),
            token_uris: self.tokenUris.deep_view(),
            token_data: self.tokenData.deep_view(),
            sender: self.sender@,
            receiver: self.receiver@,
            memo: self.memo.deep_view(),
        }
    }
}

impl PacketView {
    /// A packet is well-formed when it names at least one token and each
    /// per-token list that is present has one item for each token.
    pub open spec fn valid(self) -> bool {
        &&& self.token_ids.len() > 0
        &&& self.token_uris matches Some(uris) ==> uris.len() == self.token_ids.len()
        &&& self.token_data matches Some(data) ==> data.len() == self.token_ids.len()
    }

    /// The metadata that the packet carries for its `i`-th token: an item of a
    /// per-token list where the list is there and has such an item.
    pub open spec fn token(self, i: int) -> TokenView {
        TokenView {
            id: self.token_ids[i],
            uri: match self.token_uris {
                Some(uris) => if i < uris.len() {
                    Some(uris[i])
                } else {
                    None
                },
                None => None,
            },
            data: match self.token_data {
                Some(data) => if i < data.len() {
                    Some(data[i])
                } else {
                    None
                },
                None => None,
            },
        }
    }

    /// The metadata of all tokens of the packet, in the packet's order.
    pub open spec fn tokens(self) -> Seq<TokenView> {
        Seq::new(self.token_ids.len(), |i: int| self.token(i))
    }
}

impl NonFungibleTokenPacketData {
    /// Checks that the packet is well-formed.
    pub fn validate(&self) -> (checked: Result<(), ContractError>)
        ensures
            checked is Ok <==> self@.valid(),
            checked matches Err(error) ==> error == ContractError::InvalidPacket,
    {
        if self.tokenIds.len() == 0 {
            return Err(ContractError::InvalidPacket);
        }
        match &self.tokenUris {
            Some(uris) => {
                if uris.len() != self.tokenIds.len() {
                    return Err(ContractError::InvalidPacket);
                }
            },
            None => {},
        }
        match &self.tokenData {
            Some(data) => {
                if data.len() != self.tokenIds.len() {
                    return Err(ContractError::InvalidPacket);
                }
            },
            None => {},
        }
        Ok(())
    }

    /// The tokens of the packet, each with the metadata that the packet carries
    /// for it, in the packet's order.
    pub fn tokens(&self) -> (tokens: Vec<Token>)
        ensures
            tokens.deep_view() == self@.tokens(),
    {
        let mut tokens: Vec<Token> = Vec::new();
        let mut i: usize = 0;
        while i < self.tokenIds.len()
            invariant
                i <= self.tokenIds.len(),
                tokens.len() == i,
                forall|j: int| 0 <= j < i ==> (#[trigger] tokens[j])@ == self@.token(j),
            decreases self.tokenIds.len() - i,
        {
            let uri = match &self.tokenUris {
                Some(uris) => if i < uris.len() {
                    Some(uris[i].clone())
                } else {
                    None
                },
                None => None,
            };
            let data = match &self.tokenData {
                Some(data) => if i < data.len() {
                    Some(copy_bytes(&data[i]))
                } else {
                    None
                },
                None => None,
            };
            let token = Token { id: self.tokenIds[i].clone(), uri, data };
            assert(token@ == self@.token(i as int));
            tokens.push(token);
            i = i + 1;
        }
        assert(tokens.deep_view() =~= self@.tokens());
        tokens
    }
}

} // verus!
