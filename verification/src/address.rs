//! The address of a class's token contract, known before the contract exists.

use sha2::Digest;
use vstd::prelude::*;
use vstd::string::StringSliceAdditionalSpecFns;
use vstd::utf8::encode_utf8;
use crate::error::ContractError;

verus! {

/// The SHA-256 digest of `data`.
pub uninterp spec fn sha256(data: Seq<u8>) -> Seq<u8>;

/// The canonical address that a contract gets when `creator` instantiates the
/// code with `checksum` under `salt`, where there is one.
pub uninterp spec fn instantiate2_address(
    checksum: Seq<u8>,
    creator: Seq<u8>,
    salt: Seq<u8>,
) -> Option<Seq<u8>>;

/// Calls `sha2::Sha256::digest`: the digest of `data`, which has 32 bytes.
#[verifier::external_body]
fn sha256_digest(data: &[u8]) -> (digest: Vec<u8>)
    ensures
        digest@ == sha256(data@),
        digest@.len() == 32,
{
    sha2::Sha256::digest(data).to_vec()
}

/// Calls `cosmwasm_std::instantiate2_address`. It refuses a checksum that is
/// not 32 bytes long and a salt that is empty or longer than 64 bytes, and
/// nothing else.
#[verifier::external_body]
fn instantiate2(checksum: &[u8], creator: &[u8], salt: &[u8]) -> (address: Option<Vec<u8>>)
    ensures
        address.deep_view() == instantiate2_address(checksum@, creator@, salt@),
        address is Some == (checksum@.len() == 32 && 0 < salt@.len() <= 64),
{
    let creator = cosmwasm_std::CanonicalAddr::from(creator);
    cosmwasm_std::instantiate2_address(checksum, &creator, salt).ok().map(|a| a.to_vec())
}

/// The salt under which the token contract of a class is instantiated: the
/// digest of the class identifier, so that each class has one address.
pub open spec fn class_salt(class_id: Seq<char>) -> Seq<u8> {
    sha256(encode_utf8(class_id))
}

/// The salt under which the token contract of a class is instantiated.
pub fn nft_contract_salt(class_id: &str) -> (salt: Vec<u8>)
    ensures
        salt@ == class_salt(class_id@),
        salt@.len() == 32,
{
    sha256_digest(class_id.as_bytes())
}

/// The canonical address of the token contract of a class: a function of who
/// deploys it, of the code it is made from, and of the class alone.
pub open spec fn nft_contract_address(
    checksum: Seq<u8>,
    creator: Seq<u8>,
    class_id: Seq<char>,
) -> Option<Seq<u8>> {
    instantiate2_address(checksum, creator, class_salt(class_id))
}

/// Computes the canonical address of the token contract of a class, whether or
/// not the contract has been instantiated yet. Fails iff the checksum is not
/// one of 32 bytes.
pub fn get_instantiate2_address(checksum: &[u8], creator: &[u8], class_id: &str) -> (address: Result<
    Vec<u8>,
    ContractError,
>)
    ensures
        address is Ok <==> checksum@.len() == 32,
        match nft_contract_address(checksum@, creator@, class_id@) {
            Some(expected) => address matches Ok(canonical) && canonical@ == expected,
            None => address matches Err(error) && error == ContractError::InvalidChecksum,
        },
{
    let salt = nft_contract_salt(class_id);
    match instantiate2(checksum, creator, salt.as_slice()) {
        Some(canonical) => Ok(canonical),
        None => Err(ContractError::InvalidChecksum),
    }
}

} // verus!
