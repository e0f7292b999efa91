//! Acknowledgements: the one value by which a packet's fate is told to its sender.

use vstd::prelude::*;
use vstd::string::StringExecFns;
use crate::error::ContractError;

verus! {

/// The bytes of `text` written as a JSON string, quotes and escapes included.
pub uninterp spec fn json_string(text: Seq<char>) -> Seq<u8>;

/// The string that `bytes` are the JSON text of, if they are the JSON text of a string.
pub uninterp spec fn parsed_json_string(bytes: Seq<u8>) -> Option<Seq<char>>;

/// Calls `cosmwasm_std::to_json_binary` on a string. The serializer's string case
/// has no failing path, so the bytes are always there; what they are is named
/// [`json_string`].
#[verifier::external_body]
fn to_json_binary(text: &str) -> (encoded: Option<Vec<u8>>)
    ensures
        encoded.deep_view() == Some(json_string(text@)),
{
    cosmwasm_std::to_json_binary(text).ok().map(|binary| binary.0)
}

/// Calls `cosmwasm_std::from_json` for a `String`: the string that `bytes` encode,
/// or nothing where they are not the JSON text of a string.
#[verifier::external_body]
fn from_json(bytes: &[u8]) -> (decoded: Option<String>)
    ensures
        decoded.deep_view() == parsed_json_string(bytes@),
{
    cosmwasm_std::from_json::<String>(bytes).ok()
}

/// The message of a failure whose own text would read as success.
pub const ACK_ERROR_FALLBACK: &'static str =
    "an unexpected error occurred - error text is hidden because it would serialize as ACK success";

/// The text that marks success inside an acknowledgement.
pub open spec fn success_text() -> Seq<char> {
    seq!['A', 'Q', '=', '=']
}

/// The bytes of the success acknowledgement: `"AQ=="` with its quotes.
pub open spec fn success_ack() -> Seq<u8> {
    seq![34u8, 65u8, 81u8, 61u8, 61u8, 34u8]
}

/// Whether `text` is the text that marks success.
pub fn is_success_text(text: &str) -> (same: bool)
    ensures
        same == (text@ == success_text()),
{
    proof {
        reveal_strlit("AQ==");
    }
    assert("AQ=="@ =~= success_text());
    String::from_str(text) == String::from_str("AQ==")
}

/// Success ACK. 0x01 base64 encoded, as a JSON string: always the same six bytes.
pub fn ack_success() -> (ack: Vec<u8>)
    ensures
        ack@ == success_ack(),
{
    let ack: Vec<u8> = vec![34u8, 65u8, 81u8, 61u8, 61u8, 34u8];
    assert(ack@ =~= success_ack());
    ack
}

/// Fail ACK. Contains some arbitrary message. This message can not be
/// 'AQ==' otherwise it would be parsed as a success message: that one
/// message is refused.
pub fn ack_fail(message: &str) -> (ack: Result<Vec<u8>, ContractError>)
    ensures
        match ack {
            Ok(bytes) => message@ != success_text() && bytes@ == json_string(message@),
            Err(error) => message@ == success_text() && error
                == ContractError::AmbiguousAcknowledgement,
        },
{
    if is_success_text(message) {
        Err(ContractError::AmbiguousAcknowledgement)
    } else {
        match to_json_binary(message) {
            Some(bytes) => Ok(bytes),
            // never taken: a string is always encoded
            None => Err(ContractError::AmbiguousAcknowledgement),
        }
    }
}

/// The message that a failure acknowledgement carries for an error text: the
/// text itself, unless it would read as success.
pub open spec fn failure_message(error: Seq<char>) -> Seq<char> {
    if error == success_text() {
        ACK_ERROR_FALLBACK@
    } else {
        error
    }
}

/// The failure acknowledgement for an error text. A text that cannot be
/// encoded safely is replaced by a fixed message.
pub fn ack_fail_or_fallback(error: &str) -> (ack: Vec<u8>)
    ensures
        ack@ == json_string(failure_message(error@)),
{
    match ack_fail(error) {
        Ok(bytes) => bytes,
        Err(_) => {
            proof {
                reveal_strlit("AQ==");
                reveal_strlit(
                    "an unexpected error occurred - error text is hidden because it would serialize as ACK success",
                );
            }
            match ack_fail(ACK_ERROR_FALLBACK) {
                Ok(bytes) => bytes,
                // never taken: the fixed message is not the success text
                Err(_) => Vec::new(),
            }
        },
    }
}

/// What a decoded acknowledgement says: `None` for success, and the message of
/// the failure for every other text.
pub fn ack_error(decoded: String) -> (failure: Option<String>)
    ensures
        decoded@ == success_text() ==> failure is None,
        decoded@ != success_text() ==> failure == Some(decoded),
{
    if is_success_text(decoded.as_str()) {
        None
    } else {
        Some(decoded)
    }
}

/// Reads an acknowledgement: `Ok(None)` for success, `Ok(Some(message))` for a
/// failure, and an error where the payload is not the encoding of a string.
pub fn try_get_ack_error(ack: &[u8]) -> (read: Result<Option<String>, ContractError>)
    ensures
        match parsed_json_string(ack@) {
            None => read matches Err(error) && error == ContractError::InvalidAcknowledgement,
            Some(text) => read matches Ok(failure) && failure.deep_view() == (if text
                == success_text() {
                None
            } else {
                Some(text)
            }),
        },
{
    match from_json(ack) {
        Some(decoded) => Ok(ack_error(decoded)),
        None => Err(ContractError::InvalidAcknowledgement),
    }
}

} // verus!
