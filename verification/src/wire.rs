//! Binary payloads on a text transport: audio bytes travel as base64 text.

use vstd::prelude::*;
use vstd::string::StringSliceAdditionalSpecFns;
use crate::ontology::{ErrorMessage, ErrorView};

verus! {

/// The base64 text of a string of bytes, in the standard alphabet and with
/// padding.
pub uninterp spec fn base64_text(bytes: Seq<u8>) -> Seq<char>;

/// The bytes that a base64 text stands for; nothing where the text is not
/// valid base64.
pub uninterp spec fn base64_bytes(text: Seq<char>) -> Option<Seq<u8>>;

/// `base64::DecodeError`: why `base64::decode` refused a text. Nothing is
/// known of what it holds.
#[verifier::external_type_specification]
#[verifier::external_body]
pub struct ExDecodeError(base64::DecodeError);

/// The length of the base64 text of so many bytes: four characters for
/// every three bytes, the last three filled up.
pub open spec fn encoded_len(len: nat) -> nat {
    if len % 3 == 0 {
        4 * (len / 3)
    } else {
        4 * (len / 3) + 4
    }
}

/// Whether the text of so many bytes fits in one allocation.
pub open spec fn encodable(len: nat) -> bool {
    encoded_len(len) <= isize::MAX
}

/// Whether a text of so many bytes is one that fits in one allocation, as
/// every text in memory does.
pub open spec fn decodable(len: nat) -> bool {
    len <= isize::MAX
}

/// Calls `base64::encode`, which writes the bytes in the standard alphabet
/// with padding, and panics where the text would not fit in one allocation.
/// The contract names the text it returns, and claims that the text stands
/// for the bytes it was made of: `base64::decode` gives them back.
#[verifier::external_body]
fn encode(bytes: &[u8]) -> (text: String)
    requires
        encodable(bytes@.len()),
    ensures
        text@ == base64_text(bytes@),
        base64_bytes(text@) == Some(bytes@),
{
    base64::encode(bytes)
}

/// Calls `base64::decode`, which reads a text in the standard alphabet,
/// padded or not, and panics where its estimate of the length overflows.
/// The contract names the bytes it returns, and claims that it fails
/// exactly on the texts that stand for no bytes.
#[verifier::external_body]
fn decode(text: &str) -> (decoded: Result<Vec<u8>, base64::DecodeError>)
    requires
        decodable(text.spec_bytes().len()),
    ensures
        match decoded {
            Ok(bytes) => base64_bytes(text@) == Some(bytes@),
            Err(_) => base64_bytes(text@) is None,
        },
{
    base64::decode(text)
}

/// Calls the `Display` implementation of `base64::DecodeError`, which says
/// in words what was wrong with the text. Nothing is claimed of the words.
#[verifier::external_body]
fn describe(error: &base64::DecodeError) -> (reason: String) {
    error.to_string()
}

/// Why a text could not be read as bytes.
#[derive(Debug, Clone, PartialEq, Eq)]
pub struct DecodeFailure {
    /// What was wrong with the text, in words.
    pub reason: String,
}

/// The text that stands for a string of bytes on a text transport.
pub fn as_base64(bytes: &[u8]) -> (text: String)
    requires
        encodable(bytes@.len()),
    ensures
        text@ == base64_text(bytes@),
        base64_bytes(text@) == Some(bytes@),
{
    encode(bytes)
}

/// The bytes that a text stands for, or the reason why it stands for none.
pub fn from_base64(text: &str) -> (decoded: Result<Vec<u8>, DecodeFailure>)
    requires
        decodable(text.spec_bytes().len()),
    ensures
        match decoded {
            Ok(bytes) => base64_bytes(text@) == Some(bytes@),
            Err(_) => base64_bytes(text@) is None,
        },
{
    match decode(text) {
        Ok(bytes) => Ok(bytes),
        Err(error) => Err(DecodeFailure { reason: describe(&error) }),
    }
}

/// What a payload that could not be read is answered by, where the session
/// it belongs to is known.
pub open spec fn malformed_message(session_id: Seq<char>, reason: Seq<char>) -> ErrorView {
    ErrorView { session_id: Some(session_id), error: "malformed message"@, context: Some(reason) }
}

/// The error to publish for a payload that could not be read. Where the
/// session it belongs to is known, the error names the session and gives
/// the reason as its context; where it is not, there is nothing to publish
/// and the payload is dropped.
pub fn report_malformed(session_id: Option<String>, reason: String) -> (report: Option<
    ErrorMessage,
>)
    ensures
        match session_id {
            Some(session_id) => report matches Some(error) && error@ == malformed_message(
                session_id@,
                reason@,
            ),
            None => report is None,
        },
{
    match session_id {
        Some(session_id) => Some(
            ErrorMessage {
                session_id: Some(session_id),
                error: "malformed message".to_owned(),
                context: Some(reason),
            },
        ),
        None => None,
    }
}

} // verus!
