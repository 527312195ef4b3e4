//! The side channel that mirrors every played artifact to remote consumers.

use base64::Engine;
use vstd::prelude::*;

verus! {

/// The standard Base64 encoding (with padding) of a byte sequence.
pub uninterp spec fn base64_of(bytes: Seq<u8>) -> Seq<char>;

/// Relies on base64's `general_purpose::STANDARD.encode`: the standard
/// alphabet with padding, which depends on the bytes alone.
#[verifier::external_body]
fn base64_standard(bytes: &Vec<u8>) -> (r: String)
    ensures
        r@ == base64_of(bytes@),
{
    base64::engine::general_purpose::STANDARD.encode(bytes.as_slice())
}

/// One broadcast record: the Base64 text of an artifact and its format.
#[derive(Debug, Clone, Default)]
pub struct AudioMessage {
    pub data: String,
    pub format: String,
}

/// The broadcast record of the artifact `bytes`, tagged with the cache's
/// audio format.
pub fn audio_message(bytes: &Vec<u8>) -> (r: AudioMessage)
    ensures
        r.data@ == base64_of(bytes@),
        r.format@ == crate::audio_cache::AUDIO_FILE_EXTENSION@,
{
    AudioMessage {
        data: base64_standard(bytes),
        format: crate::audio_cache::AUDIO_FILE_EXTENSION.to_owned(),
    }
}

} // verus!
