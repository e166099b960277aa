//! Addresses of the speech engine's endpoints.

use vstd::prelude::*;
use crate::text::{decimal, to_decimal};

verus! {

/// What `urlencoding::encode` makes of a text.
pub uninterp spec fn url_encoded(s: Seq<char>) -> Seq<char>;

/// The characters that may stand unescaped in a percent-encoded text.
pub open spec fn is_url_safe(c: char) -> bool {
    ('0' <= c && c <= '9') || ('A' <= c && c <= 'Z') || ('a' <= c && c <= 'z') || c == '-' || c
        == '.' || c == '_' || c == '~' || c == '%'
}

/// Relies on `urlencoding::encode`: it percent-encodes every byte but ASCII
/// letters, digits and `-`, `.`, `_`, `~`, so the result depends on the text
/// alone, holds only those characters and `%`, and is empty for an empty text.
#[verifier::external_body]
fn percent_encode(s: &str) -> (r: String)
    ensures
        r@ == url_encoded(s@),
        forall|i: int| 0 <= i < r@.len() ==> is_url_safe(#[trigger] r@[i]),
        s@.len() == 0 ==> r@.len() == 0,
{
    urlencoding::encode(s).into_owned()
}

/// The address of the request that turns an already encoded text into an
/// utterance description for `speaker`.
pub open spec fn query_address(encoded: Seq<char>, speaker: nat) -> Seq<char> {
    "http://127.0.0.1:50021/audio_query?speaker="@ + decimal(speaker) + "&text="@ + encoded
}

/// The address of the request that turns an utterance description into a
/// waveform spoken by `speaker`.
pub open spec fn synthesis_address(speaker: nat) -> Seq<char> {
    "http://127.0.0.1:50021/synthesis?speaker="@ + decimal(speaker)
}

/// The address that lists the engine's speakers.
pub open spec fn speakers_address() -> Seq<char> {
    "http://127.0.0.1:50021/speakers"@
}

/// The query address for `speaker` and a text already percent-encoded.
pub fn query_url_encoded(encoded: &str, speaker: usize) -> (r: String)
    ensures
        r@ == query_address(encoded@, speaker as nat),
{
    let mut r = String::from_str("http://127.0.0.1:50021/audio_query?speaker=");
    r.append(to_decimal(speaker).as_str());
    r.append("&text=");
    r.append(encoded);
    r
}

/// The query address for `speaker` and `text`, which is percent-encoded.
pub fn query_url(text: &str, speaker: usize) -> (r: String)
    ensures
        r@ == query_address(url_encoded(text@), speaker as nat),
{
    let encoded = percent_encode(text);
    query_url_encoded(encoded.as_str(), speaker)
}

/// The synthesis address for `speaker`.
pub fn synthesis_url(speaker: usize) -> (r: String)
    ensures
        r@ == synthesis_address(speaker as nat),
{
    let mut r = String::from_str("http://127.0.0.1:50021/synthesis?speaker=");
    r.append(to_decimal(speaker).as_str());
    r
}

/// The address that lists the engine's speakers.
pub fn speakers_url() -> (r: String)
    ensures
        r@ == speakers_address(),
{
    String::from_str("http://127.0.0.1:50021/speakers")
}

} // verus!
