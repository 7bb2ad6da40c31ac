//! The response builder: a plain description of an HTTP response (status,
//! headers, body), the replies this service can give, and the filename rule
//! for a resolved torrent — the engine-declared name when it is valid,
//! header-safe text, otherwise the canonical hex info-hash.

use vstd::prelude::*;
use vstd::slice::slice_to_vec;
use vstd::string::{StrSliceExecFns, StringExecFns};
use vstd::utf8::{decode_utf8, encode_utf8, valid_utf8};

use crate::hex::hex_of_bytes;

verus! {

/// A complete HTTP response, as plain values: the front end writes it out
/// verbatim.
pub struct HttpReply {
    /// The HTTP status code.
    pub status: u16,
    /// Header name/value pairs, in order.
    pub headers: Vec<(String, String)>,
    /// The response body.
    pub body: Vec<u8>,
}

/// A character that can stand in an HTTP header value: no control characters
/// (below space) and no DEL.
pub open spec fn is_header_safe_char(c: char) -> bool {
    0x20 <= c as u32 && c as u32 != 0x7f
}

/// A string that can stand in an HTTP header value.
pub open spec fn header_safe(s: Seq<char>) -> bool {
    forall|i: int| 0 <= i < s.len() ==> is_header_safe_char(#[trigger] s[i])
}

/// The filename stem of a resolved torrent: its declared name when that is
/// present, valid UTF-8 and header-safe; otherwise the canonical hex form of
/// the info-hash, which is always well-formed.
pub open spec fn display_name(hash: Seq<u8>, name: Option<Seq<u8>>) -> Seq<char> {
    match name {
        Some(n) => if valid_utf8(n) && header_safe(decode_utf8(n)) {
            decode_utf8(n)
        } else {
            hex_of_bytes(hash)
        },
        None => hex_of_bytes(hash),
    }
}

/// The `content-disposition` value for a torrent with the given filename stem.
pub open spec fn content_disposition_of(name: Seq<char>) -> Seq<char> {
    "attachment; filename="@ + name + ".torrent"@
}

/// The reply for a successfully resolved torrent: status 200, the raw torrent
/// bytes verbatim, the binary torrent content type, an attachment filename
/// built from the display name, and a custom header carrying the canonical
/// hex info-hash.
pub open spec fn is_torrent_file_reply(
    hash: Seq<u8>,
    name: Option<Seq<u8>>,
    content: Seq<u8>,
    r: HttpReply,
) -> bool {
    &&& r.status == 200
    &&& r.body@ == content
    &&& r.headers@.len() == 3
    &&& r.headers@[0].0@ == "content-type"@
    &&& r.headers@[0].1@ == "application/x-bittorrent"@
    &&& r.headers@[1].0@ == "content-disposition"@
    &&& r.headers@[1].1@ == content_disposition_of(display_name(hash, name))
    &&& r.headers@[2].0@ == "x-torrust-torrent-infohash"@
    &&& r.headers@[2].1@ == hex_of_bytes(hash)
}

/// The client-error reply for a malformed info-hash: status 400, a generic
/// text body, no engine involvement.
pub open spec fn is_invalid_hash_reply(r: HttpReply) -> bool {
    &&& r.status == 400
    &&& r.headers@.len() == 0
    &&& r.body@ == encode_utf8("Invalid info hash"@)
}

/// The reply for every engine-side failure: status 500 and a generic text
/// body that leaks no internal detail — in particular, never torrent content.
pub open spec fn is_engine_error_reply(r: HttpReply) -> bool {
    &&& r.status == 500
    &&& r.headers@.len() == 0
    &&& r.body@ == encode_utf8("BitTorrent client error"@)
}

/// The reply for a request that exceeded the global deadline: status 408 and
/// an empty body.
pub open spec fn is_request_timeout_reply(r: HttpReply) -> bool {
    &&& r.status == 408
    &&& r.headers@.len() == 0
    &&& r.body@.len() == 0
}

/// A header-less text reply with the given status.
fn text_reply(status: u16, message: &str) -> (r: HttpReply)
    ensures
        r.status == status,
        r.headers@.len() == 0,
        r.body@ == encode_utf8(message@),
{
    HttpReply { status, headers: Vec::new(), body: slice_to_vec(message.as_bytes()) }
}

/// The 400 reply for a malformed info-hash.
pub fn invalid_hash_reply() -> (r: HttpReply)
    ensures
        is_invalid_hash_reply(r),
{
    text_reply(400, "Invalid info hash")
}

/// The 500 reply for any engine-side failure.
pub fn engine_error_reply() -> (r: HttpReply)
    ensures
        is_engine_error_reply(r),
{
    text_reply(500, "BitTorrent client error")
}

/// The 408 reply for a request that exceeded the global deadline.
pub fn request_timeout_reply() -> (r: HttpReply)
    ensures
        is_request_timeout_reply(r),
{
    HttpReply { status: 408, headers: Vec::new(), body: Vec::new() }
}

/// Relies on `std::str::from_utf8`: it succeeds exactly on valid UTF-8 input
/// and yields the string whose characters are the decoding of the bytes.
#[verifier::external_body]
pub(crate) fn utf8_to_str(bytes: &[u8]) -> (r: Option<&str>)
    ensures
        r is Some <==> valid_utf8(bytes@),
        r is Some ==> r->0@ == decode_utf8(bytes@),
{
    std::str::from_utf8(bytes).ok()
}

/// Whether every character of the string may stand in an HTTP header value.
pub fn header_safe_str(s: &str) -> (r: bool)
    ensures
        r == header_safe(s@),
{
    let n = s.unicode_len();
    let mut i: usize = 0;
    while i < n
        invariant
            n == s@.len(),
            i <= n,
            forall|j: int| 0 <= j < i ==> is_header_safe_char(#[trigger] s@[j]),
        decreases n - i,
    {
        let u = s.get_char(i) as u32;
        if u < 0x20 || u == 0x7f {
            assert(!is_header_safe_char(s@[i as int]));
            return false;
        }
        i += 1;
    }
    true
}

/// For every reply built for resolved metadata (cached or fresh), the status
/// is 200, the body is the raw torrent content verbatim, the content type is
/// the binary torrent type, and the attachment filename ends in `.torrent`;
/// for every engine-side failure the status is 500 and the body is the fixed
/// generic text — no torrent content is handed to the client.
pub proof fn lemma_reply_statuses(
    hash: Seq<u8>,
    name: Option<Seq<u8>>,
    content: Seq<u8>,
    r: HttpReply,
)
    ensures
        is_torrent_file_reply(hash, name, content, r) ==> {
            let d = r.headers@[1].1@;
            &&& r.status == 200
            &&& r.body@ == content
            &&& r.headers@[0].1@ == "application/x-bittorrent"@
            &&& d.len() >= 8
            &&& d.subrange(d.len() - 8, d.len() as int) == ".torrent"@
        },
        is_engine_error_reply(r) ==> r.status == 500 && r.body@ == encode_utf8(
            "BitTorrent client error"@,
        ),
{
    if is_torrent_file_reply(hash, name, content, r) {
        reveal_strlit("attachment; filename=");
        reveal_strlit(".torrent");
        let d = r.headers@[1].1@;
        let n = display_name(hash, name);
        assert(d == "attachment; filename="@ + n + ".torrent"@);
        assert(d.len() == 21 + n.len() + 8);
        assert(d.subrange(d.len() - 8, d.len() as int) =~= ".torrent"@);
    }
}

/// Builds the success response for a torrent file: status 200, the bytes
/// verbatim, the binary content type, the attachment filename as given, and
/// the custom info-hash header.
pub fn torrent_file_response(bytes: Vec<u8>, filename: &str, info_hash: &str) -> (r: HttpReply)
    ensures
        r.status == 200,
        r.body@ == bytes@,
        r.headers@.len() == 3,
        r.headers@[0].0@ == "content-type"@,
        r.headers@[0].1@ == "application/x-bittorrent"@,
        r.headers@[1].0@ == "content-disposition"@,
        r.headers@[1].1@ == "attachment; filename="@ + filename@,
        r.headers@[2].0@ == "x-torrust-torrent-infohash"@,
        r.headers@[2].1@ == info_hash@,
{
    let mut headers: Vec<(String, String)> = Vec::new();
    headers.push(("content-type".to_owned(), "application/x-bittorrent".to_owned()));
    let mut disposition = "attachment; filename=".to_owned();
    disposition.append(filename);
    headers.push(("content-disposition".to_owned(), disposition));
    headers.push(("x-torrust-torrent-infohash".to_owned(), info_hash.to_owned()));
    HttpReply { status: 200, headers, body: bytes }
}

} // verus!
