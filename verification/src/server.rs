//! The request handler of the resolution route: parse the path parameter,
//! fail fast on a malformed hash or a missing session, otherwise ask for the
//! magnet identifier to be submitted to the engine, and turn the engine's
//! answer into the final HTTP reply.

use vstd::prelude::*;
use vstd::string::{StrSliceExecFns, StringExecFns};

use crate::client::{classify_engine_event, Client, EngineEvent, ResolveStep};
use crate::hex::{ascii_lower_char, ascii_lowercase, bytes_of_hex, lower_char, push_char};
use crate::info_hash::{magnet_uri_of, valid_info_hash_hex, InfoHash, ParseError};
use crate::reply::{
    content_disposition_of, display_name, engine_error_reply, header_safe_str, invalid_hash_reply,
    is_engine_error_reply, is_invalid_hash_reply, is_torrent_file_reply, torrent_file_response,
    utf8_to_str, HttpReply,
};

verus! {

/// The info-hash URL path parameter, exactly as collected from the path: it
/// is validated later, by the endpoint handler, for a precise error message.
pub struct InfoHashParam(pub String);

impl InfoHashParam {
    /// The parameter with every ASCII uppercase letter lowercased.
    pub fn lowercase(&self) -> (r: String)
        ensures
            r@ == ascii_lowercase(self.0@),
    {
        let s = self.0.as_str();
        let n = s.unicode_len();
        let mut r = String::new();
        let mut i: usize = 0;
        while i < n
            invariant
                n == s@.len(),
                i <= n,
                r@.len() == i,
                forall|j: int| 0 <= j < i ==> r@[j] == lower_char(#[trigger] s@[j]),
            decreases n - i,
        {
            push_char(&mut r, ascii_lower_char(s.get_char(i)));
            i += 1;
        }
        proof {
            assert(r@ =~= ascii_lowercase(self.0@));
        }
        r
    }
}

/// What the handler decided after looking at the path parameter and the
/// session state: answer at once, or submit this magnet identifier (of this
/// validated hash) to the engine and come back with its answer.
pub enum HandlerStep {
    Respond(HttpReply),
    AskEngine(InfoHash, String),
}

/// The first half of the resolution handler. A malformed parameter is
/// answered 400 before any engine involvement; a missing session is answered
/// 500; only a valid hash with a live session goes on to the engine.
pub fn handle_torrent_request(client: &Client, param: &InfoHashParam) -> (step: HandlerStep)
    ensures
        step is AskEngine <==> valid_info_hash_hex(param.0@) && client.session_started,
        match step {
            HandlerStep::Respond(r) => {
                &&& !valid_info_hash_hex(param.0@) ==> is_invalid_hash_reply(r)
                &&& valid_info_hash_hex(param.0@) ==> is_engine_error_reply(r)
            },
            HandlerStep::AskEngine(h, m) => {
                &&& h@ == bytes_of_hex(param.0@)
                &&& m@ == magnet_uri_of(h@)
            },
        },
{
    let hash = match InfoHash::from_str(param.0.as_str()) {
        Ok(h) => h,
        Err(ParseError::InvalidInfoHash) => {
            return HandlerStep::Respond(invalid_hash_reply());
        },
    };
    match client.begin_resolve(&hash) {
        ResolveStep::Submit(magnet) => HandlerStep::AskEngine(hash, magnet),
        ResolveStep::Fail(_) => HandlerStep::Respond(engine_error_reply()),
    }
}

/// The second half of the resolution handler: the engine's answer (or the
/// failure of the submission itself) becomes the final reply. Metadata, both
/// fresh and cached, becomes the 200 torrent-file response; a policy-violating
/// download and a failed submission both become the generic 500 reply, which
/// carries no torrent content.
pub fn engine_event_reply(hash: &InfoHash, event: EngineEvent) -> (r: HttpReply)
    ensures
        match event {
            EngineEvent::AlreadyManaged(info, content) => is_torrent_file_reply(
                hash@,
                info.name_view(),
                content@,
                r,
            ),
            EngineEvent::ListOnly(info, content) => is_torrent_file_reply(
                hash@,
                info.name_view(),
                content@,
                r,
            ),
            EngineEvent::AddedForDownload => is_engine_error_reply(r),
            EngineEvent::SubmitFailed => is_engine_error_reply(r),
        },
{
    match classify_engine_event(event) {
        Ok((info, content)) => {
            let hex = hash.to_hex_string();
            let name: String = match &info.name {
                Some(bytes) => match utf8_to_str(bytes.as_slice()) {
                    Some(s) => if header_safe_str(s) {
                        s.to_owned()
                    } else {
                        hash.to_hex_string()
                    },
                    None => hash.to_hex_string(),
                },
                None => hash.to_hex_string(),
            };
            let mut filename = name;
            filename.append(".torrent");
            proof {
                assert(("attachment; filename="@ + filename@) =~= content_disposition_of(
                    display_name(hash@, info.name_view()),
                ));
            }
            torrent_file_response(content, filename.as_str(), hex.as_str())
        },
        Err(_) => engine_error_reply(),
    }
}

} // verus!
