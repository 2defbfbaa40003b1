//! Web addresses: the socket address of the transcription service and the control addresses of
//! the local one.
use reqwest::Url;
use vstd::prelude::*;
use vstd::string::*;

use crate::text::{self, CharClass};

verus! {

/// How `Url::parse` writes a text again that it reads as an absolute address, if it does.
pub uninterp spec fn url_parsed(text: Seq<char>) -> Option<Seq<char>>;

/// How an address is written after `Url::parse`, `Url::set_path` and `Url::set_query` with nothing,
/// if it can be parsed.
pub uninterp spec fn url_at_path(text: Seq<char>, path: Seq<char>) -> Option<Seq<char>>;

/// How an address is written after `Url::parse`, `Url::set_scheme`, `Url::set_path` and, through
/// `Url::query_pairs_mut`, a single query pair, if it can be parsed and takes the scheme.
pub uninterp spec fn url_rebuilt(
    text: Seq<char>,
    scheme: Seq<char>,
    path: Seq<char>,
    key: Seq<char>,
    value: Seq<char>,
) -> Option<Seq<char>>;

/// The scheme of an address: what stands before the first colon.
pub open spec fn scheme_of(text: Seq<char>) -> Seq<char> {
    text.take(text::until_class(text, CharClass::Colon) as int)
}

/// An address of this length, extended by text of length `added`, stays within the positions
/// that `Url` can count, however the added text is escaped.
pub open spec fn url_room(length: nat, added: nat) -> bool {
    length + 12 * added + 16 <= u32::MAX
}

/// `Url::parse` reads an absolute address, or fails; `Url::to_string` writes it again.
#[verifier::external_body]
fn parse_url(text: &str) -> (r: Option<String>)
    ensures
        match r {
            Some(s) => url_parsed(text@) == Some(s@),
            None => url_parsed(text@) is None,
        },
{
    match Url::parse(text) {
        Ok(u) => Some(u.to_string()),
        Err(_) => None,
    }
}

/// `Url::scheme` is the part of the address, as it is written, before the first colon.
#[verifier::external_body]
fn url_scheme(text: &str) -> (r: Option<String>)
    ensures
        match r {
            Some(s) => url_parsed(text@) matches Some(t) && s@ == scheme_of(t),
            None => url_parsed(text@) is None,
        },
{
    match Url::parse(text) {
        Ok(u) => Some(u.scheme().to_string()),
        Err(_) => None,
    }
}

/// `Url::set_path` replaces the path of a parsed address, and `Url::set_query` with nothing removes
/// its query. Both take any path; they panic on an address that grows beyond what can be counted.
#[verifier::external_body]
fn address_at_path(text: &str, path: &str) -> (r: Option<String>)
    requires
        url_parsed(text@) matches Some(t) ==> url_room(t.len(), path@.len()),
    ensures
        r is Some == url_parsed(text@) is Some,
        match r {
            Some(s) => url_at_path(text@, path@) == Some(s@),
            None => url_at_path(text@, path@) is None,
        },
{
    match Url::parse(text) {
        Ok(mut u) => {
            u.set_path(path);
            u.set_query(None);
            Some(u.to_string())
        },
        Err(_) => None,
    }
}

/// `Url::set_scheme`, `Url::set_path` and `Url::query_pairs_mut`, cleared and given one pair,
/// replace these parts of a parsed address. The scheme may be refused, but an `http` or `https`
/// address, which has a host, takes `ws` and `wss`. An address that takes one of these has it as its
/// scheme when it is written. An address that grows beyond what can be counted makes them panic.
#[verifier::external_body]
fn rebuilt_address(text: &str, scheme: &str, path: &str, key: &str, value: &str) -> (r: Option<
    String,
>)
    requires
        url_parsed(text@) matches Some(t) ==> url_room(
            t.len(),
            scheme@.len() + path@.len() + key@.len() + value@.len(),
        ),
    ensures
        match r {
            Some(s) => url_rebuilt(text@, scheme@, path@, key@, value@) == Some(s@),
            None => url_rebuilt(text@, scheme@, path@, key@, value@) is None,
        },
        r is Some ==> url_parsed(text@) is Some,
        (url_parsed(text@) matches Some(t) && (scheme_of(t) == "http"@ || scheme_of(t) == "https"@)
            && (scheme@ == "ws"@ || scheme@ == "wss"@)) ==> r is Some,
        r matches Some(s) ==> (scheme@ == "ws"@ || scheme@ == "wss"@) ==> scheme_of(s@)
            == scheme@,
{
    match Url::parse(text) {
        Ok(mut u) => match u.set_scheme(scheme) {
            Ok(()) => {
                u.set_path(path);
                u.query_pairs_mut().clear().append_pair(key, value);
                Some(u.to_string())
            },
            Err(()) => None,
        },
        Err(_) => None,
    }
}

/// Why no socket address could be made. A scheme is refused only by addresses that are neither
/// `http` nor `https`, which are found unsupported before.
#[derive(Debug)]
pub enum UrlError {
    InvalidBase,
    UnsupportedScheme(String),
    SchemeRefused,
}

impl UrlError {
    /// The message shown for the error.
    pub fn message(&self) -> (r: String)
        ensures
            r@ == match self {
                UrlError::InvalidBase => "Invalid Mistral API base URL"@,
                UrlError::UnsupportedScheme(s) => "Unsupported Mistral API URL scheme: "@ + s@,
                UrlError::SchemeRefused => "Failed to set websocket scheme"@,
            },
    {
        match self {
            UrlError::InvalidBase => "Invalid Mistral API base URL".to_owned(),
            UrlError::UnsupportedScheme(s) => text::join(
                "Unsupported Mistral API URL scheme: ",
                s.as_str(),
            ),
            UrlError::SchemeRefused => "Failed to set websocket scheme".to_owned(),
        }
    }
}

/// The path of the realtime transcription endpoint.
pub open spec fn realtime_path() -> Seq<char> {
    "/v1/audio/transcriptions/realtime"@
}

/// The scheme of the socket that goes with a web scheme.
pub open spec fn socket_scheme(scheme: Seq<char>) -> Option<Seq<char>> {
    if scheme == "https"@ {
        Some("wss"@)
    } else if scheme == "http"@ {
        Some("ws"@)
    } else {
        None
    }
}

/// A base address without the slashes at its end.
pub open spec fn base_text(api_base_url: Seq<char>) -> Seq<char> {
    text::trim_end_class(api_base_url, CharClass::Slash)
}

/// The base address, as far as it can be read, leaves room for the path and the model.
pub open spec fn socket_room(api_base_url: Seq<char>, model: Seq<char>) -> bool {
    match url_parsed(base_text(api_base_url)) {
        Some(t) => url_room(t.len(), model.len() + 100),
        None => true,
    }
}

/// The contract of the socket address functions: the result and the reason for each error.
pub open spec fn socket_outcome(
    api_base_url: Seq<char>,
    model: Seq<char>,
    r: Result<String, UrlError>,
) -> bool {
    let base = base_text(api_base_url);
    match url_parsed(base) {
        None => r == Err::<String, UrlError>(UrlError::InvalidBase),
        Some(t) => match socket_scheme(scheme_of(t)) {
            None => r matches Err(UrlError::UnsupportedScheme(s)) && s@ == scheme_of(t),
            Some(scheme) => r matches Ok(s) && scheme_of(s@) == scheme && url_rebuilt(
                base,
                scheme,
                realtime_path(),
                "model"@,
                model,
            ) == Some(s@),
        },
    }
}

/// The address of the socket for realtime transcription: the base address with its web scheme
/// replaced by the socket scheme, the endpoint's path, and the model as its only query pair.
pub fn socket_url(api_base_url: &str, model: &str) -> (r: Result<String, UrlError>)
    requires
        socket_room(api_base_url@, model@),
    ensures
        socket_outcome(api_base_url@, model@, r),
{
    proof {
        reveal_strlit("wss");
        reveal_strlit("ws");
        reveal_strlit("model");
        reveal_strlit("/v1/audio/transcriptions/realtime");
    }
    let base = text::trim_tail(api_base_url, CharClass::Slash);
    let scheme = match url_scheme(base.as_str()) {
        Some(scheme) => scheme,
        None => {
            return Err(UrlError::InvalidBase);
        },
    };
    let target = if text::same(scheme.as_str(), "https") {
        "wss"
    } else if text::same(scheme.as_str(), "http") {
        "ws"
    } else {
        return Err(UrlError::UnsupportedScheme(scheme));
    };
    match rebuilt_address(
        base.as_str(),
        target,
        "/v1/audio/transcriptions/realtime",
        "model",
        model,
    ) {
        Some(url) => Ok(url),
        None => Err(UrlError::SchemeRefused),
    }
}

/// Whether an address leaves room for text of the given length.
fn has_room(address: &str, added: &str, extra: usize) -> (r: bool)
    requires
        extra <= 100,
    ensures
        r == url_room(address@.len(), (added@.len() + extra) as nat),
{
    let length: usize = address.unicode_len();
    let more: usize = added.unicode_len();
    if length > 0xffff_ffff || more > 0xffff_ffff {
        return false;
    }
    length as u64 + 12 * (more as u64 + extra as u64) + 16 <= 0xffff_ffff
}

/// As `socket_url`, for any base address and model: nothing where the address would grow beyond
/// what can be counted.
pub fn checked_socket_url(api_base_url: &str, model: &str) -> (r: Option<Result<String, UrlError>>)
    ensures
        match r {
            Some(outcome) => socket_room(api_base_url@, model@) && socket_outcome(
                api_base_url@,
                model@,
                outcome,
            ),
            None => !socket_room(api_base_url@, model@),
        },
{
    let base = text::trim_tail(api_base_url, CharClass::Slash);
    match parse_url(base.as_str()) {
        Some(url) => if has_room(url.as_str(), model, 100) {
            Some(socket_url(api_base_url, model))
        } else {
            None
        },
        None => Some(Err(UrlError::InvalidBase)),
    }
}

/// The address of the local service.
pub open spec fn local_service() -> Seq<char> {
    "http://127.0.0.1:3737"@
}

/// The address of a control endpoint: that of the event stream with another path and no query,
/// or, where the event stream's address cannot be read, that of the local service.
pub open spec fn control_text(stream_events_url: Seq<char>, path: Seq<char>) -> Seq<char> {
    match url_at_path(stream_events_url, path) {
        Some(t) => t,
        None => local_service() + path,
    }
}

/// The event stream's address, as far as it can be read, leaves room for the path.
pub open spec fn control_room(stream_events_url: Seq<char>, path: Seq<char>) -> bool {
    match url_parsed(stream_events_url) {
        Some(t) => url_room(t.len(), path.len()),
        None => true,
    }
}

/// The address of the control endpoint `path` of the service that streams its events from
/// `stream_events_url`.
pub fn derive_control_url(stream_events_url: &str, path: &str) -> (r: String)
    requires
        control_room(stream_events_url@, path@),
    ensures
        r@ == control_text(stream_events_url@, path@),
{
    match address_at_path(stream_events_url, path) {
        Some(url) => url,
        None => text::join("http://127.0.0.1:3737", path),
    }
}

/// As `derive_control_url`, for any address and path: nothing where the address would grow beyond
/// what can be counted.
pub fn checked_control_url(stream_events_url: &str, path: &str) -> (r: Option<String>)
    ensures
        match r {
            Some(s) => control_room(stream_events_url@, path@) && s@ == control_text(
                stream_events_url@,
                path@,
            ),
            None => !control_room(stream_events_url@, path@),
        },
{
    match parse_url(stream_events_url) {
        Some(url) => if has_room(url.as_str(), path, 0) {
            Some(derive_control_url(stream_events_url, path))
        } else {
            None
        },
        None => Some(derive_control_url(stream_events_url, path)),
    }
}

} // verus!
