//! The node's HTTP interface as far as it is text: where the requests go,
//! what authorises them, and how the answer to a send is read.

use crate::text::{
    chars_of, decimal, fits_bytes, push_decimal, string_of, strip, strip_at, strip_end,
    strip_end_at, utf8_len, Strip,
};
use vstd::prelude::*;
use vstd::string::StringExecFns;

verus! {

/// A JSON document as `serde_json` holds it.
#[verifier::external_type_specification]
#[verifier::external_body]
pub struct ExJsonValue(serde_json::Value);

/// The members of the JSON object that a text is: under each key of the
/// object the member's text if the member is a string, and `None` if it
/// is anything else. A document that is no object has no members. `None`
/// for a text that is not one JSON document.
pub uninterp spec fn json_parsed(body: Seq<char>) -> Option<Map<Seq<char>, Option<Seq<char>>>>;

/// The members of a parsed JSON document, as [`json_parsed`] gives them.
pub uninterp spec fn json_members(doc: serde_json::Value) -> Map<Seq<char>, Option<Seq<char>>>;

/// What a JSON document holds under a key.
#[derive(Debug)]
pub enum JsonMember {
    /// No such member, or the document is no object.
    Missing,
    /// A member that is not a string.
    Other,
    /// A string member.
    Text(String),
}

impl JsonMember {
    /// The member as it stands in a map of members under `key`.
    pub open spec fn found_in(self, members: Map<Seq<char>, Option<Seq<char>>>, key: Seq<char>) -> bool {
        match self {
            JsonMember::Missing => !members.contains_key(key),
            JsonMember::Other => members.contains_key(key) && members[key] is None,
            JsonMember::Text(t) => members.contains_key(key) && members[key] == Some(t@),
        }
    }
}

/// `serde_json::from_str` at the type `Value`: the document that `body`
/// is, or `None` where it reports an error. The document depends on the
/// text alone.
#[verifier::external_body]
fn parse_json(body: &str) -> (r: Option<serde_json::Value>)
    ensures
        r matches Some(doc) ==> json_parsed(body@) == Some(json_members(doc)),
        r is None ==> json_parsed(body@) is None,
{
    serde_json::from_str::<serde_json::Value>(body).ok()
}

/// `serde_json::Value::get` with a string key: the member of an object
/// under that key, nothing for any other document. The result tells a
/// string member, whose text it copies, from any other member.
#[verifier::external_body]
fn json_member(doc: &serde_json::Value, key: &str) -> (r: JsonMember)
    ensures
        r.found_in(json_members(*doc), key@),
{
    match doc.get(key) {
        None => JsonMember::Missing,
        Some(serde_json::Value::String(text)) => JsonMember::Text(text.clone()),
        Some(_) => JsonMember::Other,
    }
}

/// The transaction identifier among the members of an answer: the member
/// `txid` if there is one, else the member `hash`; the identifier is that
/// member's text, and there is none if the member is not a string.
pub open spec fn txid_of(members: Map<Seq<char>, Option<Seq<char>>>) -> Option<Seq<char>> {
    if members.contains_key("txid"@) {
        members["txid"@]
    } else if members.contains_key("hash"@) {
        members["hash"@]
    } else {
        None
    }
}

/// The transaction identifier that a body names as JSON, `None` where the
/// body is not JSON or names none.
pub open spec fn named_txid(body: Seq<char>) -> Option<Seq<char>> {
    match json_parsed(body) {
        Some(members) => txid_of(members),
        None => None,
    }
}

/// The text of an optional string.
pub open spec fn text_of(s: Option<String>) -> Option<Seq<char>> {
    match s {
        Some(t) => Some(t@),
        None => None,
    }
}

/// Picks the transaction identifier from what an answer holds under
/// `txid` and under `hash`: `txid` decides if it is there at all.
pub fn pick_txid(txid: JsonMember, hash: JsonMember) -> (r: Option<String>)
    ensures
        text_of(r) == match txid {
            JsonMember::Text(t) => Some(t@),
            JsonMember::Other => None,
            JsonMember::Missing => match hash {
                JsonMember::Text(h) => Some(h@),
                _ => None,
            },
        },
{
    match txid {
        JsonMember::Text(t) => Some(t),
        JsonMember::Other => None,
        JsonMember::Missing => match hash {
            JsonMember::Text(h) => Some(h),
            _ => None,
        },
    }
}

/// The transaction identifier that a JSON answer names, if `body` is JSON
/// and names one.
pub fn txid_member(body: &str) -> (r: Option<String>)
    ensures
        text_of(r) == named_txid(body@),
{
    match parse_json(body) {
        Some(doc) => {
            let txid = json_member(&doc, "txid");
            let hash = json_member(&doc, "hash");
            pick_txid(txid, hash)
        },
        None => None,
    }
}

/// The longest bare answer, in bytes, that is taken for an identifier.
pub const MAX_BARE_TXID: usize = 64;

/// An answer without the white space and the double quotes around it.
pub open spec fn bare_text(body: Seq<char>) -> Seq<char> {
    strip(strip(body, Strip::Whitespace), Strip::Only('"'))
}

/// What a send came to, from the answer's status and body and the
/// identifier `named` that the body names as JSON.
///
/// A successful answer gives the named identifier; without one the bare
/// body, if it is not empty and at most [`MAX_BARE_TXID`] bytes long;
/// else the word `sent`. A failed answer gives its body as the error, or
/// the status where the body is empty.
pub open spec fn send_outcome_text(
    success: bool,
    status: Seq<char>,
    body: Seq<char>,
    named: Option<Seq<char>>,
) -> Result<Seq<char>, Seq<char>> {
    if success {
        match named {
            Some(txid) => Ok(txid),
            None => {
                let bare = bare_text(body);
                if bare.len() > 0 && utf8_len(bare) <= MAX_BARE_TXID {
                    Ok(bare)
                } else {
                    Ok("sent"@)
                }
            },
        }
    } else if body.len() == 0 {
        Err("Send failed (HTTP "@ + status + ")"@)
    } else {
        Err(body)
    }
}

/// The text of an outcome.
pub open spec fn outcome_text(r: Result<String, String>) -> Result<Seq<char>, Seq<char>> {
    match r {
        Ok(t) => Ok(t@),
        Err(e) => Err(e@),
    }
}

/// Reads the outcome of a send from the answer's status and body and the
/// identifier that the body names as JSON.
pub fn send_outcome_from(success: bool, status: &str, body: String, named: Option<String>) -> (r:
    Result<String, String>)
    ensures
        outcome_text(r) == send_outcome_text(success, status@, body@, text_of(named)),
{
    if success {
        if let Some(txid) = named {
            return Ok(txid);
        }
        let v = chars_of(body.as_str());
        assert(v@.subrange(0, v.len() as int) == v@);
        let (a, b) = strip_at(&v, 0, v.len(), Strip::Whitespace);
        let (c, d) = strip_at(&v, a, b, Strip::Only('"'));
        if c < d && fits_bytes(&v, c, d, MAX_BARE_TXID) {
            Ok(string_of(&v, c, d))
        } else {
            Ok(String::from_str("sent"))
        }
    } else if body.as_str().is_empty() {
        let mut text = String::from_str("Send failed (HTTP ");
        text.append(status);
        text.append(")");
        Err(text)
    } else {
        Err(body)
    }
}

/// Reads the outcome of a send from the answer's status and body.
pub fn send_outcome(success: bool, status: &str, body: String) -> (r: Result<String, String>)
    ensures
        outcome_text(r) == send_outcome_text(success, status@, body@, named_txid(body@)),
{
    if success {
        let named = txid_member(body.as_str());
        send_outcome_from(true, status, body, named)
    } else {
        send_outcome_from(false, status, body, None)
    }
}

/// A request the dashboard makes of the node.
#[derive(Clone, Copy, Debug, PartialEq, Eq)]
pub enum Endpoint {
    Status,
    Mempool,
    Balance,
    Address,
    Mining,
    MiningStart,
    MiningStop,
    MiningThreads,
    Send,
    /// The block at a height.
    Block(u64),
}

/// The path of a request below the base address.
pub open spec fn endpoint_path(endpoint: Endpoint) -> Seq<char> {
    match endpoint {
        Endpoint::Status => "/api/status"@,
        Endpoint::Mempool => "/api/mempool"@,
        Endpoint::Balance => "/api/wallet/balance"@,
        Endpoint::Address => "/api/wallet/address"@,
        Endpoint::Mining => "/api/mining"@,
        Endpoint::MiningStart => "/api/mining/start"@,
        Endpoint::MiningStop => "/api/mining/stop"@,
        Endpoint::MiningThreads => "/api/mining/threads"@,
        Endpoint::Send => "/api/wallet/send"@,
        Endpoint::Block(height) => "/api/block/"@ + decimal(height as nat),
    }
}

/// The base address as it is kept: without slashes at its end.
pub fn normalize_base_url(raw: &str) -> (base: String)
    ensures
        base@ == strip_end(raw@, Strip::Only('/')),
{
    let v = chars_of(raw);
    assert(v@.subrange(0, v.len() as int) == v@);
    let end = strip_end_at(&v, 0, v.len(), Strip::Only('/'));
    string_of(&v, 0, end)
}

/// The address of a request under the base address `base`.
pub fn endpoint_url(base: &str, endpoint: Endpoint) -> (url: String)
    ensures
        url@ == base@ + endpoint_path(endpoint),
{
    let mut url = String::from_str(base);
    match endpoint {
        Endpoint::Status => url.append("/api/status"),
        Endpoint::Mempool => url.append("/api/mempool"),
        Endpoint::Balance => url.append("/api/wallet/balance"),
        Endpoint::Address => url.append("/api/wallet/address"),
        Endpoint::Mining => url.append("/api/mining"),
        Endpoint::MiningStart => url.append("/api/mining/start"),
        Endpoint::MiningStop => url.append("/api/mining/stop"),
        Endpoint::MiningThreads => url.append("/api/mining/threads"),
        Endpoint::Send => url.append("/api/wallet/send"),
        Endpoint::Block(height) => {
            url.append("/api/block/");
            push_decimal(&mut url, height);
        },
    }
    url
}

/// The value of the authorisation header for the token of a cookie file:
/// the word `Bearer` and the token without the white space around it.
pub fn bearer_value(token: &str) -> (value: String)
    ensures
        value@ == "Bearer "@ + strip(token@, Strip::Whitespace),
{
    let v = chars_of(token);
    assert(v@.subrange(0, v.len() as int) == v@);
    let (a, b) = strip_at(&v, 0, v.len(), Strip::Whitespace);
    let kept = string_of(&v, a, b);
    let mut value = String::from_str("Bearer ");
    value.append(kept.as_str());
    value
}

} // verus!
