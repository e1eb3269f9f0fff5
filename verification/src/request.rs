//! The JSON requests of the Janus protocol.
//!
//! A request is a JSON object. Its `janus` member names the command; the
//! other members depend on the command. Before a request leaves, it is
//! stamped with the API secret, if one is configured, and with its
//! transaction id.

use crate::error::JaError;
use crate::japrotocol::{EstablishmentProtocol, Jsep, JsepType};
use crate::json::{
    field, flag_field, flag_value, is_object, json_is_object, json_members, json_text, new_object,
    set_member, string_value, text_field, unsigned_field, unsigned_value,
};
use vstd::prelude::*;

verus! {

/// The text of an optional string.
pub open spec fn text_view(text: Option<String>) -> Option<Seq<char>> {
    match text {
        Some(s) => Some(s@),
        None => None,
    }
}

/// The object has a string member `key` that reads `text`.
pub open spec fn has_text(v: serde_json::Value, key: Seq<char>, text: Seq<char>) -> bool {
    text_field(v, key) == Some(text)
}

/// The object has an integer member `key` of value `n`.
pub open spec fn has_unsigned(v: serde_json::Value, key: Seq<char>, n: u64) -> bool {
    unsigned_field(v, key) == Some(n)
}

/// The object has a boolean member `key` of value `b`.
pub open spec fn has_flag(v: serde_json::Value, key: Seq<char>, b: bool) -> bool {
    flag_field(v, key) == Some(b)
}

/// The object has a member `key` that is the document `member`.
pub open spec fn has_value(v: serde_json::Value, key: Seq<char>, member: serde_json::Value) -> bool {
    field(v, key) == Some(member)
}

/// The object `after` is the object `before` with the member `key` set:
/// `after` has that member, and apart from it the two hold the same members.
pub open spec fn extends(
    before: serde_json::Value,
    key: Seq<char>,
    after: serde_json::Value,
) -> bool {
    &&& json_is_object(after)
    &&& json_members(after).contains_key(key)
    &&& json_members(after).remove(key) == json_members(before).remove(key)
}

/// The object `after` is the object `before` stamped for sending: the
/// transaction is set, the API secret is set if there is one, and apart
/// from these every member is as it was.
pub open spec fn stamped(
    before: serde_json::Value,
    apisecret: Option<Seq<char>>,
    transaction: Seq<char>,
    after: serde_json::Value,
) -> bool {
    &&& json_is_object(after)
    &&& has_text(after, "transaction"@, transaction)
    &&& match apisecret {
        Some(secret) => has_text(after, "apisecret"@, secret) && json_members(after).remove(
            "transaction"@,
        ).remove("apisecret"@) == json_members(before).remove("transaction"@).remove(
            "apisecret"@,
        ),
        None => json_members(after).remove("transaction"@) == json_members(before).remove(
            "transaction"@,
        ),
    }
}

/// Stamps a request for sending, if it is one: a document that is no JSON
/// object is no request.
pub fn checked_stamp(request: serde_json::Value, apisecret: &Option<String>, transaction: &String) -> (r:
    Result<serde_json::Value, JaError>)
    ensures
        json_is_object(request) ==> r is Ok && stamped(
            request,
            text_view(*apisecret),
            transaction@,
            r.unwrap(),
        ),
        !json_is_object(request) ==> r matches Err(JaError::InvalidJanusRequest),
{
    if is_object(&request) {
        Ok(stamp(request, apisecret, transaction))
    } else {
        Err(JaError::InvalidJanusRequest)
    }
}

/// Removing the stamp from a stamped request gives back the request as the
/// caller built it, provided the caller used none of the stamp's keys.
pub proof fn lemma_unstamp(
    before: serde_json::Value,
    apisecret: Option<Seq<char>>,
    transaction: Seq<char>,
    after: serde_json::Value,
)
    requires
        stamped(before, apisecret, transaction, after),
        !json_members(before).contains_key("transaction"@),
        apisecret is Some ==> !json_members(before).contains_key("apisecret"@),
    ensures
        apisecret is None ==> json_members(after).remove("transaction"@) == json_members(before),
        apisecret is Some ==> json_members(after).remove("transaction"@).remove("apisecret"@)
            == json_members(before),
{
}

/// Stamping leaves the `body` of a request as the caller gave it.
pub proof fn lemma_stamp_keeps_body(
    before: serde_json::Value,
    apisecret: Option<Seq<char>>,
    transaction: Seq<char>,
    after: serde_json::Value,
)
    requires
        stamped(before, apisecret, transaction, after),
    ensures
        json_members(after).contains_key("body"@) == json_members(before).contains_key("body"@),
        json_members(before).contains_key("body"@) ==> json_members(after)["body"@]
            == json_members(before)["body"@],
{
    lemma_request_keys();
    let a = json_members(after);
    let b = json_members(before);
    match apisecret {
        Some(_) => {
            let a2 = a.remove("transaction"@).remove("apisecret"@);
            assert(a2.contains_key("body"@) == a.contains_key("body"@));
            if b.contains_key("body"@) {
                assert(a2["body"@] == a["body"@]);
            }
        },
        None => {
            let a2 = a.remove("transaction"@);
            assert(a2.contains_key("body"@) == a.contains_key("body"@));
            if b.contains_key("body"@) {
                assert(a2["body"@] == a["body"@]);
            }
        },
    }
}

/// What tells the names of this protocol apart: their length and their
/// first and last character.
pub open spec fn mark(name: Seq<char>) -> (nat, char, char) {
    (name.len(), name.first(), name.last())
}

/// The marks of the member names of a request, by which the names differ
/// from one another.
pub proof fn lemma_request_keys()
    ensures
        mark("janus"@) == (5nat, 'j', 's'),
        mark("plugin"@) == (6nat, 'p', 'n'),
        mark("body"@) == (4nat, 'b', 'y'),
        mark("jsep"@) == (4nat, 'j', 'p'),
        mark("rtp"@) == (3nat, 'r', 'p'),
        mark("transaction"@) == (11nat, 't', 'n'),
        mark("apisecret"@) == (9nat, 'a', 't'),
        mark("session_id"@) == (10nat, 's', 'd'),
        mark("handle_id"@) == (9nat, 'h', 'd'),
{
    reveal_strlit("janus");
    reveal_strlit("plugin");
    reveal_strlit("body");
    reveal_strlit("jsep");
    reveal_strlit("rtp");
    reveal_strlit("transaction");
    reveal_strlit("apisecret");
    reveal_strlit("session_id");
    reveal_strlit("handle_id");
}

/// The marks of the member names of a session description.
pub proof fn lemma_jsep_keys()
    ensures
        mark("type"@) == (4nat, 't', 'e'),
        mark("sdp"@) == (3nat, 's', 'p'),
        mark("trickle"@) == (7nat, 't', 'e'),
{
    reveal_strlit("type");
    reveal_strlit("sdp");
    reveal_strlit("trickle");
}

/// The object `after` is the object `before` with the member `key` set:
/// every other member is as it was.
pub open spec fn only_changed(
    before: serde_json::Value,
    key: Seq<char>,
    after: serde_json::Value,
) -> bool {
    &&& json_is_object(after)
    &&& field(after, key) is Some
    &&& forall|k: Seq<char>| k != key ==> #[trigger] field(after, k) == field(before, k)
}

/// Sets a string member.
pub(crate) fn set_text(object: &mut serde_json::Value, key: &str, text: &str)
    requires
        json_is_object(*old(object)),
    ensures
        extends(*old(object), key@, *final(object)),
        only_changed(*old(object), key@, *final(object)),
        has_text(*final(object), key@, text@),
{
    let value = string_value(String::from_str(text));
    set_member(object, key, value);
    assert(json_members(*object).remove(key@) =~= json_members(*old(object)).remove(key@));
}

/// Sets an integer member.
pub(crate) fn set_unsigned(object: &mut serde_json::Value, key: &str, n: u64)
    requires
        json_is_object(*old(object)),
    ensures
        extends(*old(object), key@, *final(object)),
        only_changed(*old(object), key@, *final(object)),
        has_unsigned(*final(object), key@, n),
{
    let value = unsigned_value(n);
    set_member(object, key, value);
    assert(json_members(*object).remove(key@) =~= json_members(*old(object)).remove(key@));
}

/// Sets a boolean member.
pub(crate) fn set_flag(object: &mut serde_json::Value, key: &str, b: bool)
    requires
        json_is_object(*old(object)),
    ensures
        extends(*old(object), key@, *final(object)),
        only_changed(*old(object), key@, *final(object)),
        has_flag(*final(object), key@, b),
{
    let value = flag_value(b);
    set_member(object, key, value);
    assert(json_members(*object).remove(key@) =~= json_members(*old(object)).remove(key@));
}

/// Sets a member to a document.
pub(crate) fn set_value(object: &mut serde_json::Value, key: &str, value: serde_json::Value)
    requires
        json_is_object(*old(object)),
    ensures
        extends(*old(object), key@, *final(object)),
        only_changed(*old(object), key@, *final(object)),
        has_value(*final(object), key@, value),
{
    set_member(object, key, value);
    assert(json_members(*object).remove(key@) =~= json_members(*old(object)).remove(key@));
}

/// Stamps a request for sending: the API secret first, if there is one,
/// then the transaction.
pub fn stamp(request: serde_json::Value, apisecret: &Option<String>, transaction: &String) -> (r:
    serde_json::Value)
    requires
        json_is_object(request),
    ensures
        stamped(request, text_view(*apisecret), transaction@, r),
{
    proof {
        lemma_request_keys();
    }
    let mut request = request;
    let ghost before = request;
    match apisecret {
        Some(secret) => {
            set_text(&mut request, "apisecret", secret.as_str());
            let ghost middle = request;
            set_text(&mut request, "transaction", transaction.as_str());
            proof {
                let a = json_members(request);
                let m = json_members(middle);
                let b = json_members(before);
                assert(a.remove("transaction"@).remove("apisecret"@) =~= b.remove(
                    "transaction"@,
                ).remove("apisecret"@)) by {
                    assert(m.remove("transaction"@).remove("apisecret"@) =~= m.remove(
                        "apisecret"@,
                    ).remove("transaction"@));
                }
            }
        },
        None => {
            set_text(&mut request, "transaction", transaction.as_str());
        },
    }
    request
}

/// The members of a request apart from its envelope: the stamp and the
/// ids of the session and the handle it is addressed to.
pub open spec fn payload(v: serde_json::Value) -> Map<Seq<char>, serde_json::Value> {
    json_members(v).remove("transaction"@).remove("apisecret"@).remove("session_id"@).remove(
        "handle_id"@,
    )
}

/// The request names exactly this session and this handle, each under its
/// own member, and neither where there is none.
pub open spec fn addressed(
    v: serde_json::Value,
    session_id: Option<u64>,
    handle_id: Option<u64>,
) -> bool {
    &&& match session_id {
        Some(id) => has_unsigned(v, "session_id"@, id),
        None => !json_members(v).contains_key("session_id"@),
    }
    &&& match handle_id {
        Some(id) => has_unsigned(v, "handle_id"@, id),
        None => !json_members(v).contains_key("handle_id"@),
    }
}

/// The request carries this stamp, and no API secret if none is given.
pub open spec fn carries_stamp(
    v: serde_json::Value,
    apisecret: Option<Seq<char>>,
    transaction: Seq<char>,
) -> bool {
    &&& has_text(v, "transaction"@, transaction)
    &&& match apisecret {
        Some(secret) => has_text(v, "apisecret"@, secret),
        None => !json_members(v).contains_key("apisecret"@),
    }
}

/// A request that, apart from its envelope, holds the command `janus` and
/// nothing else.
pub open spec fn is_plain_request(v: serde_json::Value, janus: Seq<char>) -> bool {
    &&& json_is_object(v)
    &&& payload(v).dom() =~= set!["janus"@]
    &&& json_text(payload(v)["janus"@]) == Some(janus)
}

/// An `attach` request for `plugin`.
pub open spec fn is_attach_request(v: serde_json::Value, plugin: Seq<char>) -> bool {
    &&& json_is_object(v)
    &&& payload(v).dom() =~= set!["janus"@, "plugin"@]
    &&& json_text(payload(v)["janus"@]) == Some("attach"@)
    &&& json_text(payload(v)["plugin"@]) == Some(plugin)
}

/// The text that stands for a kind of session description.
pub open spec fn jsep_type_text(jsep_type: JsepType) -> Seq<char> {
    match jsep_type {
        JsepType::Offer => "offer"@,
        JsepType::Answer => "answer"@,
        JsepType::Pranswer => "pranswer"@,
        JsepType::Rollback => "rollback"@,
    }
}

/// The JSON object that stands for a session description: `type` and
/// `sdp`, and `trickle` if it is set.
pub open spec fn is_jsep(v: serde_json::Value, jsep: Jsep) -> bool {
    &&& json_is_object(v)
    &&& json_members(v).dom() =~= if jsep.trickle is Some {
        set!["type"@, "sdp"@, "trickle"@]
    } else {
        set!["type"@, "sdp"@]
    }
    &&& has_text(v, "type"@, jsep_type_text(jsep.jsep_type))
    &&& has_text(v, "sdp"@, jsep.sdp@)
    &&& jsep.trickle matches Some(b) ==> has_flag(v, "trickle"@, b)
}

/// A `message` request with the caller's `body` and nothing else.
pub open spec fn is_message_request(v: serde_json::Value, body: serde_json::Value) -> bool {
    &&& json_is_object(v)
    &&& payload(v).dom() =~= set!["janus"@, "body"@]
    &&& json_text(payload(v)["janus"@]) == Some("message"@)
    &&& payload(v)["body"@] == body
}

/// A `message` request with the caller's `body` and an establishment
/// payload: a session description under `jsep`, or an RTP description
/// under `rtp`.
pub open spec fn is_message_request_with_est(
    v: serde_json::Value,
    body: serde_json::Value,
    protocol: EstablishmentProtocol,
) -> bool {
    &&& json_is_object(v)
    &&& json_text(payload(v)["janus"@]) == Some("message"@)
    &&& payload(v)["body"@] == body
    &&& match protocol {
        EstablishmentProtocol::JSEP(jsep) => payload(v).dom() =~= set!["janus"@, "body"@, "jsep"@]
            && is_jsep(payload(v)["jsep"@], jsep),
        EstablishmentProtocol::RTP(rtp) => payload(v).dom() =~= set!["janus"@, "body"@, "rtp"@]
            && payload(v)["rtp"@] == rtp,
    }
}

/// A request that holds the command `janus` and nothing else.
pub fn plain_request(janus: &str) -> (r: serde_json::Value)
    ensures
        is_plain_request(r, janus@),
        json_members(r).dom() =~= set!["janus"@],
{
    proof {
        lemma_request_keys();
    }
    let mut request = new_object();
    set_text(&mut request, "janus", janus);
    assert(json_members(request) =~= json_members(request).remove("janus"@).insert(
        "janus"@,
        json_members(request)["janus"@],
    ));
    request
}

/// The request that opens a session.
pub fn create_request() -> (r: serde_json::Value)
    ensures
        is_plain_request(r, "create"@),
        json_members(r).dom() =~= set!["janus"@],
{
    plain_request("create")
}

/// The request that closes a session.
pub fn destroy_request() -> (r: serde_json::Value)
    ensures
        is_plain_request(r, "destroy"@),
        json_members(r).dom() =~= set!["janus"@],
{
    plain_request("destroy")
}

/// The request that keeps a session alive.
pub fn keepalive_request() -> (r: serde_json::Value)
    ensures
        is_plain_request(r, "keepalive"@),
        json_members(r).dom() =~= set!["janus"@],
{
    plain_request("keepalive")
}

/// The request that asks the server about itself.
pub fn info_request() -> (r: serde_json::Value)
    ensures
        is_plain_request(r, "info"@),
        json_members(r).dom() =~= set!["janus"@],
{
    plain_request("info")
}

/// The request that attaches a handle to `plugin`.
pub fn attach_request(plugin: &str) -> (r: serde_json::Value)
    ensures
        is_attach_request(r, plugin@),
        json_members(r).dom() =~= set!["janus"@, "plugin"@],
{
    proof {
        lemma_request_keys();
    }
    let mut request = plain_request("attach");
    set_text(&mut request, "plugin", plugin);
    proof {
        let a = json_members(request);
        assert(a.remove("plugin"@)["janus"@] == a["janus"@]);
        assert forall|k: Seq<char>| a.contains_key(k) <==> (k == "janus"@ || k == "plugin"@) by {
            if k != "plugin"@ {
                assert(a.remove("plugin"@).contains_key(k) == a.contains_key(k));
            }
        }
    }
    request
}

/// The text that stands for a kind of session description.
pub fn jsep_type_name(jsep_type: JsepType) -> (r: &'static str)
    ensures
        r@ == jsep_type_text(jsep_type),
{
    match jsep_type {
        JsepType::Offer => "offer",
        JsepType::Answer => "answer",
        JsepType::Pranswer => "pranswer",
        JsepType::Rollback => "rollback",
    }
}

/// The JSON object that stands for a session description.
pub fn jsep_value(jsep: &Jsep) -> (r: serde_json::Value)
    ensures
        is_jsep(r, *jsep),
{
    proof {
        lemma_jsep_keys();
    }
    let mut object = new_object();
    set_text(&mut object, "type", jsep_type_name(jsep.jsep_type));
    let ghost first = object;
    set_text(&mut object, "sdp", jsep.sdp.as_str());
    let ghost second = object;
    proof {
        let a = json_members(first);
        let b = json_members(second);
        assert forall|k: Seq<char>| a.contains_key(k) <==> k == "type"@ by {
            if k != "type"@ {
                assert(a.remove("type"@).contains_key(k) == a.contains_key(k));
            }
        }
        assert forall|k: Seq<char>| b.contains_key(k) <==> (k == "type"@ || k == "sdp"@) by {
            if k != "sdp"@ {
                assert(b.remove("sdp"@).contains_key(k) == b.contains_key(k));
            }
        }
    }
    match jsep.trickle {
        Some(trickle) => {
            set_flag(&mut object, "trickle", trickle);
            proof {
                let c = json_members(object);
                assert forall|k: Seq<char>|
                    c.contains_key(k) <==> (k == "type"@ || k == "sdp"@ || k == "trickle"@) by {
                    if k != "trickle"@ {
                        assert(c.remove("trickle"@).contains_key(k) == c.contains_key(k));
                    }
                }
            }
        },
        None => {},
    }
    object
}

/// The request that carries `body` to a plugin.
pub fn message_request(body: serde_json::Value) -> (r: serde_json::Value)
    ensures
        is_message_request(r, body),
        json_members(r).dom() =~= set!["janus"@, "body"@],
{
    proof {
        lemma_request_keys();
    }
    let mut request = plain_request("message");
    set_value(&mut request, "body", body);
    proof {
        let a = json_members(request);
        assert(a.remove("body"@)["janus"@] == a["janus"@]);
        assert forall|k: Seq<char>| a.contains_key(k) <==> (k == "janus"@ || k == "body"@) by {
            if k != "body"@ {
                assert(a.remove("body"@).contains_key(k) == a.contains_key(k));
            }
        }
    }
    request
}

/// The request that carries `body` and an establishment payload to a
/// plugin.
pub fn message_request_with_est(body: serde_json::Value, protocol: EstablishmentProtocol) -> (r:
    serde_json::Value)
    ensures
        is_message_request_with_est(r, body, protocol),
        !json_members(r).contains_key("transaction"@),
        !json_members(r).contains_key("apisecret"@),
        addressed(r, None, None),
{
    proof {
        lemma_request_keys();
    }
    let mut request = message_request(body);
    match protocol {
        EstablishmentProtocol::JSEP(jsep) => {
            let value = jsep_value(&jsep);
            set_value(&mut request, "jsep", value);
            proof {
                let a = json_members(request);
                assert(a.remove("jsep"@)["janus"@] == a["janus"@]);
                assert(a.remove("jsep"@)["body"@] == a["body"@]);
                assert forall|k: Seq<char>|
                    a.contains_key(k) <==> (k == "janus"@ || k == "body"@ || k == "jsep"@) by {
                    if k != "jsep"@ {
                        assert(a.remove("jsep"@).contains_key(k) == a.contains_key(k));
                    }
                }
            }
        },
        EstablishmentProtocol::RTP(rtp) => {
            set_value(&mut request, "rtp", rtp);
            proof {
                let a = json_members(request);
                assert(a.remove("rtp"@)["janus"@] == a["janus"@]);
                assert(a.remove("rtp"@)["body"@] == a["body"@]);
                assert forall|k: Seq<char>|
                    a.contains_key(k) <==> (k == "janus"@ || k == "body"@ || k == "rtp"@) by {
                    if k != "rtp"@ {
                        assert(a.remove("rtp"@).contains_key(k) == a.contains_key(k));
                    }
                }
            }
        },
    }
    request
}

/// Addresses a request that names no session and no handle yet: the session
/// goes under `session_id` and the handle under `handle_id`, where there is
/// one. Everything else stays.
pub(crate) fn address(request: serde_json::Value, session_id: Option<u64>, handle_id: Option<u64>) -> (r:
    serde_json::Value)
    requires
        json_is_object(request),
        addressed(request, None, None),
    ensures
        json_is_object(r),
        addressed(r, session_id, handle_id),
        payload(r) == payload(request),
        json_members(r).contains_key("transaction"@) == json_members(request).contains_key(
            "transaction"@,
        ),
        json_members(r).contains_key("apisecret"@) == json_members(request).contains_key(
            "apisecret"@,
        ),
{
    proof {
        lemma_request_keys();
    }
    let mut request = request;
    match session_id {
        Some(id) => {
            set_unsigned(&mut request, "session_id", id);
        },
        None => {},
    }
    let ghost middle = request;
    proof {
        let m = json_members(middle);
        if session_id is Some {
            assert(forall|k: Seq<char>|
                k != "session_id"@ ==> (m.remove("session_id"@).contains_key(k)
                    == #[trigger] m.contains_key(k)));
            assert(forall|k: Seq<char>|
                k != "session_id"@ && m.contains_key(k) ==> m.remove("session_id"@)[k]
                    == #[trigger] m[k]);
        }
    }
    match handle_id {
        Some(id) => {
            set_unsigned(&mut request, "handle_id", id);
        },
        None => {},
    }
    proof {
        let a = json_members(request);
        if handle_id is Some {
            assert(forall|k: Seq<char>|
                k != "handle_id"@ ==> (a.remove("handle_id"@).contains_key(k)
                    == #[trigger] a.contains_key(k)));
            assert(forall|k: Seq<char>|
                k != "handle_id"@ && a.contains_key(k) ==> a.remove("handle_id"@)[k]
                    == #[trigger] a[k]);
        }
    }
    request
}

/// A stamped request holds, apart from its stamp, what it held before: the
/// same payload and the same address. And it carries the stamp.
pub proof fn lemma_stamped_payload(
    before: serde_json::Value,
    apisecret: Option<Seq<char>>,
    transaction: Seq<char>,
    after: serde_json::Value,
    session_id: Option<u64>,
    handle_id: Option<u64>,
)
    requires
        json_is_object(before),
        stamped(before, apisecret, transaction, after),
    ensures
        json_is_object(after),
        payload(after) == payload(before),
        addressed(after, session_id, handle_id) == addressed(before, session_id, handle_id),
        !json_members(before).contains_key("apisecret"@) ==> carries_stamp(
            after,
            apisecret,
            transaction,
        ),
{
    lemma_request_keys();
    let a = json_members(after);
    let a1 = a.remove("transaction"@);
    let a2 = a1.remove("apisecret"@);
    assert(a2.contains_key("session_id"@) == a.contains_key("session_id"@));
    if a.contains_key("session_id"@) {
        assert(a2["session_id"@] == a["session_id"@]);
    }
    if a.contains_key("handle_id"@) {
        assert(a2["handle_id"@] == a["handle_id"@]);
    }
}

} // verus!
