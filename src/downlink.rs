use vstd::prelude::*;
use crate::platform::{reason_phrase, reason_phrase_of, CustomError};
use crate::schema::PublishRequest;
use crate::supervisor::SessionTable;
use crate::text::{json_quote, json_string_of, push_str};

verus! {

/// A message that the downlink API hands to a session for its broker.
#[derive(Clone, Debug)]
pub struct PublishMessage {
    pub topic: String,
    pub message: String,
    pub qos: u8,
    pub retain: bool,
}

/// Status and JSON body of an HTTP answer of the downlink API.
#[derive(Clone, Debug)]
pub struct ApiReply {
    pub status: u16,
    pub body: String,
}

/// Why the body of a publish request could not be read.
#[derive(Clone, Copy, Debug, PartialEq, Eq, Structural)]
pub enum Rejection {
    /// The JSON is well formed but does not fit a publish request.
    Data,
    /// The body is not JSON.
    Syntax,
    /// The request is not declared `application/json`.
    MissingContentType,
    /// Any other reason.
    Other,
}

/// A mosquitto authentication or superuser request.
#[derive(Clone, Debug)]
pub struct AuthRequest {
    pub username: String,
    pub password: String,
}

/// A mosquitto access check.
#[derive(Clone, Debug)]
pub struct AclRequest {
    pub username: String,
    pub topic: String,
    pub clientid: String,
    /// 1 for read, 2 for write.
    pub acc: i32,
}

/// The answer to a mosquitto hook: an HTTP status and `{"ok": <ok>}`.
#[derive(Clone, Copy, Debug, PartialEq, Eq, Structural)]
pub struct AuthReply {
    pub status: u16,
    pub ok: bool,
}

/// `{"<key>":<value as JSON string>}`.
pub open spec fn json_object_text(key: Seq<char>, value: Seq<char>) -> Seq<char> {
    seq!['{'] + key + seq![':'] + json_string_of(value) + seq!['}']
}

/// Body of a failed downlink request: `{"error":"<message>"}`.
pub open spec fn error_body(message: Seq<char>) -> Seq<char> {
    json_object_text("\"error\""@, message)
}

fn json_object(key: &str, value: &str) -> (r: String)
    ensures
        r@ == json_object_text(key@, value@),
{
    let mut s = String::from_str("{");
    push_str(&mut s, key);
    push_str(&mut s, ":");
    let v = json_quote(value);
    push_str(&mut s, v.as_str());
    push_str(&mut s, "}");
    proof {
        reveal_strlit("{");
        reveal_strlit(":");
        reveal_strlit("}");
    }
    assert(s@ =~= json_object_text(key@, value@));
    s
}

/// An error answer: the status, with its reason phrase as message.
pub fn status_error(status: u16) -> (r: ApiReply)
    requires
        100 <= status <= 999,
    ensures
        r.status == status,
        r.body@ == error_body(
            match reason_phrase_of(status as nat) {
                Some(p) => p,
                None => "Unknown error"@,
            },
        ),
{
    let reason = match reason_phrase(status) {
        Some(p) => p,
        None => String::from_str("Unknown error"),
    };
    ApiReply { status, body: json_object("\"error\"", reason.as_str()) }
}

/// The message that tells why a publish request could not be read.
pub open spec fn rejection_message(kind: Rejection, detail: Seq<char>) -> Seq<char> {
    match kind {
        Rejection::Data => "Invalid JSON data: "@ + detail,
        Rejection::Syntax => "Syntax error in JSON"@,
        Rejection::MissingContentType => "Missing `Content-Type: application/json` header"@,
        Rejection::Other => "Unknown error"@,
    }
}

/// The status for a publish request that could not be read.
pub open spec fn rejection_status(kind: Rejection) -> u16 {
    match kind {
        Rejection::Data => 422,
        Rejection::Syntax => 400,
        Rejection::MissingContentType => 400,
        Rejection::Other => 500,
    }
}

/// The answer to a publish request whose body could not be read; `detail`
/// tells what did not fit, for `Rejection::Data`.
pub fn rejection_reply(kind: Rejection, detail: &str) -> (r: ApiReply)
    ensures
        r.status == rejection_status(kind),
        r.body@ == error_body(rejection_message(kind, detail@)),
{
    let message = match kind {
        Rejection::Data => {
            let mut m = String::from_str("Invalid JSON data: ");
            push_str(&mut m, detail);
            m
        },
        Rejection::Syntax => String::from_str("Syntax error in JSON"),
        Rejection::MissingContentType => String::from_str("Missing `Content-Type: application/json` header"),
        Rejection::Other => String::from_str("Unknown error"),
    };
    let status: u16 = match kind {
        Rejection::Data => 422,
        Rejection::Syntax => 400,
        Rejection::MissingContentType => 400,
        Rejection::Other => 500,
    };
    ApiReply { status, body: json_object("\"error\"", message.as_str()) }
}

/// `m` carries the request's topic, message, QoS and retain flag.
pub open spec fn carries(m: PublishMessage, req: PublishRequest) -> bool {
    m.topic@ == req.topic@ && m.message@ == req.message@ && m.qos == req.qos && m.retain == req.retain
}

/// Routes a publish request: the position of the one session whose bus
/// takes its message, and that message; or the 404 answer when the named relay has
/// no session, or when no relay is named and there is no session at all.
pub fn handle_publish<H>(tasks: &SessionTable<H>, req: PublishRequest) -> (r: Result<(usize, PublishMessage), ApiReply>)
    requires
        tasks.wf(),
    ensures
        r matches Ok((i, m)) ==> i < tasks@.len() && carries(m, req),
        match req.relay_id {
            None => {
                &&& r is Ok <==> tasks@.len() > 0
                &&& r matches Ok((i, m)) ==> i == 0
            },
            Some(id) => {
                &&& r is Ok <==> tasks.ids().contains(id@)
                &&& r matches Ok((i, m)) ==> tasks.ids()[i as int] == id@
                &&& r matches Ok((i, m)) ==> forall|j: int|
                    0 <= j < tasks@.len() && #[trigger] tasks.ids()[j] == id@ ==> j == i
            },
        },
        r matches Err(reply) ==> reply.status == 404 && reply.body@ == error_body(
            match reason_phrase_of(404) {
                Some(p) => p,
                None => "Unknown error"@,
            },
        ),
{
    match tasks.route(&req.relay_id) {
        None => Err(status_error(404)),
        Some(i) => {
            let PublishRequest { topic, message, relay_id, qos, retain } = req;
            Ok((i, PublishMessage { topic, message, qos, retain }))
        },
    }
}

/// The answer once the message of a routed publish request was handed to
/// the session's bus (`sent`), or could not be.
pub fn publish_reply(sent: bool) -> (r: ApiReply)
    ensures
        sent ==> r.status == 200 && r.body@ == json_object_text("\"status\""@, "Message published"@),
        !sent ==> r.status == 500 && r.body@ == error_body(
            match reason_phrase_of(500) {
                Some(p) => p,
                None => "Unknown error"@,
            },
        ),
{
    if sent {
        ApiReply { status: 200, body: json_object("\"status\"", "Message published") }
    } else {
        status_error(500)
    }
}

/// The answer of the health route: `200 {"status":"ok"}`.
pub fn status_reply() -> (r: ApiReply)
    ensures
        r.status == 200,
        r.body@ == json_object_text("\"status\""@, "ok"@),
{
    ApiReply { status: 200, body: json_object("\"status\"", "ok") }
}

/// The answer to an authentication request, given the outcome of checking
/// its password as a device token against each relay: accepted as soon as
/// one relay accepts it.
pub fn handle_auth(outcomes: &Vec<Result<(), CustomError>>) -> (r: AuthReply)
    ensures
        r.ok <==> exists|k: int| 0 <= k < outcomes@.len() && outcomes@[k] is Ok,
        r.status == (if r.ok { 200u16 } else { 401u16 }),
{
    let mut i: usize = 0;
    while i < outcomes.len()
        invariant
            i <= outcomes@.len(),
            forall|k: int| 0 <= k < i ==> !(outcomes@[k] is Ok),
        decreases outcomes@.len() - i,
    {
        if outcomes[i].is_ok() {
            return AuthReply { status: 200, ok: true };
        }
        i = i + 1;
    }
    AuthReply { status: 401, ok: false }
}

/// Superuser checks are always refused.
pub fn handle_superuser(req: &AuthRequest) -> (r: AuthReply)
    ensures
        r == (AuthReply { status: 401, ok: false }),
{
    AuthReply { status: 401, ok: false }
}

/// Access checks are always allowed: topic authorization is not enforced.
pub fn handle_acl(req: &AclRequest) -> (r: AuthReply)
    ensures
        r == (AuthReply { status: 200, ok: true }),
{
    AuthReply { status: 200, ok: true }
}

impl AuthReply {
    /// The JSON body of the answer.
    pub fn body(&self) -> (r: String)
        ensures
            self.ok ==> r@ == "{\"ok\":true}"@,
            !self.ok ==> r@ == "{\"ok\":false}"@,
    {
        if self.ok {
            String::from_str("{\"ok\":true}")
        } else {
            String::from_str("{\"ok\":false}")
        }
    }
}

/// How the downlink API treats client certificates.
#[derive(Clone, Copy, Debug, PartialEq, Eq, Structural)]
pub enum ClientCertPolicy {
    /// A client certificate signed by the embedded authority is required.
    RequireSigned,
    /// Certificates are not checked; a warning must be logged.
    Unverified,
}

/// Client certificates are required unless the relay runs in unsafe mode.
pub fn client_cert_policy(unsafe_mode: bool) -> (p: ClientCertPolicy)
    ensures
        p == (if unsafe_mode { ClientCertPolicy::Unverified } else { ClientCertPolicy::RequireSigned }),
{
    if unsafe_mode {
        ClientCertPolicy::Unverified
    } else {
        ClientCertPolicy::RequireSigned
    }
}

} // verus!
