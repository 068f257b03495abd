use vstd::prelude::*;
use crate::schema::{opt_view, RelayConfig, DEFAULT_TAGOIO_URL};
use crate::text::{decimal, json_quote, json_string_of, push_char, push_decimal, push_str};

verus! {

/// Path of the Platform's token information endpoint.
pub const INFO_PATH: &'static str = "/info";

/// Member of the information endpoint's answer that describes the token.
pub const RESULT_KEY: &'static str = "result";

/// Path and query key of the Platform's data ingestion endpoint.
pub const DATA_PATH: &'static str = "/integration/network/data?authorization_token=";

/// A failed exchange with the Platform.
#[derive(Clone, Debug)]
pub struct CustomError {
    /// HTTP status of the failure.
    pub status: u16,
    /// Body of the response, where it matters.
    pub body: String,
    pub message: String,
}

/// HTTP method of a Platform request.
#[derive(Clone, Copy, Debug, PartialEq, Eq, Structural)]
pub enum HttpMethod {
    Get,
    Post,
}

/// A request to the Platform, ready to be sent.
#[derive(Clone, Debug)]
pub struct PlatformRequest {
    pub method: HttpMethod,
    pub url: String,
    /// Value of the `Authorization` header.
    pub authorization: String,
    /// JSON body, sent as `application/json`.
    pub body: Option<String>,
}

/// A response of the Platform: its status and its body as text.
#[derive(Clone, Debug)]
pub struct HttpReply {
    pub status: u16,
    pub body: String,
}

/// MQTT delivery guarantee of a broker publish.
#[derive(Clone, Copy, Debug, PartialEq, Eq, Structural)]
pub enum Qos {
    AtMostOnce,
    AtLeastOnce,
    ExactlyOnce,
}

/// The number of a QoS level in forwarded events.
pub open spec fn qos_number(q: Qos) -> nat {
    match q {
        Qos::AtMostOnce => 0,
        Qos::AtLeastOnce => 1,
        Qos::ExactlyOnce => 2,
    }
}

impl Qos {
    pub fn number(&self) -> (n: u16)
        ensures
            n == qos_number(*self),
    {
        match self {
            Qos::AtMostOnce => 0,
            Qos::AtLeastOnce => 1,
            Qos::ExactlyOnce => 2,
        }
    }
}

/// The reason phrase that the HTTP standard gives a status code, where it
/// gives one.
pub uninterp spec fn reason_phrase_of(code: nat) -> Option<Seq<char>>;

/// What a payload's bytes read as text, each invalid UTF-8 sequence replaced
/// by U+FFFD.
pub uninterp spec fn utf8_lossy_of(bytes: Seq<u8>) -> Seq<char>;

/// What `serde_json` finds at `<outer>.<inner>` of a JSON document: `None`
/// when the text is not JSON, `Some(None)` when that member is absent or not
/// a string.
pub uninterp spec fn json_member_of(text: Seq<char>, outer: Seq<char>, inner: Seq<char>) -> Option<
    Option<Seq<char>>,
>;

/// Relies on `http::StatusCode::canonical_reason` (through `reqwest`): the
/// standard reason phrase of a status code.
#[verifier::external_body]
pub(crate) fn reason_phrase(code: u16) -> (r: Option<String>)
    requires
        100 <= code <= 999,
    ensures
        opt_view(r) == reason_phrase_of(code as nat),
{
    match reqwest::StatusCode::from_u16(code) {
        Ok(s) => s.canonical_reason().map(|p| p.to_string()),
        Err(_) => None,
    }
}

/// Relies on `String::from_utf8_lossy`: decodes bytes as UTF-8, replacing
/// invalid sequences.
#[verifier::external_body]
fn utf8_lossy(bytes: &[u8]) -> (r: String)
    ensures
        r@ == utf8_lossy_of(bytes@),
{
    String::from_utf8_lossy(bytes).into_owned()
}

/// Relies on `serde_json::from_str` into a `serde_json::Value`, its indexing
/// by object key and `Value::as_str`: the string at `<outer>.<inner>`. The
/// error holds the parser's message.
#[verifier::external_body]
fn json_member(text: &str, outer: &str, inner: &str) -> (r: Result<Option<String>, String>)
    ensures
        r is Err <==> json_member_of(text@, outer@, inner@) is None,
        r matches Ok(m) ==> json_member_of(text@, outer@, inner@) == Some(opt_view(m)),
{
    match serde_json::from_str::<serde_json::Value>(text) {
        Ok(v) => Ok(v[outer][inner].as_str().map(|s| s.to_string())),
        Err(e) => Err(e.to_string()),
    }
}

/// `"<code> <reason>"`, the way a status is shown.
pub open spec fn status_text(code: nat) -> Seq<char> {
    decimal(code) + seq![' '] + match reason_phrase_of(code) {
        Some(p) => p,
        None => "<unknown status code>"@,
    }
}

/// Statuses of the 2xx class.
pub open spec fn is_success(code: nat) -> bool {
    200 <= code <= 299
}

/// The status of a request in words.
pub fn status_line(code: u16) -> (r: String)
    requires
        100 <= code <= 999,
    ensures
        r@ == status_text(code as nat),
{
    let mut s = String::new();
    push_decimal(&mut s, code);
    push_char(&mut s, ' ');
    match reason_phrase(code) {
        Some(p) => push_str(&mut s, p.as_str()),
        None => push_str(&mut s, "<unknown status code>"),
    }
    s
}

/// The text that a failed status gives as message.
pub open spec fn failed_status_message(code: nat) -> Seq<char> {
    "Request failed with status: "@ + status_text(code)
}

impl CustomError {
    /// The error of a request that could not be sent or answered.
    pub fn transport(message: String) -> (e: CustomError)
        ensures
            e.status == 500,
            e.body@.len() == 0,
            e.message == message,
    {
        CustomError { status: 500, body: String::new(), message }
    }
}

/// The Platform's answer: its body on a 2xx status, else an error with the
/// status, the body, and the status in words.
pub fn check_response(reply: HttpReply) -> (r: Result<String, CustomError>)
    requires
        100 <= reply.status <= 999,
    ensures
        is_success(reply.status as nat) ==> r == Ok::<String, CustomError>(reply.body),
        !is_success(reply.status as nat) ==> (r matches Err(e) && e.status == reply.status && e.body
            == reply.body && e.message@ == failed_status_message(reply.status as nat)),
{
    if 200 <= reply.status && reply.status <= 299 {
        Ok(reply.body)
    } else {
        let mut message = String::from_str("Request failed with status: ");
        let line = status_line(reply.status);
        push_str(&mut message, line.as_str());
        Err(CustomError { status: reply.status, body: reply.body, message })
    }
}

/// The Platform base address of a relay.
pub open spec fn base_url(cfg: RelayConfig) -> Seq<char> {
    match cfg.config.tagoio_url {
        Some(u) => u@,
        None => DEFAULT_TAGOIO_URL@,
    }
}

/// The Platform base address of a relay.
pub fn platform_base(cfg: &RelayConfig) -> (r: String)
    ensures
        r@ == base_url(*cfg),
{
    match &cfg.config.tagoio_url {
        Some(u) => u.clone(),
        None => String::from_str(DEFAULT_TAGOIO_URL),
    }
}

/// The request that asks the Platform what `token` gives access to.
pub fn info_request(cfg: &RelayConfig, token: &str) -> (r: PlatformRequest)
    ensures
        r.method == HttpMethod::Get,
        r.url@ == base_url(*cfg) + INFO_PATH@,
        r.authorization@ == token@,
        r.body is None,
{
    let mut url = platform_base(cfg);
    push_str(&mut url, INFO_PATH);
    PlatformRequest {
        method: HttpMethod::Get,
        url,
        authorization: String::from_str(token),
        body: None,
    }
}

/// The JSON event that carries one broker publish to the Platform.
pub open spec fn forward_body_text(topic: Seq<char>, value: Seq<char>, qos: nat) -> Seq<char> {
    "[{\"variable\":\"payload\",\"value\":"@ + json_string_of(value) + ",\"metadata\":{\"topic\":"@
        + json_string_of(topic) + ",\"qos\":"@ + decimal(qos) + "}}]"@
}

/// The JSON event that carries one broker publish to the Platform: the
/// payload as text, with its topic and QoS number.
pub fn forward_body(topic: &str, value: &str, qos: Qos) -> (r: String)
    ensures
        r@ == forward_body_text(topic@, value@, qos_number(qos)),
{
    let mut body = String::from_str("[{\"variable\":\"payload\",\"value\":");
    let v = json_quote(value);
    push_str(&mut body, v.as_str());
    push_str(&mut body, ",\"metadata\":{\"topic\":");
    let t = json_quote(topic);
    push_str(&mut body, t.as_str());
    push_str(&mut body, ",\"qos\":");
    push_decimal(&mut body, qos.number());
    push_str(&mut body, "}}]");
    body
}

/// The request that forwards one broker publish to the Platform. The payload
/// is decoded as UTF-8, invalid sequences replaced, never rejected.
pub fn forward_request(cfg: &RelayConfig, topic: &str, payload: &[u8], qos: Qos) -> (r: PlatformRequest)
    ensures
        r.method == HttpMethod::Post,
        r.url@ == base_url(*cfg) + DATA_PATH@ + cfg.config.authorization_token@,
        r.authorization@ == cfg.config.network_token@,
        r.body matches Some(b) && b@ == forward_body_text(topic@, utf8_lossy_of(payload@), qos_number(qos)),
{
    let mut url = platform_base(cfg);
    push_str(&mut url, DATA_PATH);
    push_str(&mut url, cfg.config.authorization_token.as_str());
    let value = utf8_lossy(payload);
    let body = forward_body(topic, value.as_str(), qos);
    PlatformRequest {
        method: HttpMethod::Post,
        url,
        authorization: cfg.config.network_token.clone(),
        body: Some(body),
    }
}

/// Prefix of the message of an answer that is not JSON.
pub const PARSE_FAILURE: &'static str = "Failed to parse response JSON: ";

/// `e` has this status, body and message.
pub open spec fn error_is(e: CustomError, status: u16, body: Seq<char>, message: Seq<char>) -> bool {
    e.status == status && e.body@ == body && e.message@ == message
}

/// `e` reports a body that is not JSON.
pub open spec fn is_parse_failure(e: CustomError, body: Seq<char>) -> bool {
    &&& e.status == 500
    &&& e.body@ == body
    &&& PARSE_FAILURE@.len() <= e.message@.len()
    &&& e.message@.subrange(0, PARSE_FAILURE@.len() as int) == PARSE_FAILURE@
}

/// Reading the network identifier out of a successful, non-empty answer of
/// the information endpoint, given what the JSON parser found at
/// `result.id`.
pub open spec fn network_id_read(body: Seq<char>, member: Option<Option<Seq<char>>>, r: Result<String, CustomError>) -> bool {
    match member {
        None => r matches Err(e) && is_parse_failure(e, body),
        Some(None) => r matches Err(e) && error_is(e, 500, body, "Response JSON missing 'id' field"@),
        Some(Some(id)) => r matches Ok(s) && s@ == id,
    }
}

fn parse_failure(body: String, detail: String) -> (e: CustomError)
    ensures
        e.status == 500,
        e.body == body,
        e.message@ == PARSE_FAILURE@ + detail@,
{
    let mut message = String::from_str(PARSE_FAILURE);
    push_str(&mut message, detail.as_str());
    CustomError { status: 500, body, message }
}

/// The network identifier in an answer of the information endpoint, given
/// what the JSON parser found at `result.id` (`Err` with its message when the
/// body is not JSON).
pub fn read_network_id(body: String, member: Result<Option<String>, String>) -> (r: Result<String, CustomError>)
    ensures
        member matches Err(d) ==> (r matches Err(e) && error_is(e, 500, body@, PARSE_FAILURE@ + d@)),
        member matches Ok(m) ==> network_id_read(body@, Some(opt_view(m)), r),
{
    match member {
        Err(detail) => Err(parse_failure(body, detail)),
        Ok(None) => Err(
            CustomError { status: 500, body, message: String::from_str("Response JSON missing 'id' field") },
        ),
        Ok(Some(id)) => Ok(id),
    }
}

/// The network that a network token belongs to, from the Platform's answer
/// to `info_request` with that token: fails with the answer's status when it
/// is not 2xx, with 401 when its body is empty, and with 500 when the body is
/// not JSON or holds no `result.id` string.
pub fn verify_network_token(reply: Result<HttpReply, CustomError>) -> (r: Result<String, CustomError>)
    requires
        reply matches Ok(h) ==> 100 <= h.status <= 999,
    ensures
        reply matches Err(e) ==> r == Err::<String, CustomError>(e),
        reply matches Ok(h) ==> {
            if !is_success(h.status as nat) {
                r matches Err(e) && error_is(e, h.status, h.body@, failed_status_message(h.status as nat))
            } else if h.body@.len() == 0 {
                r matches Err(e) && error_is(e, 401, Seq::empty(), "Invalid Network Token"@)
            } else {
                network_id_read(h.body@, json_member_of(h.body@, RESULT_KEY@, "id"@), r)
            }
        },
{
    let h = match reply {
        Err(e) => {
            return Err(e);
        },
        Ok(h) => h,
    };
    let body = match check_response(h) {
        Err(e) => {
            return Err(e);
        },
        Ok(b) => b,
    };
    if body.as_str().is_empty() {
        return Err(
            CustomError { status: 401, body: String::new(), message: String::from_str("Invalid Network Token") },
        );
    }
    let member = json_member(body.as_str(), RESULT_KEY, "id");
    let r = read_network_id(body, member);
    proof {
        if r is Err && member is Err {
            assert(r->Err_0.message@.subrange(0, PARSE_FAILURE@.len() as int) =~= PARSE_FAILURE@);
        }
    }
    r
}

/// Whether an answer of the information endpoint to a device token names the
/// relay's network, given what the JSON parser found at `result.network`.
pub open spec fn device_network_read(
    network_id: Option<String>,
    body: Seq<char>,
    member: Option<Option<Seq<char>>>,
    r: Result<(), CustomError>,
) -> bool {
    match member {
        None => r matches Err(e) && is_parse_failure(e, body),
        Some(None) => r matches Err(e) && error_is(e, 500, body, "Response JSON missing 'network' field"@),
        Some(Some(n)) => if opt_view(network_id) == Some(n) {
            r is Ok
        } else {
            r matches Err(e) && error_is(e, 401, Seq::empty(), "Invalid Device Token"@)
        },
    }
}

/// Whether the network found at `result.network` of an answer is the relay's
/// own (`Err` with the parser's message when the body is not JSON).
pub fn read_device_network(network_id: &Option<String>, body: String, member: Result<Option<String>, String>) -> (r: Result<(), CustomError>)
    ensures
        member matches Err(d) ==> (r matches Err(e) && error_is(e, 500, body@, PARSE_FAILURE@ + d@)),
        member matches Ok(m) ==> device_network_read(*network_id, body@, Some(opt_view(m)), r),
{
    match member {
        Err(detail) => Err(parse_failure(body, detail)),
        Ok(None) => Err(
            CustomError { status: 500, body, message: String::from_str("Response JSON missing 'network' field") },
        ),
        Ok(Some(n)) => {
            let same = match network_id {
                Some(own) => own.eq(&n),
                None => false,
            };
            if same {
                Ok(())
            } else {
                Err(CustomError { status: 401, body: String::new(), message: String::from_str("Invalid Device Token") })
            }
        },
    }
}

/// Whether a device token belongs to the relay's network, from the Platform's
/// answer to `info_request` with that token: it does only on a 2xx answer
/// whose `result.network` is the relay's verified network.
pub fn verify_device_token(relay_cfg: &RelayConfig, reply: Result<HttpReply, CustomError>) -> (r: Result<(), CustomError>)
    requires
        reply matches Ok(h) ==> 100 <= h.status <= 999,
    ensures
        reply matches Err(e) ==> r == Err::<(), CustomError>(e),
        reply matches Ok(h) ==> {
            if !is_success(h.status as nat) {
                r matches Err(e) && error_is(e, h.status, h.body@, failed_status_message(h.status as nat))
            } else if h.body@.len() == 0 {
                r matches Err(e) && error_is(e, 401, Seq::empty(), "Invalid Device Token"@)
            } else {
                device_network_read(
                    relay_cfg.network_id,
                    h.body@,
                    json_member_of(h.body@, RESULT_KEY@, "network"@),
                    r,
                )
            }
        },
{
    let h = match reply {
        Err(e) => {
            return Err(e);
        },
        Ok(h) => h,
    };
    let body = match check_response(h) {
        Err(e) => {
            return Err(e);
        },
        Ok(b) => b,
    };
    if body.as_str().is_empty() {
        return Err(
            CustomError { status: 401, body: String::new(), message: String::from_str("Invalid Device Token") },
        );
    }
    let member = json_member(body.as_str(), RESULT_KEY, "network");
    let r = read_device_network(&relay_cfg.network_id, body, member);
    proof {
        if r is Err && member is Err {
            assert(r->Err_0.message@.subrange(0, PARSE_FAILURE@.len() as int) =~= PARSE_FAILURE@);
        }
    }
    r
}

/// The outcome of forwarding one publish, from the Platform's answer to
/// `forward_request`: success on a 2xx answer, else the failure.
pub fn forward_buffer_messages(reply: Result<HttpReply, CustomError>) -> (r: Result<(), CustomError>)
    requires
        reply matches Ok(h) ==> 100 <= h.status <= 999,
    ensures
        reply matches Err(e) ==> r == Err::<(), CustomError>(e),
        reply matches Ok(h) ==> (is_success(h.status as nat) <==> r is Ok),
        reply matches Ok(h) ==> (!is_success(h.status as nat) ==> (r matches Err(e) && error_is(
            e,
            h.status,
            h.body@,
            failed_status_message(h.status as nat),
        ))),
{
    match reply {
        Err(e) => Err(e),
        Ok(h) => match check_response(h) {
            Ok(_) => Ok(()),
            Err(e) => Err(e),
        },
    }
}

impl RelayConfig {
    /// Records the network that startup verification found for the relay's
    /// network token; a failed verification leaves the relay unchanged.
    pub fn verify(&mut self, verified: Result<String, CustomError>) -> (r: Result<(), CustomError>)
        ensures
            verified matches Ok(id) ==> r is Ok && *final(self) == (RelayConfig { network_id: Some(id), ..*old(self) }),
            verified matches Err(e) ==> r == Err::<(), CustomError>(e) && *final(self) == *old(self),
    {
        match verified {
            Ok(id) => {
                self.network_id = Some(id);
                Ok(())
            },
            Err(e) => Err(e),
        }
    }
}

/// Startup verification of every relay, given the outcome of
/// `verify_network_token` for each, in order: every relay gets its network
/// recorded when all outcomes succeeded; otherwise the first failure is
/// returned, and the relay must not start.
pub fn verify_relays(relays: Vec<RelayConfig>, outcomes: Vec<Result<String, CustomError>>) -> (r: Result<Vec<RelayConfig>, CustomError>)
    requires
        outcomes@.len() == relays@.len(),
    ensures
        r is Ok <==> forall|k: int| 0 <= k < outcomes@.len() ==> #[trigger] outcomes@[k] is Ok,
        r matches Ok(v) ==> v@.len() == relays@.len() && forall|k: int|
            0 <= k < v@.len() ==> (outcomes@[k] matches Ok(id) && #[trigger] v@[k] == (RelayConfig {
                network_id: Some(id),
                ..relays@[k]
            })),
        r matches Err(e) ==> exists|k: int|
            0 <= k < outcomes@.len() && #[trigger] outcomes@[k] == Err::<String, CustomError>(e)
                && forall|j: int| 0 <= j < k ==> #[trigger] outcomes@[j] is Ok,
{
    let ghost all_r = relays@;
    let ghost all_o = outcomes@;
    let mut pending_r = relays;
    let mut pending_o = outcomes;
    let mut done: Vec<RelayConfig> = Vec::new();
    while pending_o.len() > 0
        invariant
            pending_o@.len() == pending_r@.len(),
            done@.len() + pending_o@.len() == all_o.len(),
            all_r.len() == all_o.len(),
            all_o == outcomes@,
            all_r == relays@,
            pending_o@ == all_o.subrange(done@.len() as int, all_o.len() as int),
            pending_r@ == all_r.subrange(done@.len() as int, all_r.len() as int),
            forall|k: int| 0 <= k < done@.len() ==> #[trigger] all_o[k] is Ok,
            forall|k: int|
                0 <= k < done@.len() ==> (all_o[k] matches Ok(id) && #[trigger] done@[k] == (RelayConfig {
                    network_id: Some(id),
                    ..all_r[k]
                })),
        decreases pending_o@.len(),
    {
        let ghost n = done@.len();
        let outcome = pending_o.remove(0);
        let mut relay = pending_r.remove(0);
        assert(outcome == all_o[n as int]);
        assert(relay == all_r[n as int]);
        match outcome {
            Ok(id) => {
                relay.network_id = Some(id);
                done.push(relay);
                assert(pending_o@ =~= all_o.subrange(done@.len() as int, all_o.len() as int));
                assert(pending_r@ =~= all_r.subrange(done@.len() as int, all_r.len() as int));
            },
            Err(e) => {
                assert(all_o[n as int] == Err::<String, CustomError>(e));
                assert(forall|j: int| 0 <= j < n ==> #[trigger] all_o[j] is Ok);
                assert(!(all_o[n as int] is Ok));
                return Err(e);
            },
        }
    }
    Ok(done)
}

} // verus!
