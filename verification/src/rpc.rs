//! The protocol side of the Unitree request/response RPC services that ride on
//! top of DDS — in particular the **`motion_switcher`** service used to turn the
//! onboard high-level motion controller (`sport_mode`) on and off.
//!
//! # Wire protocol
//! A request is published on `rt/api/<service>/request` (type `Request_`); the
//! service replies on `rt/api/<service>/response` (type `Response_`) echoing the
//! request's `identity.id`. The `parameter` / `data` fields carry JSON. The
//! `motion_switcher` service needs no lease.
//!
//! The DDS calls (creating the entities, writing requests, taking responses,
//! waiting) are made by the caller; this module decides each step of creating
//! a client's entities and cleaning up after a failure, what to send, which
//! response answers a request, what a reply means, and when a call or the
//! release loop is over.

use vstd::prelude::*;
use core::time::Duration;
use std::time::SystemTime;
use crate::dds::contains_nul;
use crate::qos::{Durability, History, ReaderQos, Reliability, WriterQos};
use crate::unitree_api::{Request, RequestHeader, RequestIdentity, RequestLease, RequestPolicy, Response};

verus! {

// ---------------------------------------------------------------------------
// motion_switcher service API (see unitree_sdk2 motion_switcher_api.hpp).
// ---------------------------------------------------------------------------

/// `motion_switcher` service name (channel = `rt/api/<name>/{request,response}`).
pub const MOTION_SWITCHER_SERVICE: &'static str = "motion_switcher";

/// `CheckMode` — query the currently selected mode (`{form, name}`).
pub const API_ID_CHECK_MODE: i64 = 1001;

/// `SelectMode` — select a mode by name/alias (parameter `{"name": "..."}`).
pub const API_ID_SELECT_MODE: i64 = 1002;

/// `ReleaseMode` — release the active mode (deactivate sport_mode).
pub const API_ID_RELEASE_MODE: i64 = 1003;

// ---------------------------------------------------------------------------
// Errors and replies
// ---------------------------------------------------------------------------

/// Errors from the RPC layer.
#[derive(Debug)]
pub enum RpcError {
    /// A Cyclone DDS C call returned a negative code.
    Native {
        /// The C function that failed.
        op: &'static str,
        /// The negative `dds_return_t`.
        code: i32,
    },
    /// No response arrived within the timeout (service not reachable, wrong
    /// interface, or `sport_mode` service not running).
    Timeout {
        /// API id of the call that timed out.
        api_id: i64,
        /// How long we waited overall.
        waited: Duration,
    },
    /// The service replied with a non-zero status code.
    Status {
        /// API id of the call.
        api_id: i64,
        /// The `ResponseStatus.code` reported by the service.
        code: i32,
    },
    /// An interior NUL prevented building a C string (topic name / parameter).
    NulString,
}

/// Map a `dds_return_t` to a result: a negative code is the failure of `op`.
pub fn check(code: i32, op: &'static str) -> (r: Result<(), RpcError>)
    ensures
        code < 0 ==> r == Err::<(), RpcError>(RpcError::Native { op, code }),
        code >= 0 ==> r is Ok,
{
    if code < 0 {
        Err(RpcError::Native { op, code })
    } else {
        Ok(())
    }
}

/// Whether `s` (a topic name or a request parameter) can be passed as a C
/// string: it cannot hold a NUL character.
pub fn check_c_string(s: &str) -> (r: Result<(), RpcError>)
    ensures
        s@.contains('\0') ==> r matches Err(RpcError::NulString),
        !s@.contains('\0') ==> r is Ok,
{
    if contains_nul(s) {
        Err(RpcError::NulString)
    } else {
        Ok(())
    }
}

/// A decoded service reply.
#[derive(Debug, Clone)]
pub struct Reply {
    /// `ResponseStatus.code` (0 = success).
    pub code: i32,
    /// The `data` JSON payload (may be empty).
    pub data: String,
}

/// One request to publish: the API id and its JSON `parameter`.
#[derive(Debug, Clone)]
pub struct RpcRequest {
    pub api_id: i64,
    pub parameter: String,
}

// ---------------------------------------------------------------------------
// Generic RPC client: channels, request ids, replies
// ---------------------------------------------------------------------------

/// The request topic of `service`: `rt/api/<service>/request`.
pub fn request_topic(service: &str) -> (t: String)
    ensures
        t@ == "rt/api/"@ + service@ + "/request"@,
{
    let mut t = String::from_str("rt/api/");
    t.append(service);
    t.append("/request");
    t
}

/// The response topic of `service`: `rt/api/<service>/response`.
pub fn response_topic(service: &str) -> (t: String)
    ensures
        t@ == "rt/api/"@ + service@ + "/response"@,
{
    let mut t = String::from_str("rt/api/");
    t.append(service);
    t.append("/response");
    t
}

/// The request topic name of a service, as [`request_topic`] builds it.
pub open spec fn request_topic_name(service: Seq<char>) -> Seq<char> {
    "rt/api/"@ + service + "/request"@
}

/// The response topic name of a service, as [`response_topic`] builds it.
pub open spec fn response_topic_name(service: Seq<char>) -> Seq<char> {
    "rt/api/"@ + service + "/response"@
}

/// QoS of a client's request writer: reliable (the service's endpoints are
/// reliable, so the writer must be too or it won't match), keep-last(8),
/// volatile.
pub fn request_writer_qos() -> (q: WriterQos)
    ensures
        q == (WriterQos {
            reliability: Reliability::Reliable,
            history: History::KeepLast(8),
            durability: Durability::Volatile,
        }),
{
    WriterQos {
        reliability: Reliability::Reliable,
        history: History::KeepLast(8),
        durability: Durability::Volatile,
    }
}

/// QoS of a client's response reader: reliable, keep-last(64), volatile.
pub fn response_reader_qos() -> (q: ReaderQos)
    ensures
        q == (ReaderQos {
            reliability: Reliability::Reliable,
            history: History::KeepLast(64),
            durability: Durability::Volatile,
        }),
{
    ReaderQos {
        reliability: Reliability::Reliable,
        history: History::KeepLast(64),
        durability: Durability::Volatile,
    }
}

/// A DDS call in the creation of an RPC client, with what it is given. The
/// process-wide interface configuration ([`crate::dds::interface_config`]) is
/// set before the first.
pub enum RpcSetupCall {
    /// `dds_create_participant` on domain 0.
    CreateParticipant,
    /// `dds_create_topic` for the `Request_` type, named `name`.
    CreateRequestTopic { participant: i32, name: String },
    /// `dds_create_topic` for the `Response_` type, named `name`.
    CreateResponseTopic { participant: i32, request_topic: i32, name: String },
    /// `dds_create_writer` on the request topic `topic`, with `qos`.
    CreateWriter { participant: i32, topic: i32, response_topic: i32, qos: WriterQos },
    /// `dds_create_reader` on the response topic `topic`, with `qos`.
    CreateReader { participant: i32, writer: i32, topic: i32, qos: ReaderQos },
}

/// What follows a DDS call in the creation of an RPC client.
pub enum RpcSetupStep {
    /// Make this call next.
    Call(RpcSetupCall),
    /// The client's entities are all created.
    Ready { participant: i32, request_writer: i32, response_reader: i32 },
    /// Creation failed with `error`; the participant, if one was created, is
    /// to be deleted (which deletes the entities made from it).
    Fail { error: RpcError, delete_participant: Option<i32> },
}

/// The C function a setup call makes.
pub open spec fn rpc_setup_op(call: RpcSetupCall) -> Seq<char> {
    match call {
        RpcSetupCall::CreateParticipant => "dds_create_participant"@,
        RpcSetupCall::CreateRequestTopic { .. } => "dds_create_topic"@,
        RpcSetupCall::CreateResponseTopic { .. } => "dds_create_topic"@,
        RpcSetupCall::CreateWriter { .. } => "dds_create_writer"@,
        RpcSetupCall::CreateReader { .. } => "dds_create_reader"@,
    }
}

/// The participant created before a setup call, if any.
pub open spec fn rpc_setup_participant(call: RpcSetupCall) -> Option<i32> {
    match call {
        RpcSetupCall::CreateParticipant => None,
        RpcSetupCall::CreateRequestTopic { participant, .. } => Some(participant),
        RpcSetupCall::CreateResponseTopic { participant, .. } => Some(participant),
        RpcSetupCall::CreateWriter { participant, .. } => Some(participant),
        RpcSetupCall::CreateReader { participant, .. } => Some(participant),
    }
}

/// How many times a call publishes its request (waiting after each) before it
/// reports a timeout; retries ride out discovery latency.
pub const CALL_ATTEMPTS: u32 = 10;

/// The attempts of one call: at most [`CALL_ATTEMPTS`] publishes of the
/// request, each followed by a wait for its response.
pub struct CallAttempts {
    api_id: i64,
    made: u32,
}

impl CallAttempts {
    #[verifier::type_invariant]
    spec fn attempts_bounded(&self) -> bool {
        self.made <= CALL_ATTEMPTS
    }

    /// The API the call is for.
    pub closed spec fn api_id(&self) -> i64 {
        self.api_id
    }

    /// Attempts started so far.
    pub closed spec fn made(&self) -> nat {
        self.made as nat
    }

    /// A call to `api_id` with no attempt made yet.
    pub fn new(api_id: i64) -> (c: Self)
        ensures
            c.api_id() == api_id,
            c.made() == 0,
    {
        CallAttempts { api_id, made: 0 }
    }

    /// Start another attempt (take a fresh request id, publish, wait) if fewer
    /// than [`CALL_ATTEMPTS`] have been made; `false` once they are used up.
    pub fn start_attempt(&mut self) -> (started: bool)
        ensures
            final(self).api_id() == old(self).api_id(),
            started == (old(self).made() < CALL_ATTEMPTS),
            started ==> final(self).made() == old(self).made() + 1,
            !started ==> final(self).made() == old(self).made(),
    {
        proof {
            use_type_invariant(&*self);
        }
        if self.made < CALL_ATTEMPTS {
            self.made = self.made + 1;
            true
        } else {
            false
        }
    }

    /// The error a call reports once every attempt went unanswered, having
    /// waited `waited` in all.
    pub fn timed_out(&self, waited: Duration) -> (e: RpcError)
        ensures
            e == (RpcError::Timeout { api_id: self.api_id(), waited }),
    {
        RpcError::Timeout { api_id: self.api_id, waited }
    }
}

/// The std wall-clock time type, carried opaquely.
#[verifier::external_type_specification]
#[verifier::external_body]
pub struct ExSystemTime(std::time::SystemTime);

/// `SystemTime::now()`.
#[verifier::external_body]
fn system_time_now() -> SystemTime {
    SystemTime::now()
}

/// `SystemTime::duration_since(UNIX_EPOCH)`: the time since the Unix epoch, or
/// `None` when the clock is before it.
#[verifier::external_body]
fn since_unix_epoch(t: SystemTime) -> Option<Duration> {
    t.duration_since(std::time::UNIX_EPOCH).ok()
}

/// `Duration::as_nanos`.
#[verifier::external_body]
fn duration_as_nanos(d: Duration) -> u128 {
    d.as_nanos()
}

/// The request-id seed for a clock reading of `nanos` nanoseconds: the low 48
/// bits of its `i64` truncation, at least 1.
pub open spec fn seed_of(nanos: i64) -> i64 {
    let m = nanos & 0x0000_FFFF_FFFF_FFFFi64;
    if m < 1 {
        1
    } else {
        m
    }
}

/// The request-id seed for a clock reading (`None`: the clock was before the
/// Unix epoch, read as 1 ns).
pub fn seed_from_nanos(nanos: Option<u128>) -> (id: i64)
    ensures
        id == seed_of(
            match nanos {
                Some(n) => n as i64,
                None => 1,
            },
        ),
        1 <= id < 0x1_0000_0000_0000,
{
    let n: i64 = match nanos {
        Some(n) => n as i64,
        None => 1,
    };
    let m = n & 0x0000_FFFF_FFFF_FFFF;
    assert(0 <= m < 0x1_0000_0000_0000) by (bit_vector)
        requires
            m == n & 0x0000_FFFF_FFFF_FFFFi64,
    ;
    if m < 1 {
        1
    } else {
        m
    }
}

/// Seed for request ids: low 48 bits of the wall-clock nanoseconds, so distinct
/// processes/clients on the shared response topic don't reuse the same ids.
pub fn seed_id() -> (id: i64)
    ensures
        1 <= id < 0x1_0000_0000_0000,
{
    let nanos = match since_unix_epoch(system_time_now()) {
        Some(d) => Some(duration_as_nanos(d)),
        None => None,
    };
    seed_from_nanos(nanos)
}

/// The request-id counter of a client bound to one service: each call takes a
/// fresh id, and only the response echoing it answers the call.
pub struct RpcClient {
    next_id: i64,
}

impl RpcClient {
    /// The id the next request will carry.
    pub closed spec fn next_id(&self) -> i64 {
        self.next_id
    }

    /// A client whose first request id is `seed` (see [`seed_id`]).
    pub fn new(seed: i64) -> (c: Self)
        ensures
            c.next_id() == seed,
    {
        RpcClient { next_id: seed }
    }

    /// One step of connecting a client to `service`: given the setup call just
    /// made and the `dds_return_t` it returned, the next call, or the created
    /// entities, or the failure. A negative code fails with that call's
    /// [`RpcError::Native`]; a topic name holding a NUL fails with
    /// [`RpcError::NulString`]; either way the participant, once created, is
    /// to be deleted. The calls, in order: the participant, the request topic
    /// `rt/api/<service>/request`, the response topic
    /// `rt/api/<service>/response`, the request writer
    /// ([`request_writer_qos`]) and the response reader
    /// ([`response_reader_qos`]).
    pub fn setup_step(service: &str, call: &RpcSetupCall, code: i32) -> (s: RpcSetupStep)
        ensures
            code < 0 ==> (s matches RpcSetupStep::Fail {
                error: RpcError::Native { op, code: c },
                delete_participant: d,
            } && op@ == rpc_setup_op(*call) && c == code && d == rpc_setup_participant(*call)),
            code >= 0 ==> match *call {
                RpcSetupCall::CreateParticipant => if request_topic_name(service@).contains('\0') {
                    s matches RpcSetupStep::Fail { error: RpcError::NulString, delete_participant: d }
                        && d == Some(code)
                } else {
                    s matches RpcSetupStep::Call(RpcSetupCall::CreateRequestTopic { participant, name })
                        && participant == code && name@ == request_topic_name(service@)
                },
                RpcSetupCall::CreateRequestTopic { participant, .. } => if response_topic_name(
                    service@,
                ).contains('\0') {
                    s matches RpcSetupStep::Fail { error: RpcError::NulString, delete_participant: d }
                        && d == Some(participant)
                } else {
                    s matches RpcSetupStep::Call(
                        RpcSetupCall::CreateResponseTopic { participant: p, request_topic, name },
                    ) && p == participant && request_topic == code && name@ == response_topic_name(
                        service@,
                    )
                },
                RpcSetupCall::CreateResponseTopic { participant, request_topic, .. } => s == RpcSetupStep::Call(
                    RpcSetupCall::CreateWriter {
                        participant,
                        topic: request_topic,
                        response_topic: code,
                        qos: WriterQos {
                            reliability: Reliability::Reliable,
                            history: History::KeepLast(8),
                            durability: Durability::Volatile,
                        },
                    },
                ),
                RpcSetupCall::CreateWriter { participant, response_topic, .. } => s == RpcSetupStep::Call(
                    RpcSetupCall::CreateReader {
                        participant,
                        writer: code,
                        topic: response_topic,
                        qos: ReaderQos {
                            reliability: Reliability::Reliable,
                            history: History::KeepLast(64),
                            durability: Durability::Volatile,
                        },
                    },
                ),
                RpcSetupCall::CreateReader { participant, writer, .. } => s == (RpcSetupStep::Ready {
                    participant,
                    request_writer: writer,
                    response_reader: code,
                }),
            },
    {
        match call {
            RpcSetupCall::CreateParticipant => {
                if code < 0 {
                    return RpcSetupStep::Fail {
                        error: RpcError::Native { op: "dds_create_participant", code },
                        delete_participant: None,
                    };
                }
                let name = request_topic(service);
                if contains_nul(name.as_str()) {
                    return RpcSetupStep::Fail { error: RpcError::NulString, delete_participant: Some(code) };
                }
                RpcSetupStep::Call(RpcSetupCall::CreateRequestTopic { participant: code, name })
            },
            RpcSetupCall::CreateRequestTopic { participant, .. } => {
                if code < 0 {
                    return RpcSetupStep::Fail {
                        error: RpcError::Native { op: "dds_create_topic", code },
                        delete_participant: Some(*participant),
                    };
                }
                let name = response_topic(service);
                if contains_nul(name.as_str()) {
                    return RpcSetupStep::Fail {
                        error: RpcError::NulString,
                        delete_participant: Some(*participant),
                    };
                }
                RpcSetupStep::Call(
                    RpcSetupCall::CreateResponseTopic { participant: *participant, request_topic: code, name },
                )
            },
            RpcSetupCall::CreateResponseTopic { participant, request_topic, .. } => {
                if code < 0 {
                    return RpcSetupStep::Fail {
                        error: RpcError::Native { op: "dds_create_topic", code },
                        delete_participant: Some(*participant),
                    };
                }
                RpcSetupStep::Call(
                    RpcSetupCall::CreateWriter {
                        participant: *participant,
                        topic: *request_topic,
                        response_topic: code,
                        qos: request_writer_qos(),
                    },
                )
            },
            RpcSetupCall::CreateWriter { participant, response_topic, .. } => {
                if code < 0 {
                    return RpcSetupStep::Fail {
                        error: RpcError::Native { op: "dds_create_writer", code },
                        delete_participant: Some(*participant),
                    };
                }
                RpcSetupStep::Call(
                    RpcSetupCall::CreateReader {
                        participant: *participant,
                        writer: code,
                        topic: *response_topic,
                        qos: response_reader_qos(),
                    },
                )
            },
            RpcSetupCall::CreateReader { participant, writer, .. } => {
                if code < 0 {
                    return RpcSetupStep::Fail {
                        error: RpcError::Native { op: "dds_create_reader", code },
                        delete_participant: Some(*participant),
                    };
                }
                RpcSetupStep::Ready { participant: *participant, request_writer: *writer, response_reader: code }
            },
        }
    }

    /// Take a fresh id for a request; the counter wraps like an atomic `fetch_add`.
    pub fn next_request_id(&mut self) -> (id: i64)
        ensures
            id == old(self).next_id(),
            final(self).next_id() == old(self).next_id().wrapping_add(1),
    {
        let id = self.next_id;
        self.next_id = self.next_id.wrapping_add(1);
        id
    }

    /// The `Request_` sample that carries `request` with identity `id`: no
    /// lease, priority 0, a reply wanted, the JSON parameter, no binary part.
    pub fn request_message(id: i64, request: &RpcRequest) -> (m: Request)
        ensures
            m.header.identity.id == id,
            m.header.identity.api_id == request.api_id,
            m.header.lease.id == 0,
            m.header.policy.priority == 0,
            !m.header.policy.noreply,
            m.parameter@ == request.parameter@,
            m.binary@.len() == 0,
    {
        Request {
            header: RequestHeader {
                identity: RequestIdentity { id, api_id: request.api_id },
                lease: RequestLease { id: 0 },
                policy: RequestPolicy { priority: 0, noreply: false },
            },
            parameter: request.parameter.clone(),
            binary: Vec::new(),
        }
    }

    /// The reply a taken response sample gives to the request `want_id`: only
    /// a sample with valid data that echoes that id answers it (others are
    /// discarded); the reply is its status code and its JSON data.
    pub fn reply_for(valid_data: bool, response: &Response, want_id: i64) -> (r: Option<Reply>)
        ensures
            valid_data && response.header.identity.id == want_id ==> (r matches Some(rep)
                && rep.code == response.header.status.code && rep.data@ == response.data@),
            !(valid_data && response.header.identity.id == want_id) ==> r is None,
    {
        if valid_data && response.header.identity.id == want_id {
            Some(Reply { code: response.header.status.code, data: response.data.clone() })
        } else {
            None
        }
    }

    /// The first half of one round of taking responses for a request, given
    /// the sample count `dds_take` returned: a negative count is its failure,
    /// zero means nothing is queued (`Ok(None)`), and `None` means a sample
    /// was taken (look at it, then return the loan: [`Self::drain_step`]).
    pub fn take_step(n: i32) -> (r: Option<Result<Option<Reply>, RpcError>>)
        ensures
            n < 0 ==> (r matches Some(Err(RpcError::Native { op, code })) && op@ == "dds_take"@
                && code == n),
            n == 0 ==> r matches Some(Ok(None)),
            n > 0 ==> r is None,
    {
        if n < 0 {
            Some(Err(RpcError::Native { op: "dds_take", code: n }))
        } else if n == 0 {
            Some(Ok(None))
        } else {
            None
        }
    }

    /// The second half of a round, given the taken sample (whether it holds
    /// valid data, and the response) and the code `dds_return_loan` returned:
    /// a failed return of the loan is the error, even when the sample answered
    /// the request; else the reply if the sample answers request `want_id`;
    /// else `None` (the sample is discarded; take the next one).
    pub fn drain_step(valid_data: bool, response: &Response, loan_rc: i32, want_id: i64) -> (r: Option<
        Result<Option<Reply>, RpcError>,
    >)
        ensures
            loan_rc < 0 ==> (r matches Some(Err(RpcError::Native { op, code })) && op@
                == "dds_return_loan"@ && code == loan_rc),
            loan_rc >= 0 && valid_data && response.header.identity.id == want_id ==> (r matches Some(
                Ok(Some(rep)),
            ) && rep.code == response.header.status.code && rep.data@ == response.data@),
            loan_rc >= 0 && !(valid_data && response.header.identity.id == want_id) ==> r is None,
    {
        let matched = Self::reply_for(valid_data, response, want_id);
        if loan_rc < 0 {
            return Some(Err(RpcError::Native { op: "dds_return_loan", code: loan_rc }));
        }
        match matched {
            Some(rep) => Some(Ok(Some(rep))),
            None => None,
        }
    }

    /// What a call returns once the response to its request has arrived: the
    /// reply, unless the service reported a non-zero status.
    pub fn reply_outcome(api_id: i64, reply: Reply) -> (r: Result<Reply, RpcError>)
        ensures
            reply.code != 0 ==> r == Err::<Reply, RpcError>(
                RpcError::Status { api_id, code: reply.code },
            ),
            reply.code == 0 ==> r == Ok::<Reply, RpcError>(reply),
    {
        if reply.code != 0 {
            return Err(RpcError::Status { api_id, code: reply.code });
        }
        Ok(reply)
    }
}

// ---------------------------------------------------------------------------
// Minimal JSON string-field extraction
// ---------------------------------------------------------------------------

/// The first index `>= i` at which `needle` occurs in `hay`.
pub open spec fn find_from(hay: Seq<char>, needle: Seq<char>, i: nat) -> Option<nat>
    decreases hay.len() + 1 - i,
{
    if i + needle.len() > hay.len() {
        None
    } else if hay.subrange(i as int, (i + needle.len()) as int) == needle {
        Some(i)
    } else {
        find_from(hay, needle, i + 1)
    }
}

/// Rust's `char::is_whitespace`: the Unicode `White_Space` property.
pub open spec fn is_unicode_whitespace(c: char) -> bool {
    ||| '\u{0009}' <= c <= '\u{000D}'
    ||| c == ' '
    ||| c == '\u{0085}'
    ||| c == '\u{00A0}'
    ||| c == '\u{1680}'
    ||| '\u{2000}' <= c <= '\u{200A}'
    ||| c == '\u{2028}'
    ||| c == '\u{2029}'
    ||| c == '\u{202F}'
    ||| c == '\u{205F}'
    ||| c == '\u{3000}'
}

/// The index of the first non-whitespace character at or after `i` (or the end).
pub open spec fn skip_whitespace(s: Seq<char>, i: nat) -> nat
    decreases s.len() - i,
{
    if i < s.len() && is_unicode_whitespace(s[i as int]) {
        skip_whitespace(s, i + 1)
    } else {
        i
    }
}

/// The body of a JSON string whose opening quote has been consumed: characters
/// up to the first unescaped `"`, with each backslash dropping itself and
/// keeping the next character verbatim. `None` if no closing quote follows.
pub open spec fn scan_quoted(s: Seq<char>, escaped: bool) -> Option<Seq<char>>
    decreases s.len(),
{
    if s.len() == 0 {
        None
    } else {
        let c = s[0];
        let rest = s.drop_first();
        if escaped {
            match scan_quoted(rest, false) {
                Some(o) => Some(seq![c] + o),
                None => None,
            }
        } else if c == '\\' {
            scan_quoted(rest, true)
        } else if c == '"' {
            Some(Seq::empty())
        } else {
            match scan_quoted(rest, false) {
                Some(o) => Some(seq![c] + o),
                None => None,
            }
        }
    }
}

/// The value of string field `key` in a flat JSON object: after the first
/// occurrence of `"key"`, past the next `:` and any whitespace, a quoted string.
pub open spec fn json_field(json: Seq<char>, key: Seq<char>) -> Option<Seq<char>> {
    let needle = seq!['"'] + key + seq!['"'];
    match find_from(json, needle, 0) {
        None => None,
        Some(i) => {
            let k = i + needle.len();
            match find_from(json.skip(k as int), seq![':'], 0) {
                None => None,
                Some(j) => {
                    let v = skip_whitespace(json, k + j + 1);
                    if v < json.len() && json[v as int] == '"' {
                        scan_quoted(json.skip((v + 1) as int), false)
                    } else {
                        None
                    }
                },
            }
        },
    }
}

/// The characters of `s`, in order.
fn chars_of(s: &str) -> (v: Vec<char>)
    ensures
        v@ == s@,
{
    let n = s.unicode_len();
    let mut v: Vec<char> = Vec::new();
    let mut i: usize = 0;
    while i < n
        invariant
            n == s@.len(),
            i <= n,
            v@ == s@.take(i as int),
        decreases n - i,
    {
        v.push(s.get_char(i));
        i += 1;
        assert(v@ =~= s@.take(i as int));
    }
    assert(s@.take(n as int) =~= s@);
    v
}

/// Whether `needle` occurs in `hay` at index `i`.
fn matches_at(hay: &Vec<char>, needle: &Vec<char>, i: usize) -> (b: bool)
    requires
        i + needle@.len() <= hay@.len(),
    ensures
        b == (hay@.subrange(i as int, (i + needle@.len()) as int) == needle@),
{
    let hl = hay.len();
    let mut k: usize = 0;
    while k < needle.len()
        invariant
            hl == hay@.len(),
            i + needle@.len() <= hay@.len(),
            k <= needle@.len(),
            forall|m: int| 0 <= m < k ==> hay@[i + m] == needle@[m],
        decreases needle@.len() - k,
    {
        if hay[i + k] != needle[k] {
            assert(hay@.subrange(i as int, (i + needle@.len()) as int)[k as int] != needle@[k as int]);
            return false;
        }
        k += 1;
    }
    assert(hay@.subrange(i as int, (i + needle@.len()) as int) =~= needle@);
    true
}

/// The first index `>= start` at which `needle` occurs in `hay`.
fn find_chars(hay: &Vec<char>, needle: &Vec<char>, start: usize) -> (r: Option<usize>)
    requires
        start <= hay@.len(),
        needle@.len() > 0,
    ensures
        r matches Some(i) ==> find_from(hay@, needle@, start as nat) == Some(i as nat),
        r is None ==> find_from(hay@, needle@, start as nat) is None,
{
    let mut i = start;
    while i <= hay.len() && needle.len() <= hay.len() - i
        invariant
            start <= i,
            needle@.len() > 0,
            find_from(hay@, needle@, start as nat) == find_from(hay@, needle@, i as nat),
        decreases hay@.len() + 1 - i,
    {
        if matches_at(hay, needle, i) {
            return Some(i);
        }
        i += 1;
    }
    None
}

/// Extract a string field's value from a flat JSON object, e.g. `"name"` from
/// `{"name":"normal","form":"0"}`. Minimal — handles the small, well-formed
/// payloads the motion_switcher service returns; returns `None` if absent.
pub fn json_string_field(json: &str, key: &str) -> (r: Option<String>)
    ensures
        r matches Some(s) ==> json_field(json@, key@) == Some(s@),
        r is None ==> json_field(json@, key@) is None,
{
    let j = chars_of(json);
    let jl = j.len();
    let mut needle: Vec<char> = Vec::new();
    needle.push('"');
    let kc = chars_of(key);
    let mut t: usize = 0;
    while t < kc.len()
        invariant
            t <= kc@.len(),
            needle@ == seq!['"'] + kc@.take(t as int),
        decreases kc@.len() - t,
    {
        needle.push(kc[t]);
        t += 1;
        assert(needle@ =~= seq!['"'] + kc@.take(t as int));
    }
    needle.push('"');
    assert(needle@ =~= seq!['"'] + key@ + seq!['"']);
    let i = match find_chars(&j, &needle, 0) {
        Some(i) => i,
        None => return None,
    };
    proof {
        lemma_find_from_ge(j@, needle@, 0);
    }
    let k = i + needle.len();
    let colon: Vec<char> = vec![':'];
    assert(colon@ =~= seq![':']);
    let c = match find_chars(&j, &colon, k) {
        Some(c) => c,
        None => {
            proof {
                lemma_find_from_shift(j@, seq![':'], k as nat, 0);
            }
            return None;
        },
    };
    proof {
        lemma_find_from_shift(j@, seq![':'], k as nat, 0);
        lemma_find_from_ge(j@, seq![':'], k as nat);
    }
    // skip whitespace after the colon
    let mut v = c + 1;
    while v < j.len() && is_whitespace_char(j[v])
        invariant
            j@ == json@,
            c + 1 <= v <= j@.len(),
            skip_whitespace(j@, (c + 1) as nat) == skip_whitespace(j@, v as nat),
        decreases j@.len() - v,
    {
        v += 1;
    }
    assert(skip_whitespace(j@, v as nat) == v as nat);
    // expect an opening quote
    if v >= j.len() || j[v] != '"' {
        return None;
    }
    let mut out = String::new();
    let mut escaped = false;
    let mut p = v + 1;
    let ghost s = j@.skip((v + 1) as int);
    while p < j.len()
        invariant
            j@ == json@,
            v + 1 <= p <= j@.len(),
            s == j@.skip((v + 1) as int),
            json_field(json@, key@) == scan_quoted(s, false),
            scan_quoted(s, false) == prefix_opt(out@, scan_quoted(j@.skip(p as int), escaped)),
        decreases j@.len() - p,
    {
        let ch = j[p];
        proof {
            assert(j@.skip(p as int).drop_first() =~= j@.skip(p + 1));
            assert(j@.skip(p as int)[0] == ch);
        }
        let ghost o = out@;
        if escaped {
            out.append(json_char(json, p));
            escaped = false;
            proof {
                lemma_prefix_opt_push(o, ch, scan_quoted(j@.skip(p + 1), false));
            }
        } else if ch == '\\' {
            escaped = true;
        } else if ch == '"' {
            proof {
                assert(scan_quoted(j@.skip(p as int), false) == Some(Seq::<char>::empty()));
                assert(out@ + Seq::<char>::empty() =~= out@);
            }
            return Some(out);
        } else {
            out.append(json_char(json, p));
            proof {
                lemma_prefix_opt_push(o, ch, scan_quoted(j@.skip(p + 1), false));
            }
        }
        p += 1;
    }
    proof {
        assert(j@.skip(p as int).len() == 0);
    }
    None
}

/// `o` prepended to the success value of `r`.
pub open spec fn prefix_opt(o: Seq<char>, r: Option<Seq<char>>) -> Option<Seq<char>> {
    match r {
        Some(x) => Some(o + x),
        None => None,
    }
}

proof fn lemma_prefix_opt_push(o: Seq<char>, c: char, r: Option<Seq<char>>)
    ensures
        prefix_opt(o.push(c), r) == prefix_opt(
            o,
            match r {
                Some(x) => Some(seq![c] + x),
                None => None,
            },
        ),
{
    if let Some(x) = r {
        assert(o.push(c) + x =~= o + (seq![c] + x));
    }
}

/// Searching a suffix is searching the whole from the suffix's start, shifted.
proof fn lemma_find_from_shift(hay: Seq<char>, needle: Seq<char>, k: nat, i: nat)
    requires
        k <= hay.len(),
    ensures
        find_from(hay.skip(k as int), needle, i) == match find_from(hay, needle, k + i) {
            Some(x) => Some((x - k) as nat),
            None => None,
        },
    decreases hay.len() + 1 - k - i,
{
    let h = hay.skip(k as int);
    if i + needle.len() > h.len() {
    } else {
        assert(h.subrange(i as int, (i + needle.len()) as int) =~= hay.subrange(
            (k + i) as int,
            (k + i + needle.len()) as int,
        ));
        lemma_find_from_shift(hay, needle, k, i + 1);
    }
}

/// A match found from `i` is at or after `i`, and fits in `hay`.
proof fn lemma_find_from_ge(hay: Seq<char>, needle: Seq<char>, i: nat)
    ensures
        find_from(hay, needle, i) matches Some(x) ==> x >= i && x + needle.len() <= hay.len(),
    decreases hay.len() + 1 - i,
{
    if i + needle.len() <= hay.len() && hay.subrange(i as int, (i + needle.len()) as int)
        != needle {
        lemma_find_from_ge(hay, needle, i + 1);
    }
}

/// Rust's `char::is_whitespace`.
fn is_whitespace_char(c: char) -> (b: bool)
    ensures
        b == is_unicode_whitespace(c),
{
    ('\u{0009}' <= c && c <= '\u{000D}') || c == ' ' || c == '\u{0085}' || c == '\u{00A0}' || c
        == '\u{1680}' || ('\u{2000}' <= c && c <= '\u{200A}') || c == '\u{2028}' || c
        == '\u{2029}' || c == '\u{202F}' || c == '\u{205F}' || c == '\u{3000}'
}

/// The one-character substring of `s` at character index `i`.
fn json_char(s: &str, i: usize) -> (r: &str)
    requires
        i < s@.len(),
        i < usize::MAX,
    ensures
        r@ == seq![s@[i as int]],
{
    let r = s.substring_char(i, i + 1);
    assert(r@ =~= seq![s@[i as int]]);
    r
}

// ---------------------------------------------------------------------------
// motion_switcher client
// ---------------------------------------------------------------------------

/// The JSON string-literal escaping of `s`: each backslash is doubled and each
/// double quote gets a backslash before it; other characters stay.
pub open spec fn escape_json(s: Seq<char>) -> Seq<char>
    decreases s.len(),
{
    if s.len() == 0 {
        Seq::empty()
    } else {
        let c = s.last();
        escape_json(s.drop_last()) + if c == '\\' {
            seq!['\\', '\\']
        } else if c == '"' {
            seq!['\\', '"']
        } else {
            seq![c]
        }
    }
}

/// The escaping of one character.
pub open spec fn escape_char(c: char) -> Seq<char> {
    if c == '\\' {
        seq!['\\', '\\']
    } else if c == '"' {
        seq!['\\', '"']
    } else {
        seq![c]
    }
}

/// Escaping works character by character from the front too.
proof fn lemma_escape_json_front(c: char, s: Seq<char>)
    ensures
        escape_json(seq![c] + s) == escape_char(c) + escape_json(s),
    decreases s.len(),
{
    let t = seq![c] + s;
    if s.len() == 0 {
        assert(t.drop_last() =~= Seq::<char>::empty());
        assert(t.last() == c);
        assert(escape_json(Seq::<char>::empty()) =~= Seq::<char>::empty());
        assert(escape_json(t) =~= escape_char(c) + escape_json(s));
    } else {
        lemma_escape_json_front(c, s.drop_last());
        assert(t.drop_last() =~= seq![c] + s.drop_last());
        assert(t.last() == s.last());
        assert(escape_json(t) =~= escape_char(c) + escape_json(s));
    }
}

/// Reading a JSON string body back from an escaped string and its closing quote
/// gives the string, whatever follows the quote.
proof fn lemma_scan_escaped(s: Seq<char>, tail: Seq<char>)
    ensures
        scan_quoted(escape_json(s) + seq!['"'] + tail, false) == Some(s),
    decreases s.len(),
{
    if s.len() == 0 {
        let x = escape_json(s) + seq!['"'] + tail;
        assert(escape_json(s) =~= Seq::<char>::empty());
        assert(x[0] == '"');
        assert(s =~= Seq::<char>::empty());
    } else {
        let c = s[0];
        let r = s.drop_first();
        assert(s =~= seq![c] + r);
        lemma_escape_json_front(c, r);
        lemma_scan_escaped(r, tail);
        let inner = escape_json(r) + seq!['"'] + tail;
        let x = escape_json(s) + seq!['"'] + tail;
        assert(x =~= escape_char(c) + inner);
        assert(seq![c] + r =~= s);
        if c == '\\' || c == '"' {
            assert(x[0] == '\\');
            assert(x.drop_first()[0] == c);
            assert(x.drop_first().drop_first() =~= inner);
            assert(scan_quoted(x.drop_first(), true) == Some(seq![c] + r));
        } else {
            assert(x[0] == c);
            assert(x.drop_first() =~= inner);
        }
    }
}

/// The parameter of a `SelectMode` request parses back to the mode name: the
/// `"name"` field of `{"name":"<escaped name>"}` is the name, whatever
/// backslashes and quotes it holds.
pub proof fn lemma_select_mode_parameter_parses(name: Seq<char>)
    ensures
        json_field("{\"name\":\""@ + escape_json(name) + "\"}"@, "name"@) == Some(name),
{
    reveal_strlit("{\"name\":\"");
    reveal_strlit("\"}");
    reveal_strlit("name");
    let head = "{\"name\":\""@;
    let json = head + escape_json(name) + "\"}"@;
    let needle = seq!['"'] + "name"@ + seq!['"'];
    assert(json.len() >= 11);
    assert(json.subrange(0, 6)[0] == '{');
    assert(needle[0] == '"');
    assert(json.subrange(0, 6) != needle);
    assert(json.subrange(1, 7) =~= needle);
    assert(find_from(json, needle, 1) == Some(1nat));
    assert(find_from(json, needle, 0) == Some(1nat));
    assert(json.skip(7).subrange(0, 1) =~= seq![':']);
    assert(find_from(json.skip(7), seq![':'], 0) == Some(0nat));
    assert(json[8] == '"');
    assert(!is_unicode_whitespace(json[8]));
    assert(skip_whitespace(json, 8) == 8);
    lemma_scan_escaped(name, seq!['}']);
    assert(json.skip(9) =~= escape_json(name) + seq!['"'] + seq!['}']);
}

/// Escaping leaves alone every string with no backslash and no double quote.
pub proof fn lemma_escape_json_plain(s: Seq<char>)
    requires
        !s.contains('\\'),
        !s.contains('"'),
    ensures
        escape_json(s) == s,
    decreases s.len(),
{
    if s.len() > 0 {
        let init = s.drop_last();
        assert forall|i: int| 0 <= i < init.len() implies init[i] != '\\' && init[i] != '"' by {
            assert(init[i] == s[i]);
        }
        lemma_escape_json_plain(init);
        assert(s[s.len() - 1] == s.last());
        assert(s.last() != '\\' && s.last() != '"');
        assert(init.push(s.last()) =~= s);
    }
}

/// Escaping puts one backslash before each backslash and each double quote,
/// and adds nothing else: the escaped string is longer by exactly their number.
pub proof fn lemma_escape_json_len(s: Seq<char>)
    ensures
        escape_json(s).len() == s.len() + s.filter(|c: char| c == '\\' || c == '"').len(),
    decreases s.len(),
{
    reveal(Seq::filter);
    if s.len() > 0 {
        lemma_escape_json_len(s.drop_last());
    }
}

/// The `SelectMode` parameter of a name with no backslash and no double quote
/// is `{"name":"<name>"}`, the name verbatim.
pub proof fn lemma_select_mode_plain_name(name: Seq<char>)
    requires
        !name.contains('\\'),
        !name.contains('"'),
    ensures
        "{\"name\":\""@ + escape_json(name) + "\"}"@ == "{\"name\":\""@ + name + "\"}"@,
{
    lemma_escape_json_plain(name);
}

/// Escape backslashes and double quotes in `s` for a JSON string literal.
pub fn escape_json_string(s: &str) -> (r: String)
    ensures
        r@ == escape_json(s@),
{
    let cs = chars_of(s);
    let mut out = String::new();
    let mut i: usize = 0;
    proof {
        reveal_strlit("\\\\");
        reveal_strlit("\\\"");
        assert(cs@.take(0) =~= Seq::<char>::empty());
    }
    while i < cs.len()
        invariant
            cs@ == s@,
            i <= cs@.len(),
            out@ == escape_json(cs@.take(i as int)),
            "\\\\"@ == seq!['\\', '\\'],
            "\\\""@ == seq!['\\', '"'],
        decreases cs@.len() - i,
    {
        let c = cs[i];
        if c == '\\' {
            out.append("\\\\");
        } else if c == '"' {
            out.append("\\\"");
        } else {
            out.append(json_char(s, i));
        }
        proof {
            let t = cs@.take(i + 1);
            assert(t.drop_last() =~= cs@.take(i as int));
            assert(t.last() == c);
        }
        i += 1;
    }
    assert(cs@.take(i as int) =~= s@);
    out
}

/// The value of string field `key` in `json`, or the empty string if absent.
pub open spec fn json_field_or_empty(json: Seq<char>, key: Seq<char>) -> Seq<char> {
    match json_field(json, key) {
        Some(v) => v,
        None => Seq::empty(),
    }
}

/// At most this many release rounds are made before reporting.
pub const RELEASE_MAX_ITERS: u32 = 5;

/// The state of the release loop: how many rounds have run, and how many
/// modes have been released so far.
pub struct ReleaseLoop {
    iteration: u32,
    released: u32,
}

impl ReleaseLoop {
    #[verifier::type_invariant]
    spec fn rounds_bounded(&self) -> bool {
        self.released <= self.iteration <= RELEASE_MAX_ITERS
    }

    /// Rounds run so far.
    pub closed spec fn iteration(&self) -> nat {
        self.iteration as nat
    }

    /// Modes released so far.
    pub closed spec fn released(&self) -> nat {
        self.released as nat
    }

    /// A loop that has run no round.
    pub fn new() -> (l: Self)
        ensures
            l.iteration() == 0,
            l.released() == 0,
    {
        ReleaseLoop { iteration: 0, released: 0 }
    }

    /// Before a round: `None` to query the active mode (a `CheckMode` call),
    /// or, once every round has run, the number of modes released (best
    /// effort: the service may be slow to settle).
    pub fn next_round(&self) -> (r: Option<u32>)
        ensures
            self.iteration() < RELEASE_MAX_ITERS ==> r is None,
            self.iteration() >= RELEASE_MAX_ITERS ==> r == Some(self.released() as u32),
            r matches Some(n) ==> n <= RELEASE_MAX_ITERS,
    {
        proof {
            use_type_invariant(self);
        }
        if self.iteration < RELEASE_MAX_ITERS {
            None
        } else {
            Some(self.released)
        }
    }

    /// After the `CheckMode` reply of a round, with the active mode `name`: if
    /// no mode is active, the loop is over and reports how many modes it
    /// released; otherwise the active mode is to be released (a `ReleaseMode`
    /// call, then a pause) and the round counts one more release.
    pub fn on_active_mode(&mut self, name: &str) -> (r: Option<u32>)
        requires
            old(self).iteration() < RELEASE_MAX_ITERS,
        ensures
            name@.len() == 0 ==> r == Some(old(self).released() as u32) && final(self).iteration()
                == old(self).iteration() && final(self).released() == old(self).released(),
            name@.len() != 0 ==> r is None && final(self).iteration() == old(self).iteration() + 1
                && final(self).released() == old(self).released() + 1,
            r matches Some(n) ==> n <= RELEASE_MAX_ITERS,
    {
        proof {
            use_type_invariant(&*self);
        }
        if name.is_empty() {
            return Some(self.released);
        }
        self.iteration = self.iteration + 1;
        self.released = self.released + 1;
        None
    }
}

/// A client of the `motion_switcher` service: its RPC client (connected to
/// [`MOTION_SWITCHER_SERVICE`]), what each operation sends and what its reply
/// means. Turn the onboard `sport_mode` controller off (release) or back on
/// (`restore`).
pub struct MotionSwitcher {
    rpc: RpcClient,
}

impl MotionSwitcher {
    /// The RPC client the calls go through.
    pub closed spec fn client(&self) -> RpcClient {
        self.rpc
    }

    /// The motion switcher over the result of connecting an RPC client to
    /// [`MOTION_SWITCHER_SERVICE`] (see [`Self::request_topic`] and
    /// [`Self::response_topic`]): that client, or its error unchanged.
    pub fn new(rpc: Result<RpcClient, RpcError>) -> (r: Result<MotionSwitcher, RpcError>)
        ensures
            rpc matches Ok(c) ==> (r matches Ok(s) && s.client() == c),
            rpc matches Err(e) ==> (r matches Err(e2) && e2 == e),
    {
        match rpc {
            Ok(c) => Ok(MotionSwitcher { rpc: c }),
            Err(e) => Err(e),
        }
    }

    /// The RPC client, to take request ids from.
    pub fn client_mut(&mut self) -> (c: &mut RpcClient)
        ensures
            *c == old(self).client(),
            final(self).client() == *final(c),
    {
        &mut self.rpc
    }

    /// The service's request topic: `rt/api/motion_switcher/request`.
    pub fn request_topic() -> (t: String)
        ensures
            t@ == "rt/api/motion_switcher/request"@,
    {
        let t = request_topic(MOTION_SWITCHER_SERVICE);
        proof {
            reveal_strlit("motion_switcher");
            reveal_strlit("rt/api/");
            reveal_strlit("/request");
            reveal_strlit("rt/api/motion_switcher/request");
            assert(t@ =~= "rt/api/motion_switcher/request"@);
        }
        t
    }

    /// The service's response topic: `rt/api/motion_switcher/response`.
    pub fn response_topic() -> (t: String)
        ensures
            t@ == "rt/api/motion_switcher/response"@,
    {
        let t = response_topic(MOTION_SWITCHER_SERVICE);
        proof {
            reveal_strlit("motion_switcher");
            reveal_strlit("rt/api/");
            reveal_strlit("/response");
            reveal_strlit("rt/api/motion_switcher/response");
            assert(t@ =~= "rt/api/motion_switcher/response"@);
        }
        t
    }

    /// The `CheckMode` request: no parameter.
    pub fn check_mode_request(&self) -> (r: RpcRequest)
        ensures
            r.api_id == API_ID_CHECK_MODE,
            r.parameter@ == Seq::<char>::empty(),
    {
        RpcRequest { api_id: API_ID_CHECK_MODE, parameter: String::new() }
    }

    /// The active mode as `(form, name)`, read from the `CheckMode` reply. An
    /// empty `name` means no mode is active (`sport_mode` is already released).
    pub fn check_mode(&self, reply: &Reply) -> (r: (String, String))
        ensures
            r.0@ == json_field_or_empty(reply.data@, "form"@),
            r.1@ == json_field_or_empty(reply.data@, "name"@),
    {
        let name = match json_string_field(reply.data.as_str(), "name") {
            Some(v) => v,
            None => String::new(),
        };
        let form = match json_string_field(reply.data.as_str(), "form") {
            Some(v) => v,
            None => String::new(),
        };
        (form, name)
    }

    /// The `SelectMode` request for mode `name` (e.g. `"normal"`): parameter
    /// `{"name":"<name>"}` with `name` escaped.
    pub fn select_mode(&self, name: &str) -> (r: RpcRequest)
        ensures
            r.api_id == API_ID_SELECT_MODE,
            r.parameter@ == "{\"name\":\""@ + escape_json(name@) + "\"}"@,
    {
        let escaped = escape_json_string(name);
        let mut p = String::from_str("{\"name\":\"");
        p.append(escaped.as_str());
        p.append("\"}");
        RpcRequest { api_id: API_ID_SELECT_MODE, parameter: p }
    }

    /// The `ReleaseMode` request, releasing the active mode once: no parameter.
    pub fn release_mode(&self) -> (r: RpcRequest)
        ensures
            r.api_id == API_ID_RELEASE_MODE,
            r.parameter@ == Seq::<char>::empty(),
    {
        RpcRequest { api_id: API_ID_RELEASE_MODE, parameter: String::new() }
    }

    /// The request that hands control back to the onboard controller:
    /// selecting `"normal"`.
    pub fn restore(&self) -> (r: RpcRequest)
        ensures
            r.api_id == API_ID_SELECT_MODE,
            r.parameter@ == "{\"name\":\""@ + escape_json("normal"@) + "\"}"@,
    {
        self.select_mode("normal")
    }
}

} // verus!
