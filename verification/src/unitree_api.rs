//! `unitree_api` message types: the envelopes of the request/response RPC
//! services. Their encoding is that of the nested pair of their fields in
//! declaration order.

use vstd::prelude::*;
use crate::cdr::{CdrDeserialize, CdrDeserializer, CdrError, CdrRoundTrip, CdrSerialize, CdrSerializer};
use crate::msgs::{DdsPod, DdsType};

verus! {

// ---------------------------------------------------------------------------
// RequestIdentity
// ---------------------------------------------------------------------------

/// `unitree_api/RequestIdentity`: a request's id and the API it calls.
#[derive(Debug, Clone, Copy, PartialEq)]
pub struct RequestIdentity {
    pub id: i64,
    pub api_id: i64,
}

/// The fields of [`RequestIdentity`] as nested pairs, in wire order.
pub type RequestIdentityFields = (i64, i64);

impl RequestIdentity {
    /// The fields as nested pairs, in wire order.
    pub open spec fn fields(self) -> RequestIdentityFields {
        (self.id, self.api_id)
    }

    /// Every field is zero (strings and sequences empty).
    pub open spec fn is_zeroed(&self) -> bool {
        &&& self.id == 0
        &&& self.api_id == 0
    }
}

impl DeepView for RequestIdentity {
    type V = <RequestIdentityFields as DeepView>::V;

    open spec fn deep_view(&self) -> Self::V {
        self.fields().deep_view()
    }
}

impl Default for RequestIdentity {
    fn default() -> (v: Self)
        ensures
            v.is_zeroed(),
    {
        RequestIdentity {
            id: 0,
            api_id: 0,
        }
    }
}

impl CdrSerialize for RequestIdentity {
    open spec fn cdr_bytes(&self, offset: nat) -> Seq<u8> {
        self.fields().cdr_bytes(offset)
    }

    fn serialize(&self, s: &mut CdrSerializer) {
        let t: RequestIdentityFields = (self.id, self.api_id);
        t.serialize(s);
    }
}

impl CdrDeserialize for RequestIdentity {
    open spec fn cdr_read(body: Seq<u8>, offset: nat) -> (Result<Self::V, CdrError>, nat) {
        RequestIdentityFields::cdr_read(body, offset)
    }

    fn deserialize(d: &mut CdrDeserializer<'_>) -> (r: Result<Self, CdrError>) {
        let (id, api_id) = RequestIdentityFields::deserialize(d)?;
        Ok(RequestIdentity { id, api_id })
    }

    open spec fn cdr_nonempty() -> bool {
        RequestIdentityFields::cdr_nonempty()
    }

    fn is_cdr_nonempty() -> (b: bool) {
        RequestIdentityFields::is_cdr_nonempty()
    }

    proof fn lemma_cdr_read_extends(body: Seq<u8>, offset: nat, ext: Seq<u8>) {
        RequestIdentityFields::lemma_cdr_read_extends(body, offset, ext);
    }
}

impl CdrRoundTrip for RequestIdentity {
    open spec fn cdr_encodable(&self) -> bool {
        self.fields().cdr_encodable()
    }

    proof fn lemma_cdr_bytes_nonempty(&self, offset: nat) {
        self.fields().lemma_cdr_bytes_nonempty(offset);
    }

    proof fn lemma_cdr_roundtrip(&self, prefix: Seq<u8>, rest: Seq<u8>) {
        self.fields().lemma_cdr_roundtrip(prefix, rest);
    }
}

impl RequestIdentity {
    /// The encoding follows the `.msg` declaration order: `id`, `api_id`, each
    /// written where the one before it ends; and a read value lists the fields
    /// in that order.
    pub proof fn lemma_declaration_order(&self, offset: nat)
        ensures
            self.cdr_bytes(offset) == {
                let b0 = self.id.cdr_bytes(offset);
                let b1 = self.api_id.cdr_bytes(offset + b0.len());
                b0 + b1
            },
            self.deep_view() == (self.id.deep_view(), self.api_id.deep_view()),
    {
    }
}

impl DdsType for RequestIdentity {
    const TYPE_NAME: &'static str = "unitree_api::msg::dds_::RequestIdentity_";
    const IS_KEYLESS: bool = true;
}

impl DdsPod for RequestIdentity {
    const DESCRIPTOR_SYMBOL: &'static str = "unitree_api_msg_dds__RequestIdentity__desc";
}

// ---------------------------------------------------------------------------
// RequestLease
// ---------------------------------------------------------------------------

/// `unitree_api/RequestLease`: the lease a request holds (0: none).
#[derive(Debug, Clone, Copy, PartialEq)]
pub struct RequestLease {
    pub id: i64,
}

/// The fields of [`RequestLease`] as nested pairs, in wire order.
pub type RequestLeaseFields = i64;

impl RequestLease {
    /// The fields as nested pairs, in wire order.
    pub open spec fn fields(self) -> RequestLeaseFields {
        self.id
    }

    /// Every field is zero (strings and sequences empty).
    pub open spec fn is_zeroed(&self) -> bool {
        &&& self.id == 0
    }
}

impl DeepView for RequestLease {
    type V = <RequestLeaseFields as DeepView>::V;

    open spec fn deep_view(&self) -> Self::V {
        self.fields().deep_view()
    }
}

impl Default for RequestLease {
    fn default() -> (v: Self)
        ensures
            v.is_zeroed(),
    {
        RequestLease {
            id: 0,
        }
    }
}

impl CdrSerialize for RequestLease {
    open spec fn cdr_bytes(&self, offset: nat) -> Seq<u8> {
        self.fields().cdr_bytes(offset)
    }

    fn serialize(&self, s: &mut CdrSerializer) {
        let t: RequestLeaseFields = self.id;
        t.serialize(s);
    }
}

impl CdrDeserialize for RequestLease {
    open spec fn cdr_read(body: Seq<u8>, offset: nat) -> (Result<Self::V, CdrError>, nat) {
        RequestLeaseFields::cdr_read(body, offset)
    }

    fn deserialize(d: &mut CdrDeserializer<'_>) -> (r: Result<Self, CdrError>) {
        let id = RequestLeaseFields::deserialize(d)?;
        Ok(RequestLease { id })
    }

    open spec fn cdr_nonempty() -> bool {
        RequestLeaseFields::cdr_nonempty()
    }

    fn is_cdr_nonempty() -> (b: bool) {
        RequestLeaseFields::is_cdr_nonempty()
    }

    proof fn lemma_cdr_read_extends(body: Seq<u8>, offset: nat, ext: Seq<u8>) {
        RequestLeaseFields::lemma_cdr_read_extends(body, offset, ext);
    }
}

impl CdrRoundTrip for RequestLease {
    open spec fn cdr_encodable(&self) -> bool {
        self.fields().cdr_encodable()
    }

    proof fn lemma_cdr_bytes_nonempty(&self, offset: nat) {
        self.fields().lemma_cdr_bytes_nonempty(offset);
    }

    proof fn lemma_cdr_roundtrip(&self, prefix: Seq<u8>, rest: Seq<u8>) {
        self.fields().lemma_cdr_roundtrip(prefix, rest);
    }
}

impl RequestLease {
    /// The encoding follows the `.msg` declaration order: `id`, each
    /// written where the one before it ends; and a read value lists the fields
    /// in that order.
    pub proof fn lemma_declaration_order(&self, offset: nat)
        ensures
            self.cdr_bytes(offset) == {
                let b0 = self.id.cdr_bytes(offset);
                b0
            },
            self.deep_view() == self.id.deep_view(),
    {
    }
}

impl DdsType for RequestLease {
    const TYPE_NAME: &'static str = "unitree_api::msg::dds_::RequestLease_";
    const IS_KEYLESS: bool = true;
}

impl DdsPod for RequestLease {
    const DESCRIPTOR_SYMBOL: &'static str = "unitree_api_msg_dds__RequestLease__desc";
}

// ---------------------------------------------------------------------------
// RequestPolicy
// ---------------------------------------------------------------------------

/// `unitree_api/RequestPolicy`: priority, and whether no reply is wanted.
#[derive(Debug, Clone, Copy, PartialEq)]
pub struct RequestPolicy {
    pub priority: i32,
    pub noreply: bool,
}

/// The fields of [`RequestPolicy`] as nested pairs, in wire order.
pub type RequestPolicyFields = (i32, bool);

impl RequestPolicy {
    /// The fields as nested pairs, in wire order.
    pub open spec fn fields(self) -> RequestPolicyFields {
        (self.priority, self.noreply)
    }

    /// Every field is zero (strings and sequences empty).
    pub open spec fn is_zeroed(&self) -> bool {
        &&& self.priority == 0
        &&& !self.noreply
    }
}

impl DeepView for RequestPolicy {
    type V = <RequestPolicyFields as DeepView>::V;

    open spec fn deep_view(&self) -> Self::V {
        self.fields().deep_view()
    }
}

impl Default for RequestPolicy {
    fn default() -> (v: Self)
        ensures
            v.is_zeroed(),
    {
        RequestPolicy {
            priority: 0,
            noreply: false,
        }
    }
}

impl CdrSerialize for RequestPolicy {
    open spec fn cdr_bytes(&self, offset: nat) -> Seq<u8> {
        self.fields().cdr_bytes(offset)
    }

    fn serialize(&self, s: &mut CdrSerializer) {
        let t: RequestPolicyFields = (self.priority, self.noreply);
        t.serialize(s);
    }
}

impl CdrDeserialize for RequestPolicy {
    open spec fn cdr_read(body: Seq<u8>, offset: nat) -> (Result<Self::V, CdrError>, nat) {
        RequestPolicyFields::cdr_read(body, offset)
    }

    fn deserialize(d: &mut CdrDeserializer<'_>) -> (r: Result<Self, CdrError>) {
        let (priority, noreply) = RequestPolicyFields::deserialize(d)?;
        Ok(RequestPolicy { priority, noreply })
    }

    open spec fn cdr_nonempty() -> bool {
        RequestPolicyFields::cdr_nonempty()
    }

    fn is_cdr_nonempty() -> (b: bool) {
        RequestPolicyFields::is_cdr_nonempty()
    }

    proof fn lemma_cdr_read_extends(body: Seq<u8>, offset: nat, ext: Seq<u8>) {
        RequestPolicyFields::lemma_cdr_read_extends(body, offset, ext);
    }
}

impl CdrRoundTrip for RequestPolicy {
    open spec fn cdr_encodable(&self) -> bool {
        self.fields().cdr_encodable()
    }

    proof fn lemma_cdr_bytes_nonempty(&self, offset: nat) {
        self.fields().lemma_cdr_bytes_nonempty(offset);
    }

    proof fn lemma_cdr_roundtrip(&self, prefix: Seq<u8>, rest: Seq<u8>) {
        self.fields().lemma_cdr_roundtrip(prefix, rest);
    }
}

impl RequestPolicy {
    /// The encoding follows the `.msg` declaration order: `priority`, `noreply`, each
    /// written where the one before it ends; and a read value lists the fields
    /// in that order.
    pub proof fn lemma_declaration_order(&self, offset: nat)
        ensures
            self.cdr_bytes(offset) == {
                let b0 = self.priority.cdr_bytes(offset);
                let b1 = self.noreply.cdr_bytes(offset + b0.len());
                b0 + b1
            },
            self.deep_view() == (self.priority.deep_view(), self.noreply.deep_view()),
    {
    }
}

impl DdsType for RequestPolicy {
    const TYPE_NAME: &'static str = "unitree_api::msg::dds_::RequestPolicy_";
    const IS_KEYLESS: bool = true;
}

impl DdsPod for RequestPolicy {
    const DESCRIPTOR_SYMBOL: &'static str = "unitree_api_msg_dds__RequestPolicy__desc";
}

// ---------------------------------------------------------------------------
// RequestHeader
// ---------------------------------------------------------------------------

/// `unitree_api/RequestHeader`: identity, lease and policy of a request.
#[derive(Debug, Clone, Copy, PartialEq)]
pub struct RequestHeader {
    pub identity: RequestIdentity,
    pub lease: RequestLease,
    pub policy: RequestPolicy,
}

/// The fields of [`RequestHeader`] as nested pairs, in wire order.
pub type RequestHeaderFields = (RequestIdentity, (RequestLease, RequestPolicy));

impl RequestHeader {
    /// The fields as nested pairs, in wire order.
    pub open spec fn fields(self) -> RequestHeaderFields {
        (self.identity, (self.lease, self.policy))
    }

    /// Every field is zero (strings and sequences empty).
    pub open spec fn is_zeroed(&self) -> bool {
        &&& self.identity.is_zeroed()
        &&& self.lease.is_zeroed()
        &&& self.policy.is_zeroed()
    }
}

impl DeepView for RequestHeader {
    type V = <RequestHeaderFields as DeepView>::V;

    open spec fn deep_view(&self) -> Self::V {
        self.fields().deep_view()
    }
}

impl Default for RequestHeader {
    fn default() -> (v: Self)
        ensures
            v.is_zeroed(),
    {
        RequestHeader {
            identity: RequestIdentity::default(),
            lease: RequestLease::default(),
            policy: RequestPolicy::default(),
        }
    }
}

impl CdrSerialize for RequestHeader {
    open spec fn cdr_bytes(&self, offset: nat) -> Seq<u8> {
        self.fields().cdr_bytes(offset)
    }

    fn serialize(&self, s: &mut CdrSerializer) {
        let t: RequestHeaderFields = (self.identity, (self.lease, self.policy));
        t.serialize(s);
    }
}

impl CdrDeserialize for RequestHeader {
    open spec fn cdr_read(body: Seq<u8>, offset: nat) -> (Result<Self::V, CdrError>, nat) {
        RequestHeaderFields::cdr_read(body, offset)
    }

    fn deserialize(d: &mut CdrDeserializer<'_>) -> (r: Result<Self, CdrError>) {
        let (identity, (lease, policy)) = RequestHeaderFields::deserialize(d)?;
        Ok(RequestHeader { identity, lease, policy })
    }

    open spec fn cdr_nonempty() -> bool {
        RequestHeaderFields::cdr_nonempty()
    }

    fn is_cdr_nonempty() -> (b: bool) {
        RequestHeaderFields::is_cdr_nonempty()
    }

    proof fn lemma_cdr_read_extends(body: Seq<u8>, offset: nat, ext: Seq<u8>) {
        RequestHeaderFields::lemma_cdr_read_extends(body, offset, ext);
    }
}

impl CdrRoundTrip for RequestHeader {
    open spec fn cdr_encodable(&self) -> bool {
        self.fields().cdr_encodable()
    }

    proof fn lemma_cdr_bytes_nonempty(&self, offset: nat) {
        self.fields().lemma_cdr_bytes_nonempty(offset);
    }

    proof fn lemma_cdr_roundtrip(&self, prefix: Seq<u8>, rest: Seq<u8>) {
        self.fields().lemma_cdr_roundtrip(prefix, rest);
    }
}

impl RequestHeader {
    /// The encoding follows the `.msg` declaration order: `identity`, `lease`, `policy`, each
    /// written where the one before it ends; and a read value lists the fields
    /// in that order.
    pub proof fn lemma_declaration_order(&self, offset: nat)
        ensures
            self.cdr_bytes(offset) == {
                let b0 = self.identity.cdr_bytes(offset);
                let b1 = self.lease.cdr_bytes(offset + b0.len());
                let b2 = self.policy.cdr_bytes(offset + b0.len() + b1.len());
                b0 + (b1 + b2)
            },
            self.deep_view() == (self.identity.deep_view(), (self.lease.deep_view(), self.policy.deep_view())),
    {
    }
}

impl DdsType for RequestHeader {
    const TYPE_NAME: &'static str = "unitree_api::msg::dds_::RequestHeader_";
    const IS_KEYLESS: bool = true;
}

impl DdsPod for RequestHeader {
    const DESCRIPTOR_SYMBOL: &'static str = "unitree_api_msg_dds__RequestHeader__desc";
}

// ---------------------------------------------------------------------------
// Request
// ---------------------------------------------------------------------------

/// `unitree_api/Request`: an RPC request (`Request_`).
#[derive(Debug, Clone, PartialEq)]
pub struct Request {
    pub header: RequestHeader,
    /// JSON parameter.
    pub parameter: String,
    pub binary: Vec<u8>,
}

/// The fields of [`Request`] as nested pairs, in wire order.
pub type RequestFields = (RequestHeader, (String, Vec<u8>));

impl Request {
    /// The fields as nested pairs, in wire order.
    pub open spec fn fields(self) -> RequestFields {
        (self.header, (self.parameter, self.binary))
    }

    /// Every field is zero (strings and sequences empty).
    pub open spec fn is_zeroed(&self) -> bool {
        &&& self.header.is_zeroed()
        &&& self.parameter@.len() == 0
        &&& self.binary@.len() == 0
    }
}

impl DeepView for Request {
    type V = <RequestFields as DeepView>::V;

    open spec fn deep_view(&self) -> Self::V {
        self.fields().deep_view()
    }
}

impl Default for Request {
    fn default() -> (v: Self)
        ensures
            v.is_zeroed(),
    {
        Request {
            header: RequestHeader::default(),
            parameter: String::new(),
            binary: Vec::new(),
        }
    }
}

impl CdrSerialize for Request {
    open spec fn cdr_bytes(&self, offset: nat) -> Seq<u8> {
        self.fields().cdr_bytes(offset)
    }

    fn serialize(&self, s: &mut CdrSerializer) {
        self.header.serialize(s);
        self.parameter.serialize(s);
        self.binary.serialize(s);
        assert(s@ =~= old(s)@ + self.cdr_bytes(old(s)@.len()));
    }
}

impl CdrDeserialize for Request {
    open spec fn cdr_read(body: Seq<u8>, offset: nat) -> (Result<Self::V, CdrError>, nat) {
        RequestFields::cdr_read(body, offset)
    }

    fn deserialize(d: &mut CdrDeserializer<'_>) -> (r: Result<Self, CdrError>) {
        let (header, (parameter, binary)) = RequestFields::deserialize(d)?;
        Ok(Request { header, parameter, binary })
    }

    open spec fn cdr_nonempty() -> bool {
        RequestFields::cdr_nonempty()
    }

    fn is_cdr_nonempty() -> (b: bool) {
        RequestFields::is_cdr_nonempty()
    }

    proof fn lemma_cdr_read_extends(body: Seq<u8>, offset: nat, ext: Seq<u8>) {
        RequestFields::lemma_cdr_read_extends(body, offset, ext);
    }
}

impl CdrRoundTrip for Request {
    open spec fn cdr_encodable(&self) -> bool {
        self.fields().cdr_encodable()
    }

    proof fn lemma_cdr_bytes_nonempty(&self, offset: nat) {
        self.fields().lemma_cdr_bytes_nonempty(offset);
    }

    proof fn lemma_cdr_roundtrip(&self, prefix: Seq<u8>, rest: Seq<u8>) {
        self.fields().lemma_cdr_roundtrip(prefix, rest);
    }
}

impl Request {
    /// The encoding follows the `.msg` declaration order: `header`, `parameter`, `binary`, each
    /// written where the one before it ends; and a read value lists the fields
    /// in that order.
    pub proof fn lemma_declaration_order(&self, offset: nat)
        ensures
            self.cdr_bytes(offset) == {
                let b0 = self.header.cdr_bytes(offset);
                let b1 = self.parameter.cdr_bytes(offset + b0.len());
                let b2 = self.binary.cdr_bytes(offset + b0.len() + b1.len());
                b0 + (b1 + b2)
            },
            self.deep_view() == (self.header.deep_view(), (self.parameter.deep_view(), self.binary.deep_view())),
    {
    }
}

impl DdsType for Request {
    const TYPE_NAME: &'static str = "unitree_api::msg::dds_::Request_";
    const IS_KEYLESS: bool = true;
}

// ---------------------------------------------------------------------------
// ResponseStatus
// ---------------------------------------------------------------------------

/// `unitree_api/ResponseStatus`: the status code of a reply (0: success).
#[derive(Debug, Clone, Copy, PartialEq)]
pub struct ResponseStatus {
    pub code: i32,
}

/// The fields of [`ResponseStatus`] as nested pairs, in wire order.
pub type ResponseStatusFields = i32;

impl ResponseStatus {
    /// The fields as nested pairs, in wire order.
    pub open spec fn fields(self) -> ResponseStatusFields {
        self.code
    }

    /// Every field is zero (strings and sequences empty).
    pub open spec fn is_zeroed(&self) -> bool {
        &&& self.code == 0
    }
}

impl DeepView for ResponseStatus {
    type V = <ResponseStatusFields as DeepView>::V;

    open spec fn deep_view(&self) -> Self::V {
        self.fields().deep_view()
    }
}

impl Default for ResponseStatus {
    fn default() -> (v: Self)
        ensures
            v.is_zeroed(),
    {
        ResponseStatus {
            code: 0,
        }
    }
}

impl CdrSerialize for ResponseStatus {
    open spec fn cdr_bytes(&self, offset: nat) -> Seq<u8> {
        self.fields().cdr_bytes(offset)
    }

    fn serialize(&self, s: &mut CdrSerializer) {
        let t: ResponseStatusFields = self.code;
        t.serialize(s);
    }
}

impl CdrDeserialize for ResponseStatus {
    open spec fn cdr_read(body: Seq<u8>, offset: nat) -> (Result<Self::V, CdrError>, nat) {
        ResponseStatusFields::cdr_read(body, offset)
    }

    fn deserialize(d: &mut CdrDeserializer<'_>) -> (r: Result<Self, CdrError>) {
        let code = ResponseStatusFields::deserialize(d)?;
        Ok(ResponseStatus { code })
    }

    open spec fn cdr_nonempty() -> bool {
        ResponseStatusFields::cdr_nonempty()
    }

    fn is_cdr_nonempty() -> (b: bool) {
        ResponseStatusFields::is_cdr_nonempty()
    }

    proof fn lemma_cdr_read_extends(body: Seq<u8>, offset: nat, ext: Seq<u8>) {
        ResponseStatusFields::lemma_cdr_read_extends(body, offset, ext);
    }
}

impl CdrRoundTrip for ResponseStatus {
    open spec fn cdr_encodable(&self) -> bool {
        self.fields().cdr_encodable()
    }

    proof fn lemma_cdr_bytes_nonempty(&self, offset: nat) {
        self.fields().lemma_cdr_bytes_nonempty(offset);
    }

    proof fn lemma_cdr_roundtrip(&self, prefix: Seq<u8>, rest: Seq<u8>) {
        self.fields().lemma_cdr_roundtrip(prefix, rest);
    }
}

impl ResponseStatus {
    /// The encoding follows the `.msg` declaration order: `code`, each
    /// written where the one before it ends; and a read value lists the fields
    /// in that order.
    pub proof fn lemma_declaration_order(&self, offset: nat)
        ensures
            self.cdr_bytes(offset) == {
                let b0 = self.code.cdr_bytes(offset);
                b0
            },
            self.deep_view() == self.code.deep_view(),
    {
    }
}

impl DdsType for ResponseStatus {
    const TYPE_NAME: &'static str = "unitree_api::msg::dds_::ResponseStatus_";
    const IS_KEYLESS: bool = true;
}

impl DdsPod for ResponseStatus {
    const DESCRIPTOR_SYMBOL: &'static str = "unitree_api_msg_dds__ResponseStatus__desc";
}

// ---------------------------------------------------------------------------
// ResponseHeader
// ---------------------------------------------------------------------------

/// `unitree_api/ResponseHeader`: the identity echoed from the request, and the status.
#[derive(Debug, Clone, Copy, PartialEq)]
pub struct ResponseHeader {
    pub identity: RequestIdentity,
    pub status: ResponseStatus,
}

/// The fields of [`ResponseHeader`] as nested pairs, in wire order.
pub type ResponseHeaderFields = (RequestIdentity, ResponseStatus);

impl ResponseHeader {
    /// The fields as nested pairs, in wire order.
    pub open spec fn fields(self) -> ResponseHeaderFields {
        (self.identity, self.status)
    }

    /// Every field is zero (strings and sequences empty).
    pub open spec fn is_zeroed(&self) -> bool {
        &&& self.identity.is_zeroed()
        &&& self.status.is_zeroed()
    }
}

impl DeepView for ResponseHeader {
    type V = <ResponseHeaderFields as DeepView>::V;

    open spec fn deep_view(&self) -> Self::V {
        self.fields().deep_view()
    }
}

impl Default for ResponseHeader {
    fn default() -> (v: Self)
        ensures
            v.is_zeroed(),
    {
        ResponseHeader {
            identity: RequestIdentity::default(),
            status: ResponseStatus::default(),
        }
    }
}

impl CdrSerialize for ResponseHeader {
    open spec fn cdr_bytes(&self, offset: nat) -> Seq<u8> {
        self.fields().cdr_bytes(offset)
    }

    fn serialize(&self, s: &mut CdrSerializer) {
        let t: ResponseHeaderFields = (self.identity, self.status);
        t.serialize(s);
    }
}

impl CdrDeserialize for ResponseHeader {
    open spec fn cdr_read(body: Seq<u8>, offset: nat) -> (Result<Self::V, CdrError>, nat) {
        ResponseHeaderFields::cdr_read(body, offset)
    }

    fn deserialize(d: &mut CdrDeserializer<'_>) -> (r: Result<Self, CdrError>) {
        let (identity, status) = ResponseHeaderFields::deserialize(d)?;
        Ok(ResponseHeader { identity, status })
    }

    open spec fn cdr_nonempty() -> bool {
        ResponseHeaderFields::cdr_nonempty()
    }

    fn is_cdr_nonempty() -> (b: bool) {
        ResponseHeaderFields::is_cdr_nonempty()
    }

    proof fn lemma_cdr_read_extends(body: Seq<u8>, offset: nat, ext: Seq<u8>) {
        ResponseHeaderFields::lemma_cdr_read_extends(body, offset, ext);
    }
}

impl CdrRoundTrip for ResponseHeader {
    open spec fn cdr_encodable(&self) -> bool {
        self.fields().cdr_encodable()
    }

    proof fn lemma_cdr_bytes_nonempty(&self, offset: nat) {
        self.fields().lemma_cdr_bytes_nonempty(offset);
    }

    proof fn lemma_cdr_roundtrip(&self, prefix: Seq<u8>, rest: Seq<u8>) {
        self.fields().lemma_cdr_roundtrip(prefix, rest);
    }
}

impl ResponseHeader {
    /// The encoding follows the `.msg` declaration order: `identity`, `status`, each
    /// written where the one before it ends; and a read value lists the fields
    /// in that order.
    pub proof fn lemma_declaration_order(&self, offset: nat)
        ensures
            self.cdr_bytes(offset) == {
                let b0 = self.identity.cdr_bytes(offset);
                let b1 = self.status.cdr_bytes(offset + b0.len());
                b0 + b1
            },
            self.deep_view() == (self.identity.deep_view(), self.status.deep_view()),
    {
    }
}

impl DdsType for ResponseHeader {
    const TYPE_NAME: &'static str = "unitree_api::msg::dds_::ResponseHeader_";
    const IS_KEYLESS: bool = true;
}

impl DdsPod for ResponseHeader {
    const DESCRIPTOR_SYMBOL: &'static str = "unitree_api_msg_dds__ResponseHeader__desc";
}

// ---------------------------------------------------------------------------
// Response
// ---------------------------------------------------------------------------

/// `unitree_api/Response`: an RPC reply (`Response_`).
#[derive(Debug, Clone, PartialEq)]
pub struct Response {
    pub header: ResponseHeader,
    /// JSON data.
    pub data: String,
    pub binary: Vec<u8>,
}

/// The fields of [`Response`] as nested pairs, in wire order.
pub type ResponseFields = (ResponseHeader, (String, Vec<u8>));

impl Response {
    /// The fields as nested pairs, in wire order.
    pub open spec fn fields(self) -> ResponseFields {
        (self.header, (self.data, self.binary))
    }

    /// Every field is zero (strings and sequences empty).
    pub open spec fn is_zeroed(&self) -> bool {
        &&& self.header.is_zeroed()
        &&& self.data@.len() == 0
        &&& self.binary@.len() == 0
    }
}

impl DeepView for Response {
    type V = <ResponseFields as DeepView>::V;

    open spec fn deep_view(&self) -> Self::V {
        self.fields().deep_view()
    }
}

impl Default for Response {
    fn default() -> (v: Self)
        ensures
            v.is_zeroed(),
    {
        Response {
            header: ResponseHeader::default(),
            data: String::new(),
            binary: Vec::new(),
        }
    }
}

impl CdrSerialize for Response {
    open spec fn cdr_bytes(&self, offset: nat) -> Seq<u8> {
        self.fields().cdr_bytes(offset)
    }

    fn serialize(&self, s: &mut CdrSerializer) {
        self.header.serialize(s);
        self.data.serialize(s);
        self.binary.serialize(s);
        assert(s@ =~= old(s)@ + self.cdr_bytes(old(s)@.len()));
    }
}

impl CdrDeserialize for Response {
    open spec fn cdr_read(body: Seq<u8>, offset: nat) -> (Result<Self::V, CdrError>, nat) {
        ResponseFields::cdr_read(body, offset)
    }

    fn deserialize(d: &mut CdrDeserializer<'_>) -> (r: Result<Self, CdrError>) {
        let (header, (data, binary)) = ResponseFields::deserialize(d)?;
        Ok(Response { header, data, binary })
    }

    open spec fn cdr_nonempty() -> bool {
        ResponseFields::cdr_nonempty()
    }

    fn is_cdr_nonempty() -> (b: bool) {
        ResponseFields::is_cdr_nonempty()
    }

    proof fn lemma_cdr_read_extends(body: Seq<u8>, offset: nat, ext: Seq<u8>) {
        ResponseFields::lemma_cdr_read_extends(body, offset, ext);
    }
}

impl CdrRoundTrip for Response {
    open spec fn cdr_encodable(&self) -> bool {
        self.fields().cdr_encodable()
    }

    proof fn lemma_cdr_bytes_nonempty(&self, offset: nat) {
        self.fields().lemma_cdr_bytes_nonempty(offset);
    }

    proof fn lemma_cdr_roundtrip(&self, prefix: Seq<u8>, rest: Seq<u8>) {
        self.fields().lemma_cdr_roundtrip(prefix, rest);
    }
}

impl Response {
    /// The encoding follows the `.msg` declaration order: `header`, `data`, `binary`, each
    /// written where the one before it ends; and a read value lists the fields
    /// in that order.
    pub proof fn lemma_declaration_order(&self, offset: nat)
        ensures
            self.cdr_bytes(offset) == {
                let b0 = self.header.cdr_bytes(offset);
                let b1 = self.data.cdr_bytes(offset + b0.len());
                let b2 = self.binary.cdr_bytes(offset + b0.len() + b1.len());
                b0 + (b1 + b2)
            },
            self.deep_view() == (self.header.deep_view(), (self.data.deep_view(), self.binary.deep_view())),
    {
    }
}

impl DdsType for Response {
    const TYPE_NAME: &'static str = "unitree_api::msg::dds_::Response_";
    const IS_KEYLESS: bool = true;
}

} // verus!
