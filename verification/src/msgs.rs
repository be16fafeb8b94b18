//! DDS message types: CDR-serializable structs with a DDS type name, and the
//! full-payload round trip that every such type obeys.

use vstd::prelude::*;
use crate::cdr::{
    CdrDeserialize, CdrDeserializer, CdrError, CdrRoundTrip, CdrSerialize, CdrSerializer,
    deep_result, encapsulation_header, header_supported, lemma_cdr_truncation_fails,
};

verus! {

/// A DDS message type: a CDR-serializable struct with a DDS type name.
pub trait DdsType: CdrSerialize + CdrDeserialize + Default + Clone {
    /// Fully-qualified DDS type name, e.g. `unitree_go::msg::dds_::LowCmd_`.
    const TYPE_NAME: &'static str;

    /// Whether the topic type has no key fields (true for all Unitree types).
    const IS_KEYLESS: bool;

    /// Serialize to a complete CDR payload including the encapsulation header.
    fn to_cdr(&self) -> (payload: Vec<u8>)
        ensures
            payload@ == encapsulation_header() + self.cdr_bytes(0),
    {
        let mut s = CdrSerializer::new();
        self.serialize(&mut s);
        s.into_payload()
    }

    /// Deserialize from a complete CDR payload (with encapsulation header).
    fn from_cdr(payload: &[u8]) -> (r: Result<Self, CdrError>)
        ensures
            payload@.len() < 4 ==> r == Err::<Self, CdrError>(
                CdrError::Eof { offset: payload@.len() as usize, needed: (4 - payload@.len()) as usize },
            ),
            payload@.len() >= 4 && !header_supported(payload@) ==> (r matches Err(
                CdrError::BadEncapsulation(h),
            ) && h@ == payload@.take(4)),
            payload@.len() >= 4 && header_supported(payload@) ==> deep_result(r) == Self::cdr_read(
                payload@.skip(4),
                0,
            ).0,
    {
        let mut d = CdrDeserializer::from_payload(payload)?;
        Self::deserialize(&mut d)
    }
}

/// A "plain old data" DDS type: one that contains only scalars, fixed-size
/// arrays, and other [`DdsPod`] types — no `string` and no variable-length
/// sequence. [`DESCRIPTOR_SYMBOL`](DdsPod::DESCRIPTOR_SYMBOL) names the C topic
/// descriptor that idlc emits for the same type.
pub trait DdsPod: DdsType + Copy {
    /// Name of the C `dds_topic_descriptor_t` symbol emitted by idlc,
    /// e.g. `unitree_go_msg_dds__LowState__desc`.
    const DESCRIPTOR_SYMBOL: &'static str;
}

/// The payload that [`DdsType::to_cdr`] produces for `v`.
pub open spec fn cdr_payload<T: CdrSerialize>(v: T) -> Seq<u8> {
    encapsulation_header() + v.cdr_bytes(0)
}

/// The payload round trip: the payload [`DdsType::to_cdr`] makes of a message
/// is accepted by [`DdsType::from_cdr`] (long enough, supported header) and
/// decodes to that same message.
pub proof fn lemma_payload_roundtrip<T: DdsType + CdrRoundTrip>(v: T)
    requires
        v.cdr_encodable(),
    ensures
        cdr_payload(v).len() >= 4,
        header_supported(cdr_payload(v)),
        T::cdr_read(cdr_payload(v).skip(4), 0).0 == Ok::<T::V, CdrError>(v.deep_view()),
{
    let p = cdr_payload(v);
    assert(p.skip(4) =~= Seq::<u8>::empty() + v.cdr_bytes(Seq::<u8>::empty().len()) + Seq::<
        u8,
    >::empty());
    v.lemma_cdr_roundtrip(Seq::empty(), Seq::empty());
}

/// A truncated payload is rejected: for every strict prefix of the payload
/// [`DdsType::to_cdr`] makes of a message, [`DdsType::from_cdr`] fails — on the
/// length of the header when the cut falls inside it, else on reading the body
/// (the header itself is intact).
pub proof fn lemma_truncated_payload_rejected<T: DdsType + CdrRoundTrip>(v: T, k: nat)
    requires
        v.cdr_encodable(),
        k < cdr_payload(v).len(),
    ensures
        k >= 4 ==> header_supported(cdr_payload(v).take(k as int)),
        k >= 4 ==> T::cdr_read(cdr_payload(v).take(k as int).skip(4), 0).0 is Err,
{
    if k >= 4 {
        let b = v.cdr_bytes(0);
        lemma_cdr_truncation_fails(v, Seq::empty(), (k - 4) as nat);
        assert(Seq::<u8>::empty() + b =~= b);
        assert(cdr_payload(v).take(k as int).skip(4) =~= b.take(k - 4));
    }
}

} // verus!
