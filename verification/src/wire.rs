//! Byte-level laws of the message encodings: where each field of the motor
//! command, the IMU state and the RPC request identity lands on the wire, and
//! what reading those bytes gives back.

use vstd::prelude::*;
use vstd::arithmetic::div_mod::lemma_div_denominator;
use crate::cdr::{cdr_alignment, lemma_padding_aligns, padding, prim_bytes, zeros, CdrDeserialize, CdrError, CdrRoundTrip, CdrSerialize};
use crate::cdr_seq::items_bytes;
use crate::le::{le_bytes, twos_complement};
use crate::unitree_api::RequestIdentity;
use crate::unitree_go::{IMUState, MotorCmd};

verus! {

/// The four little-endian bytes of `v`, lowest first.
pub open spec fn u32_le(v: u32) -> Seq<u8> {
    seq![
        (v % 0x100) as u8,
        ((v / 0x100) % 0x100) as u8,
        ((v / 0x1_0000) % 0x100) as u8,
        ((v / 0x100_0000) % 0x100) as u8,
    ]
}

/// The little-endian bytes of each value of `s`, in order.
pub open spec fn u32s_le(s: Seq<u32>) -> Seq<u8>
    decreases s.len(),
{
    if s.len() == 0 {
        Seq::empty()
    } else {
        u32s_le(s.drop_last()) + u32_le(s.last())
    }
}

/// The eight little-endian bytes of `v` in two's complement.
pub open spec fn i64_le(v: i64) -> Seq<u8> {
    le_bytes(twos_complement(v as int, 8), 8)
}

proof fn lemma_le_bytes_u32(v: u32)
    ensures
        le_bytes(v as nat, 4) == u32_le(v),
{
    reveal_with_fuel(le_bytes, 5);
    let x = v as int;
    lemma_div_denominator(x, 0x100, 0x100);
    lemma_div_denominator(x, 0x1_0000, 0x100);
    assert(le_bytes(v as nat, 4) =~= u32_le(v));
}

/// A `u32` at a 4-aligned offset is its four little-endian bytes, no padding.
pub proof fn lemma_u32_wire(v: u32, o: nat)
    requires
        o % 4 == 0,
    ensures
        v.cdr_bytes(o) == u32_le(v),
{
    lemma_le_bytes_u32(v);
    assert(padding(o, cdr_alignment(4)) == 0);
    assert(zeros(0) =~= Seq::<u8>::empty());
    assert(prim_bytes(o, 4, v as nat) =~= u32_le(v));
}

/// A run of `u32`s at a 4-aligned offset is their bytes back to back.
pub proof fn lemma_u32s_wire(s: Seq<u32>, o: nat)
    requires
        o % 4 == 0,
    ensures
        items_bytes(s, o) == u32s_le(s),
        u32s_le(s).len() == 4 * s.len(),
    decreases s.len(),
{
    if s.len() > 0 {
        lemma_u32s_wire(s.drop_last(), o);
        let p = items_bytes(s.drop_last(), o);
        assert((o + p.len()) % 4 == 0);
        lemma_u32_wire(s.last(), o + p.len());
    }
}

/// The bytes of a motor command written at body offset `o`: `mode`, the
/// padding that aligns the next field to 4, then `q`, `dq`, `tau`, `kp`, `kd`
/// and the three `reserve` words, each little-endian, in that order.
pub open spec fn motor_cmd_wire(m: MotorCmd, o: nat) -> Seq<u8> {
    seq![m.mode] + zeros(((4 - (o + 1) % 4) % 4) as nat) + u32_le(m.q) + u32_le(m.dq) + u32_le(m.tau)
        + u32_le(m.kp) + u32_le(m.kd) + u32_le(m.reserve@[0]) + u32_le(m.reserve@[1]) + u32_le(
        m.reserve@[2],
    )
}

proof fn lemma_u8_wire(v: u8, o: nat)
    ensures
        v.cdr_bytes(o) == seq![v],
{
    reveal_with_fuel(le_bytes, 2);
    assert(padding(o, cdr_alignment(1)) == 0);
    assert(v.cdr_bytes(o) =~= seq![v]);
}

proof fn lemma_u32_wire_padded(v: u32, o: nat)
    ensures
        v.cdr_bytes(o) == zeros(padding(o, 4)) + u32_le(v),
{
    lemma_le_bytes_u32(v);
}

proof fn lemma_u32s_le_3(r: Seq<u32>)
    requires
        r.len() == 3,
    ensures
        u32s_le(r) == u32_le(r[0]) + u32_le(r[1]) + u32_le(r[2]),
{
    reveal_with_fuel(u32s_le, 4);
    let r2 = r.drop_last();
    let r1 = r2.drop_last();
    let r0 = r1.drop_last();
    assert(r0 =~= Seq::<u32>::empty());
    assert(r1.last() == r[0]);
    assert(r2.last() == r[1]);
    assert(r.last() == r[2]);
    assert(u32s_le(r) =~= u32_le(r[0]) + u32_le(r[1]) + u32_le(r[2]));
}

/// The fields of a motor command after `q`, at a 4-aligned offset.
proof fn lemma_motor_cmd_tail(m: MotorCmd, a: nat)
    requires
        a % 4 == 0,
    ensures
        (m.dq, (m.tau, (m.kp, (m.kd, m.reserve)))).cdr_bytes(a) == u32_le(m.dq) + u32_le(m.tau)
            + u32_le(m.kp) + u32_le(m.kd) + u32_le(m.reserve@[0]) + u32_le(m.reserve@[1]) + u32_le(
            m.reserve@[2],
        ),
{
    let r = m.reserve@;
    lemma_u32s_wire(r, a + 16);
    lemma_u32s_le_3(r);
    let t5 = (m.kd, m.reserve);
    lemma_u32_wire(m.kd, a + 12);
    let t4 = (m.kp, t5);
    lemma_u32_wire(m.kp, a + 8);
    let t3 = (m.tau, t4);
    lemma_u32_wire(m.tau, a + 4);
    let t2 = (m.dq, t3);
    lemma_u32_wire(m.dq, a);
    assert(t5.cdr_bytes(a + 12) == u32_le(m.kd) + u32s_le(r));
    assert(t4.cdr_bytes(a + 8) == u32_le(m.kp) + t5.cdr_bytes(a + 12));
    assert(t3.cdr_bytes(a + 4) == u32_le(m.tau) + t4.cdr_bytes(a + 8));
    assert(t2.cdr_bytes(a) == u32_le(m.dq) + t3.cdr_bytes(a + 4));
    assert(t2.cdr_bytes(a) =~= u32_le(m.dq) + u32_le(m.tau) + u32_le(m.kp) + u32_le(m.kd) + u32_le(
        r[0],
    ) + u32_le(r[1]) + u32_le(r[2]));
}

proof fn lemma_motor_cmd_bytes(m: MotorCmd, o: nat)
    ensures
        m.cdr_bytes(o) == motor_cmd_wire(m, o),
{
    let pad = padding(o + 1, 4);
    lemma_padding_aligns(o + 1, 4);
    assert(pad == ((4 - (o + 1) % 4) % 4) as nat);
    let a = o + 1 + pad;
    let t2 = (m.dq, (m.tau, (m.kp, (m.kd, m.reserve))));
    lemma_motor_cmd_tail(m, a + 4);
    let t1 = (m.q, t2);
    lemma_u32_wire_padded(m.q, o + 1);
    lemma_u8_wire(m.mode, o);
    let b2 = t2.cdr_bytes(a + 4);
    assert(t1.cdr_bytes(o + 1) == zeros(pad) + u32_le(m.q) + b2);
    assert(m.cdr_bytes(o) == seq![m.mode] + t1.cdr_bytes(o + 1));
    assert(m.cdr_bytes(o) =~= motor_cmd_wire(m, o));
}

/// The XCDR2 bytes of a `MotorCmd` are its fields in `.msg` declaration order:
/// `mode`, padding, `q`, `dq`, `tau`, `kp`, `kd`, `reserve`. In a body of its
/// own, `kp` is bytes 16..20 and `kd` bytes 20..24.
pub proof fn lemma_motor_cmd_wire_layout(m: MotorCmd, o: nat)
    ensures
        m.cdr_bytes(o) == motor_cmd_wire(m, o),
        m.cdr_bytes(o).len() == 33 + (4 - (o + 1) % 4) % 4,
        o == 0 ==> m.cdr_bytes(o).subrange(16, 20) == u32_le(m.kp),
        o == 0 ==> m.cdr_bytes(o).subrange(20, 24) == u32_le(m.kd),
{
    lemma_motor_cmd_bytes(m, o);
    if o == 0 {
        let w = motor_cmd_wire(m, 0);
        assert(w.subrange(16, 20) =~= u32_le(m.kp));
        assert(w.subrange(20, 24) =~= u32_le(m.kd));
    }
}

/// Reading a motor command from its bytes (after any prefix, before anything)
/// gives each field from its place: `mode`, `q`, `dq`, `tau`, `kp`, `kd`,
/// `reserve`, in declaration order.
pub proof fn lemma_motor_cmd_wire_decode(m: MotorCmd, prefix: Seq<u8>, rest: Seq<u8>)
    ensures
        MotorCmd::cdr_read(prefix + motor_cmd_wire(m, prefix.len()) + rest, prefix.len()).0 == Ok::<
            _,
            CdrError,
        >((m.mode, (m.q, (m.dq, (m.tau, (m.kp, (m.kd, m.reserve@))))))),
{
    lemma_motor_cmd_wire_layout(m, prefix.len());
    m.lemma_cdr_roundtrip(prefix, rest);
    assert(m.reserve.deep_view() =~= m.reserve@);
}

/// The bytes of an IMU state written at a 4-aligned body offset: the
/// `quaternion`, `gyroscope`, `accelerometer` and `rpy` floats, each
/// little-endian, then the `temperature` byte, in that order.
pub open spec fn imu_state_wire(s: IMUState) -> Seq<u8> {
    u32s_le(s.quaternion@) + u32s_le(s.gyroscope@) + u32s_le(s.accelerometer@) + u32s_le(s.rpy@) + seq![
        twos_complement(s.temperature as int, 1) as u8,
    ]
}

/// The XCDR2 bytes of an `IMUState` are its fields in `.msg` declaration
/// order: quaternion, gyroscope, accelerometer, rpy, temperature. In a body of
/// its own the gyroscope is bytes 16..28 and the accelerometer bytes 28..40.
pub proof fn lemma_imu_state_wire_layout(s: IMUState, o: nat)
    requires
        o % 4 == 0,
    ensures
        s.cdr_bytes(o) == imu_state_wire(s),
        s.cdr_bytes(o).len() == 53,
        s.cdr_bytes(o).subrange(16, 28) == u32s_le(s.gyroscope@),
        s.cdr_bytes(o).subrange(28, 40) == u32s_le(s.accelerometer@),
{
    reveal_with_fuel(le_bytes, 2);
    lemma_u32s_wire(s.quaternion@, o);
    lemma_u32s_wire(s.gyroscope@, o + 16);
    lemma_u32s_wire(s.accelerometer@, o + 28);
    lemma_u32s_wire(s.rpy@, o + 40);
    assert(padding(o + 52, cdr_alignment(1)) == 0);
    crate::le::lemma_pow256_values();
    let t = twos_complement(s.temperature as int, 1);
    assert(t < 256);
    assert(s.temperature.cdr_bytes(o + 52) =~= seq![t as u8]);
    assert(s.cdr_bytes(o) =~= imu_state_wire(s));
    assert(s.cdr_bytes(o).subrange(16, 28) =~= u32s_le(s.gyroscope@));
    assert(s.cdr_bytes(o).subrange(28, 40) =~= u32s_le(s.accelerometer@));
}

/// Reading an IMU state from its bytes (after a prefix of a multiple of 4
/// bytes) gives each field from its place: quaternion, gyroscope,
/// accelerometer, rpy, temperature.
pub proof fn lemma_imu_state_wire_decode(s: IMUState, prefix: Seq<u8>, rest: Seq<u8>)
    requires
        prefix.len() % 4 == 0,
    ensures
        IMUState::cdr_read(prefix + imu_state_wire(s) + rest, prefix.len()).0 == Ok::<_, CdrError>(
            (s.quaternion@, (s.gyroscope@, (s.accelerometer@, (s.rpy@, s.temperature)))),
        ),
{
    lemma_imu_state_wire_layout(s, prefix.len());
    s.lemma_cdr_roundtrip(prefix, rest);
    assert(s.quaternion.deep_view() =~= s.quaternion@);
    assert(s.gyroscope.deep_view() =~= s.gyroscope@);
    assert(s.accelerometer.deep_view() =~= s.accelerometer@);
    assert(s.rpy.deep_view() =~= s.rpy@);
}

/// The XCDR2 bytes of a `RequestIdentity` at a 4-aligned offset are `id`, then
/// `api_id`, each as eight little-endian two's-complement bytes.
pub proof fn lemma_request_identity_wire_layout(r: RequestIdentity, o: nat)
    requires
        o % 4 == 0,
    ensures
        r.cdr_bytes(o) == i64_le(r.id) + i64_le(r.api_id),
{
    crate::le::lemma_le_bytes_len(twos_complement(r.id as int, 8), 8);
    assert(padding(o, cdr_alignment(8)) == 0);
    assert(padding(o + 8, cdr_alignment(8)) == 0);
    assert(zeros(0) =~= Seq::<u8>::empty());
    assert(r.cdr_bytes(o) =~= i64_le(r.id) + i64_le(r.api_id));
}

/// Reading a request identity from `id`'s bytes followed by `api_id`'s (after
/// a prefix of a multiple of 4 bytes) gives that `id` and that `api_id`.
pub proof fn lemma_request_identity_wire_decode(r: RequestIdentity, prefix: Seq<u8>, rest: Seq<u8>)
    requires
        prefix.len() % 4 == 0,
    ensures
        RequestIdentity::cdr_read(prefix + (i64_le(r.id) + i64_le(r.api_id)) + rest, prefix.len()).0
            == Ok::<_, CdrError>((r.id, r.api_id)),
{
    lemma_request_identity_wire_layout(r, prefix.len());
    r.lemma_cdr_roundtrip(prefix, rest);
}

} // verus!
