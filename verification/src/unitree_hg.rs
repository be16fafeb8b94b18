//! `unitree_hg` message types (humanoids: G1 / H1).
//!
//! Each struct mirrors its `.msg` field for field. A `float32` / `float64`
//! field is held as its IEEE-754 bit pattern (`u32` / `u64`): the encoding
//! only ever moves those bits. Callers convert with `f32::to_bits` / `f32::from_bits`.
//!
//! The encoding of each struct is the encoding of the nested pair of its
//! fields in declaration order, so the [`CdrRoundTrip`] law of each struct
//! follows from the law of pairs.

use vstd::prelude::*;
use crate::cdr::{CdrDeserialize, CdrDeserializer, CdrError, CdrRoundTrip, CdrSerialize, CdrSerializer};
use crate::msgs::{DdsPod, DdsType};

verus! {

// ---------------------------------------------------------------------------
// MotorCmd
// ---------------------------------------------------------------------------

/// `unitree_hg/MotorCmd`: one motor's command.
#[derive(Debug, Clone, Copy, PartialEq)]
pub struct MotorCmd {
    pub mode: u8,
    /// `float32` bits.
    pub q: u32,
    /// `float32` bits.
    pub dq: u32,
    /// `float32` bits.
    pub tau: u32,
    /// `float32` bits.
    pub kp: u32,
    /// `float32` bits.
    pub kd: u32,
    pub reserve: u32,
}

/// The fields of [`MotorCmd`] as nested pairs, in wire order.
pub type MotorCmdFields = (u8, (u32, (u32, (u32, (u32, (u32, u32))))));

impl MotorCmd {
    /// The fields as nested pairs, in wire order.
    pub open spec fn fields(self) -> MotorCmdFields {
        (self.mode, (self.q, (self.dq, (self.tau, (self.kp, (self.kd, self.reserve))))))
    }

    /// Every field is zero (strings and sequences empty).
    pub open spec fn is_zeroed(&self) -> bool {
        &&& self.mode == 0
        &&& self.q == 0
        &&& self.dq == 0
        &&& self.tau == 0
        &&& self.kp == 0
        &&& self.kd == 0
        &&& self.reserve == 0
    }
}

impl DeepView for MotorCmd {
    type V = <MotorCmdFields as DeepView>::V;

    open spec fn deep_view(&self) -> Self::V {
        self.fields().deep_view()
    }
}

impl Default for MotorCmd {
    fn default() -> (v: Self)
        ensures
            v.is_zeroed(),
    {
        MotorCmd {
            mode: 0,
            q: 0,
            dq: 0,
            tau: 0,
            kp: 0,
            kd: 0,
            reserve: 0,
        }
    }
}

impl CdrSerialize for MotorCmd {
    open spec fn cdr_bytes(&self, offset: nat) -> Seq<u8> {
        self.fields().cdr_bytes(offset)
    }

    fn serialize(&self, s: &mut CdrSerializer) {
        let t: MotorCmdFields = (self.mode, (self.q, (self.dq, (self.tau, (self.kp, (self.kd, self.reserve))))));
        t.serialize(s);
    }
}

impl CdrDeserialize for MotorCmd {
    open spec fn cdr_read(body: Seq<u8>, offset: nat) -> (Result<Self::V, CdrError>, nat) {
        MotorCmdFields::cdr_read(body, offset)
    }

    fn deserialize(d: &mut CdrDeserializer<'_>) -> (r: Result<Self, CdrError>) {
        let (mode, (q, (dq, (tau, (kp, (kd, reserve)))))) = MotorCmdFields::deserialize(d)?;
        Ok(MotorCmd { mode, q, dq, tau, kp, kd, reserve })
    }

    open spec fn cdr_nonempty() -> bool {
        MotorCmdFields::cdr_nonempty()
    }

    fn is_cdr_nonempty() -> (b: bool) {
        MotorCmdFields::is_cdr_nonempty()
    }

    proof fn lemma_cdr_read_extends(body: Seq<u8>, offset: nat, ext: Seq<u8>) {
        MotorCmdFields::lemma_cdr_read_extends(body, offset, ext);
    }
}

impl CdrRoundTrip for MotorCmd {
    open spec fn cdr_encodable(&self) -> bool {
        self.fields().cdr_encodable()
    }

    proof fn lemma_cdr_bytes_nonempty(&self, offset: nat) {
        self.fields().lemma_cdr_bytes_nonempty(offset);
    }

    proof fn lemma_cdr_roundtrip(&self, prefix: Seq<u8>, rest: Seq<u8>) {
        self.fields().lemma_cdr_roundtrip(prefix, rest);
    }
}

impl MotorCmd {
    /// The encoding follows the `.msg` declaration order: `mode`, `q`, `dq`, `tau`, `kp`, `kd`, `reserve`, each
    /// written where the one before it ends; and a read value lists the fields
    /// in that order.
    pub proof fn lemma_declaration_order(&self, offset: nat)
        ensures
            self.cdr_bytes(offset) == {
                let b0 = self.mode.cdr_bytes(offset);
                let b1 = self.q.cdr_bytes(offset + b0.len());
                let b2 = self.dq.cdr_bytes(offset + b0.len() + b1.len());
                let b3 = self.tau.cdr_bytes(offset + b0.len() + b1.len() + b2.len());
                let b4 = self.kp.cdr_bytes(offset + b0.len() + b1.len() + b2.len() + b3.len());
                let b5 = self.kd.cdr_bytes(offset + b0.len() + b1.len() + b2.len() + b3.len() + b4.len());
                let b6 = self.reserve.cdr_bytes(offset + b0.len() + b1.len() + b2.len() + b3.len() + b4.len() + b5.len());
                b0 + (b1 + (b2 + (b3 + (b4 + (b5 + b6)))))
            },
            self.deep_view() == (self.mode.deep_view(), (self.q.deep_view(), (self.dq.deep_view(), (self.tau.deep_view(), (self.kp.deep_view(), (self.kd.deep_view(), self.reserve.deep_view())))))),
    {
    }
}

impl DdsType for MotorCmd {
    const TYPE_NAME: &'static str = "unitree_hg::msg::dds_::MotorCmd_";
    const IS_KEYLESS: bool = true;
}

impl DdsPod for MotorCmd {
    const DESCRIPTOR_SYMBOL: &'static str = "unitree_hg_msg_dds__MotorCmd__desc";
}

// ---------------------------------------------------------------------------
// MotorState
// ---------------------------------------------------------------------------

/// `unitree_hg/MotorState`: one motor's state.
#[derive(Debug, Clone, Copy, PartialEq)]
pub struct MotorState {
    pub mode: u8,
    /// `float32` bits.
    pub q: u32,
    /// `float32` bits.
    pub dq: u32,
    /// `float32` bits.
    pub ddq: u32,
    /// `float32` bits.
    pub tau_est: u32,
    pub temperature: [i16; 2],
    /// `float32` bits.
    pub vol: u32,
    pub sensor: [u32; 2],
    pub motorstate: u32,
    pub reserve: [u32; 4],
}

/// The fields of [`MotorState`] as nested pairs, in wire order.
pub type MotorStateFields = (u8, (u32, (u32, (u32, (u32, ([i16; 2], (u32, ([u32; 2], (u32, [u32; 4])))))))));

impl MotorState {
    /// The fields as nested pairs, in wire order.
    pub open spec fn fields(self) -> MotorStateFields {
        (self.mode, (self.q, (self.dq, (self.ddq, (self.tau_est, (self.temperature, (self.vol, (self.sensor, (self.motorstate, self.reserve)))))))))
    }

    /// Every field is zero (strings and sequences empty).
    pub open spec fn is_zeroed(&self) -> bool {
        &&& self.mode == 0
        &&& self.q == 0
        &&& self.dq == 0
        &&& self.ddq == 0
        &&& self.tau_est == 0
        &&& (forall|i: int| 0 <= i < 2 ==> #[trigger] self.temperature@[i] == 0)
        &&& self.vol == 0
        &&& (forall|i: int| 0 <= i < 2 ==> #[trigger] self.sensor@[i] == 0)
        &&& self.motorstate == 0
        &&& (forall|i: int| 0 <= i < 4 ==> #[trigger] self.reserve@[i] == 0)
    }
}

impl DeepView for MotorState {
    type V = <MotorStateFields as DeepView>::V;

    open spec fn deep_view(&self) -> Self::V {
        self.fields().deep_view()
    }
}

impl Default for MotorState {
    fn default() -> (v: Self)
        ensures
            v.is_zeroed(),
    {
        MotorState {
            mode: 0,
            q: 0,
            dq: 0,
            ddq: 0,
            tau_est: 0,
            temperature: [0i16; 2],
            vol: 0,
            sensor: [0u32; 2],
            motorstate: 0,
            reserve: [0u32; 4],
        }
    }
}

impl CdrSerialize for MotorState {
    open spec fn cdr_bytes(&self, offset: nat) -> Seq<u8> {
        self.fields().cdr_bytes(offset)
    }

    fn serialize(&self, s: &mut CdrSerializer) {
        let t: MotorStateFields = (self.mode, (self.q, (self.dq, (self.ddq, (self.tau_est, (self.temperature, (self.vol, (self.sensor, (self.motorstate, self.reserve)))))))));
        t.serialize(s);
    }
}

impl CdrDeserialize for MotorState {
    open spec fn cdr_read(body: Seq<u8>, offset: nat) -> (Result<Self::V, CdrError>, nat) {
        MotorStateFields::cdr_read(body, offset)
    }

    fn deserialize(d: &mut CdrDeserializer<'_>) -> (r: Result<Self, CdrError>) {
        let (mode, (q, (dq, (ddq, (tau_est, (temperature, (vol, (sensor, (motorstate, reserve))))))))) = MotorStateFields::deserialize(d)?;
        Ok(MotorState { mode, q, dq, ddq, tau_est, temperature, vol, sensor, motorstate, reserve })
    }

    open spec fn cdr_nonempty() -> bool {
        MotorStateFields::cdr_nonempty()
    }

    fn is_cdr_nonempty() -> (b: bool) {
        MotorStateFields::is_cdr_nonempty()
    }

    proof fn lemma_cdr_read_extends(body: Seq<u8>, offset: nat, ext: Seq<u8>) {
        MotorStateFields::lemma_cdr_read_extends(body, offset, ext);
    }
}

impl CdrRoundTrip for MotorState {
    open spec fn cdr_encodable(&self) -> bool {
        self.fields().cdr_encodable()
    }

    proof fn lemma_cdr_bytes_nonempty(&self, offset: nat) {
        self.fields().lemma_cdr_bytes_nonempty(offset);
    }

    proof fn lemma_cdr_roundtrip(&self, prefix: Seq<u8>, rest: Seq<u8>) {
        self.fields().lemma_cdr_roundtrip(prefix, rest);
    }
}

impl MotorState {
    /// The encoding follows the `.msg` declaration order: `mode`, `q`, `dq`, `ddq`, `tau_est`, `temperature`, `vol`, `sensor`, `motorstate`, `reserve`, each
    /// written where the one before it ends; and a read value lists the fields
    /// in that order.
    pub proof fn lemma_declaration_order(&self, offset: nat)
        ensures
            self.cdr_bytes(offset) == {
                let b0 = self.mode.cdr_bytes(offset);
                let b1 = self.q.cdr_bytes(offset + b0.len());
                let b2 = self.dq.cdr_bytes(offset + b0.len() + b1.len());
                let b3 = self.ddq.cdr_bytes(offset + b0.len() + b1.len() + b2.len());
                let b4 = self.tau_est.cdr_bytes(offset + b0.len() + b1.len() + b2.len() + b3.len());
                let b5 = self.temperature.cdr_bytes(offset + b0.len() + b1.len() + b2.len() + b3.len() + b4.len());
                let b6 = self.vol.cdr_bytes(offset + b0.len() + b1.len() + b2.len() + b3.len() + b4.len() + b5.len());
                let b7 = self.sensor.cdr_bytes(offset + b0.len() + b1.len() + b2.len() + b3.len() + b4.len() + b5.len() + b6.len());
                let b8 = self.motorstate.cdr_bytes(offset + b0.len() + b1.len() + b2.len() + b3.len() + b4.len() + b5.len() + b6.len() + b7.len());
                let b9 = self.reserve.cdr_bytes(offset + b0.len() + b1.len() + b2.len() + b3.len() + b4.len() + b5.len() + b6.len() + b7.len() + b8.len());
                b0 + (b1 + (b2 + (b3 + (b4 + (b5 + (b6 + (b7 + (b8 + b9))))))))
            },
            self.deep_view() == (self.mode.deep_view(), (self.q.deep_view(), (self.dq.deep_view(), (self.ddq.deep_view(), (self.tau_est.deep_view(), (self.temperature.deep_view(), (self.vol.deep_view(), (self.sensor.deep_view(), (self.motorstate.deep_view(), self.reserve.deep_view()))))))))),
    {
    }
}

impl DdsType for MotorState {
    const TYPE_NAME: &'static str = "unitree_hg::msg::dds_::MotorState_";
    const IS_KEYLESS: bool = true;
}

impl DdsPod for MotorState {
    const DESCRIPTOR_SYMBOL: &'static str = "unitree_hg_msg_dds__MotorState__desc";
}

// ---------------------------------------------------------------------------
// IMUState
// ---------------------------------------------------------------------------

/// `unitree_hg/IMUState`: the IMU reading.
#[derive(Debug, Clone, Copy, PartialEq)]
pub struct IMUState {
    /// `float32` bits, each.
    pub quaternion: [u32; 4],
    /// `float32` bits, each.
    pub gyroscope: [u32; 3],
    /// `float32` bits, each.
    pub accelerometer: [u32; 3],
    /// `float32` bits, each.
    pub rpy: [u32; 3],
    pub temperature: i16,
}

/// The fields of [`IMUState`] as nested pairs, in wire order.
pub type IMUStateFields = ([u32; 4], ([u32; 3], ([u32; 3], ([u32; 3], i16))));

impl IMUState {
    /// The fields as nested pairs, in wire order.
    pub open spec fn fields(self) -> IMUStateFields {
        (self.quaternion, (self.gyroscope, (self.accelerometer, (self.rpy, self.temperature))))
    }

    /// Every field is zero (strings and sequences empty).
    pub open spec fn is_zeroed(&self) -> bool {
        &&& (forall|i: int| 0 <= i < 4 ==> #[trigger] self.quaternion@[i] == 0)
        &&& (forall|i: int| 0 <= i < 3 ==> #[trigger] self.gyroscope@[i] == 0)
        &&& (forall|i: int| 0 <= i < 3 ==> #[trigger] self.accelerometer@[i] == 0)
        &&& (forall|i: int| 0 <= i < 3 ==> #[trigger] self.rpy@[i] == 0)
        &&& self.temperature == 0
    }
}

impl DeepView for IMUState {
    type V = <IMUStateFields as DeepView>::V;

    open spec fn deep_view(&self) -> Self::V {
        self.fields().deep_view()
    }
}

impl Default for IMUState {
    fn default() -> (v: Self)
        ensures
            v.is_zeroed(),
    {
        IMUState {
            quaternion: [0u32; 4],
            gyroscope: [0u32; 3],
            accelerometer: [0u32; 3],
            rpy: [0u32; 3],
            temperature: 0,
        }
    }
}

impl CdrSerialize for IMUState {
    open spec fn cdr_bytes(&self, offset: nat) -> Seq<u8> {
        self.fields().cdr_bytes(offset)
    }

    fn serialize(&self, s: &mut CdrSerializer) {
        let t: IMUStateFields = (self.quaternion, (self.gyroscope, (self.accelerometer, (self.rpy, self.temperature))));
        t.serialize(s);
    }
}

impl CdrDeserialize for IMUState {
    open spec fn cdr_read(body: Seq<u8>, offset: nat) -> (Result<Self::V, CdrError>, nat) {
        IMUStateFields::cdr_read(body, offset)
    }

    fn deserialize(d: &mut CdrDeserializer<'_>) -> (r: Result<Self, CdrError>) {
        let (quaternion, (gyroscope, (accelerometer, (rpy, temperature)))) = IMUStateFields::deserialize(d)?;
        Ok(IMUState { quaternion, gyroscope, accelerometer, rpy, temperature })
    }

    open spec fn cdr_nonempty() -> bool {
        IMUStateFields::cdr_nonempty()
    }

    fn is_cdr_nonempty() -> (b: bool) {
        IMUStateFields::is_cdr_nonempty()
    }

    proof fn lemma_cdr_read_extends(body: Seq<u8>, offset: nat, ext: Seq<u8>) {
        IMUStateFields::lemma_cdr_read_extends(body, offset, ext);
    }
}

impl CdrRoundTrip for IMUState {
    open spec fn cdr_encodable(&self) -> bool {
        self.fields().cdr_encodable()
    }

    proof fn lemma_cdr_bytes_nonempty(&self, offset: nat) {
        self.fields().lemma_cdr_bytes_nonempty(offset);
    }

    proof fn lemma_cdr_roundtrip(&self, prefix: Seq<u8>, rest: Seq<u8>) {
        self.fields().lemma_cdr_roundtrip(prefix, rest);
    }
}

impl IMUState {
    /// The encoding follows the `.msg` declaration order: `quaternion`, `gyroscope`, `accelerometer`, `rpy`, `temperature`, each
    /// written where the one before it ends; and a read value lists the fields
    /// in that order.
    pub proof fn lemma_declaration_order(&self, offset: nat)
        ensures
            self.cdr_bytes(offset) == {
                let b0 = self.quaternion.cdr_bytes(offset);
                let b1 = self.gyroscope.cdr_bytes(offset + b0.len());
                let b2 = self.accelerometer.cdr_bytes(offset + b0.len() + b1.len());
                let b3 = self.rpy.cdr_bytes(offset + b0.len() + b1.len() + b2.len());
                let b4 = self.temperature.cdr_bytes(offset + b0.len() + b1.len() + b2.len() + b3.len());
                b0 + (b1 + (b2 + (b3 + b4)))
            },
            self.deep_view() == (self.quaternion.deep_view(), (self.gyroscope.deep_view(), (self.accelerometer.deep_view(), (self.rpy.deep_view(), self.temperature.deep_view())))),
    {
    }
}

impl DdsType for IMUState {
    const TYPE_NAME: &'static str = "unitree_hg::msg::dds_::IMUState_";
    const IS_KEYLESS: bool = true;
}

impl DdsPod for IMUState {
    const DESCRIPTOR_SYMBOL: &'static str = "unitree_hg_msg_dds__IMUState__desc";
}

// ---------------------------------------------------------------------------
// PressSensorState
// ---------------------------------------------------------------------------

/// `unitree_hg/PressSensorState`: the readings of a pressure sensor.
#[derive(Debug, Clone, Copy, PartialEq)]
pub struct PressSensorState {
    /// `float32` bits, each.
    pub pressure: [u32; 12],
    /// `float32` bits, each.
    pub temperature: [u32; 12],
    pub lost: u32,
    pub reserve: u32,
}

/// The fields of [`PressSensorState`] as nested pairs, in wire order.
pub type PressSensorStateFields = ([u32; 12], ([u32; 12], (u32, u32)));

impl PressSensorState {
    /// The fields as nested pairs, in wire order.
    pub open spec fn fields(self) -> PressSensorStateFields {
        (self.pressure, (self.temperature, (self.lost, self.reserve)))
    }

    /// Every field is zero (strings and sequences empty).
    pub open spec fn is_zeroed(&self) -> bool {
        &&& (forall|i: int| 0 <= i < 12 ==> #[trigger] self.pressure@[i] == 0)
        &&& (forall|i: int| 0 <= i < 12 ==> #[trigger] self.temperature@[i] == 0)
        &&& self.lost == 0
        &&& self.reserve == 0
    }
}

impl DeepView for PressSensorState {
    type V = <PressSensorStateFields as DeepView>::V;

    open spec fn deep_view(&self) -> Self::V {
        self.fields().deep_view()
    }
}

impl Default for PressSensorState {
    fn default() -> (v: Self)
        ensures
            v.is_zeroed(),
    {
        PressSensorState {
            pressure: [0u32; 12],
            temperature: [0u32; 12],
            lost: 0,
            reserve: 0,
        }
    }
}

impl CdrSerialize for PressSensorState {
    open spec fn cdr_bytes(&self, offset: nat) -> Seq<u8> {
        self.fields().cdr_bytes(offset)
    }

    fn serialize(&self, s: &mut CdrSerializer) {
        let t: PressSensorStateFields = (self.pressure, (self.temperature, (self.lost, self.reserve)));
        t.serialize(s);
    }
}

impl CdrDeserialize for PressSensorState {
    open spec fn cdr_read(body: Seq<u8>, offset: nat) -> (Result<Self::V, CdrError>, nat) {
        PressSensorStateFields::cdr_read(body, offset)
    }

    fn deserialize(d: &mut CdrDeserializer<'_>) -> (r: Result<Self, CdrError>) {
        let (pressure, (temperature, (lost, reserve))) = PressSensorStateFields::deserialize(d)?;
        Ok(PressSensorState { pressure, temperature, lost, reserve })
    }

    open spec fn cdr_nonempty() -> bool {
        PressSensorStateFields::cdr_nonempty()
    }

    fn is_cdr_nonempty() -> (b: bool) {
        PressSensorStateFields::is_cdr_nonempty()
    }

    proof fn lemma_cdr_read_extends(body: Seq<u8>, offset: nat, ext: Seq<u8>) {
        PressSensorStateFields::lemma_cdr_read_extends(body, offset, ext);
    }
}

impl CdrRoundTrip for PressSensorState {
    open spec fn cdr_encodable(&self) -> bool {
        self.fields().cdr_encodable()
    }

    proof fn lemma_cdr_bytes_nonempty(&self, offset: nat) {
        self.fields().lemma_cdr_bytes_nonempty(offset);
    }

    proof fn lemma_cdr_roundtrip(&self, prefix: Seq<u8>, rest: Seq<u8>) {
        self.fields().lemma_cdr_roundtrip(prefix, rest);
    }
}

impl PressSensorState {
    /// The encoding follows the `.msg` declaration order: `pressure`, `temperature`, `lost`, `reserve`, each
    /// written where the one before it ends; and a read value lists the fields
    /// in that order.
    pub proof fn lemma_declaration_order(&self, offset: nat)
        ensures
            self.cdr_bytes(offset) == {
                let b0 = self.pressure.cdr_bytes(offset);
                let b1 = self.temperature.cdr_bytes(offset + b0.len());
                let b2 = self.lost.cdr_bytes(offset + b0.len() + b1.len());
                let b3 = self.reserve.cdr_bytes(offset + b0.len() + b1.len() + b2.len());
                b0 + (b1 + (b2 + b3))
            },
            self.deep_view() == (self.pressure.deep_view(), (self.temperature.deep_view(), (self.lost.deep_view(), self.reserve.deep_view()))),
    {
    }
}

impl DdsType for PressSensorState {
    const TYPE_NAME: &'static str = "unitree_hg::msg::dds_::PressSensorState_";
    const IS_KEYLESS: bool = true;
}

impl DdsPod for PressSensorState {
    const DESCRIPTOR_SYMBOL: &'static str = "unitree_hg_msg_dds__PressSensorState__desc";
}

// ---------------------------------------------------------------------------
// BmsCmd
// ---------------------------------------------------------------------------

/// `unitree_hg/BmsCmd`: battery management command.
#[derive(Debug, Clone, Copy, PartialEq)]
pub struct BmsCmd {
    pub cmd: u8,
    pub reserve: [u8; 40],
}

/// The fields of [`BmsCmd`] as nested pairs, in wire order.
pub type BmsCmdFields = (u8, [u8; 40]);

impl BmsCmd {
    /// The fields as nested pairs, in wire order.
    pub open spec fn fields(self) -> BmsCmdFields {
        (self.cmd, self.reserve)
    }

    /// Every field is zero (strings and sequences empty).
    pub open spec fn is_zeroed(&self) -> bool {
        &&& self.cmd == 0
        &&& (forall|i: int| 0 <= i < 40 ==> #[trigger] self.reserve@[i] == 0)
    }
}

impl DeepView for BmsCmd {
    type V = <BmsCmdFields as DeepView>::V;

    open spec fn deep_view(&self) -> Self::V {
        self.fields().deep_view()
    }
}

impl Default for BmsCmd {
    fn default() -> (v: Self)
        ensures
            v.is_zeroed(),
    {
        BmsCmd {
            cmd: 0,
            reserve: [0u8; 40],
        }
    }
}

impl CdrSerialize for BmsCmd {
    open spec fn cdr_bytes(&self, offset: nat) -> Seq<u8> {
        self.fields().cdr_bytes(offset)
    }

    fn serialize(&self, s: &mut CdrSerializer) {
        let t: BmsCmdFields = (self.cmd, self.reserve);
        t.serialize(s);
    }
}

impl CdrDeserialize for BmsCmd {
    open spec fn cdr_read(body: Seq<u8>, offset: nat) -> (Result<Self::V, CdrError>, nat) {
        BmsCmdFields::cdr_read(body, offset)
    }

    fn deserialize(d: &mut CdrDeserializer<'_>) -> (r: Result<Self, CdrError>) {
        let (cmd, reserve) = BmsCmdFields::deserialize(d)?;
        Ok(BmsCmd { cmd, reserve })
    }

    open spec fn cdr_nonempty() -> bool {
        BmsCmdFields::cdr_nonempty()
    }

    fn is_cdr_nonempty() -> (b: bool) {
        BmsCmdFields::is_cdr_nonempty()
    }

    proof fn lemma_cdr_read_extends(body: Seq<u8>, offset: nat, ext: Seq<u8>) {
        BmsCmdFields::lemma_cdr_read_extends(body, offset, ext);
    }
}

impl CdrRoundTrip for BmsCmd {
    open spec fn cdr_encodable(&self) -> bool {
        self.fields().cdr_encodable()
    }

    proof fn lemma_cdr_bytes_nonempty(&self, offset: nat) {
        self.fields().lemma_cdr_bytes_nonempty(offset);
    }

    proof fn lemma_cdr_roundtrip(&self, prefix: Seq<u8>, rest: Seq<u8>) {
        self.fields().lemma_cdr_roundtrip(prefix, rest);
    }
}

impl BmsCmd {
    /// The encoding follows the `.msg` declaration order: `cmd`, `reserve`, each
    /// written where the one before it ends; and a read value lists the fields
    /// in that order.
    pub proof fn lemma_declaration_order(&self, offset: nat)
        ensures
            self.cdr_bytes(offset) == {
                let b0 = self.cmd.cdr_bytes(offset);
                let b1 = self.reserve.cdr_bytes(offset + b0.len());
                b0 + b1
            },
            self.deep_view() == (self.cmd.deep_view(), self.reserve.deep_view()),
    {
    }
}

impl DdsType for BmsCmd {
    const TYPE_NAME: &'static str = "unitree_hg::msg::dds_::BmsCmd_";
    const IS_KEYLESS: bool = true;
}

impl DdsPod for BmsCmd {
    const DESCRIPTOR_SYMBOL: &'static str = "unitree_hg_msg_dds__BmsCmd__desc";
}

// ---------------------------------------------------------------------------
// BmsState
// ---------------------------------------------------------------------------

/// `unitree_hg/BmsState`: the battery state.
#[derive(Debug, Clone, Copy, PartialEq)]
pub struct BmsState {
    pub version_high: u8,
    pub version_low: u8,
    /// The `fn` field.
    pub fn_: u8,
    pub cell_vol: [u16; 40],
    pub bmsvoltage: [u32; 3],
    pub current: i32,
    pub soc: u8,
    pub soh: u8,
    pub temperature: [i16; 12],
    pub cycle: u16,
    pub manufacturer_date: u16,
    pub bmsstate: [u32; 5],
    pub reserve: [u32; 3],
}

/// The fields of [`BmsState`] as nested pairs, in wire order.
pub type BmsStateFields = (u8, (u8, (u8, ([u16; 40], ([u32; 3], (i32, (u8, (u8, ([i16; 12], (u16, (u16, ([u32; 5], [u32; 3]))))))))))));

impl BmsState {
    /// The fields as nested pairs, in wire order.
    pub open spec fn fields(self) -> BmsStateFields {
        (self.version_high, (self.version_low, (self.fn_, (self.cell_vol, (self.bmsvoltage, (self.current, (self.soc, (self.soh, (self.temperature, (self.cycle, (self.manufacturer_date, (self.bmsstate, self.reserve))))))))))))
    }

    /// Every field is zero (strings and sequences empty).
    pub open spec fn is_zeroed(&self) -> bool {
        &&& self.version_high == 0
        &&& self.version_low == 0
        &&& self.fn_ == 0
        &&& (forall|i: int| 0 <= i < 40 ==> #[trigger] self.cell_vol@[i] == 0)
        &&& (forall|i: int| 0 <= i < 3 ==> #[trigger] self.bmsvoltage@[i] == 0)
        &&& self.current == 0
        &&& self.soc == 0
        &&& self.soh == 0
        &&& (forall|i: int| 0 <= i < 12 ==> #[trigger] self.temperature@[i] == 0)
        &&& self.cycle == 0
        &&& self.manufacturer_date == 0
        &&& (forall|i: int| 0 <= i < 5 ==> #[trigger] self.bmsstate@[i] == 0)
        &&& (forall|i: int| 0 <= i < 3 ==> #[trigger] self.reserve@[i] == 0)
    }
}

impl DeepView for BmsState {
    type V = <BmsStateFields as DeepView>::V;

    open spec fn deep_view(&self) -> Self::V {
        self.fields().deep_view()
    }
}

impl Default for BmsState {
    fn default() -> (v: Self)
        ensures
            v.is_zeroed(),
    {
        BmsState {
            version_high: 0,
            version_low: 0,
            fn_: 0,
            cell_vol: [0u16; 40],
            bmsvoltage: [0u32; 3],
            current: 0,
            soc: 0,
            soh: 0,
            temperature: [0i16; 12],
            cycle: 0,
            manufacturer_date: 0,
            bmsstate: [0u32; 5],
            reserve: [0u32; 3],
        }
    }
}

impl CdrSerialize for BmsState {
    open spec fn cdr_bytes(&self, offset: nat) -> Seq<u8> {
        self.fields().cdr_bytes(offset)
    }

    fn serialize(&self, s: &mut CdrSerializer) {
        let t: BmsStateFields = (self.version_high, (self.version_low, (self.fn_, (self.cell_vol, (self.bmsvoltage, (self.current, (self.soc, (self.soh, (self.temperature, (self.cycle, (self.manufacturer_date, (self.bmsstate, self.reserve))))))))))));
        t.serialize(s);
    }
}

impl CdrDeserialize for BmsState {
    open spec fn cdr_read(body: Seq<u8>, offset: nat) -> (Result<Self::V, CdrError>, nat) {
        BmsStateFields::cdr_read(body, offset)
    }

    fn deserialize(d: &mut CdrDeserializer<'_>) -> (r: Result<Self, CdrError>) {
        let (version_high, (version_low, (fn_, (cell_vol, (bmsvoltage, (current, (soc, (soh, (temperature, (cycle, (manufacturer_date, (bmsstate, reserve)))))))))))) = BmsStateFields::deserialize(d)?;
        Ok(BmsState { version_high, version_low, fn_, cell_vol, bmsvoltage, current, soc, soh, temperature, cycle, manufacturer_date, bmsstate, reserve })
    }

    open spec fn cdr_nonempty() -> bool {
        BmsStateFields::cdr_nonempty()
    }

    fn is_cdr_nonempty() -> (b: bool) {
        BmsStateFields::is_cdr_nonempty()
    }

    proof fn lemma_cdr_read_extends(body: Seq<u8>, offset: nat, ext: Seq<u8>) {
        BmsStateFields::lemma_cdr_read_extends(body, offset, ext);
    }
}

impl CdrRoundTrip for BmsState {
    open spec fn cdr_encodable(&self) -> bool {
        self.fields().cdr_encodable()
    }

    proof fn lemma_cdr_bytes_nonempty(&self, offset: nat) {
        self.fields().lemma_cdr_bytes_nonempty(offset);
    }

    proof fn lemma_cdr_roundtrip(&self, prefix: Seq<u8>, rest: Seq<u8>) {
        self.fields().lemma_cdr_roundtrip(prefix, rest);
    }
}

impl BmsState {
    /// The encoding follows the `.msg` declaration order: `version_high`, `version_low`, `fn_`, `cell_vol`, `bmsvoltage`, `current`, `soc`, `soh`, `temperature`, `cycle`, `manufacturer_date`, `bmsstate`, `reserve`, each
    /// written where the one before it ends; and a read value lists the fields
    /// in that order.
    pub proof fn lemma_declaration_order(&self, offset: nat)
        ensures
            self.cdr_bytes(offset) == {
                let b0 = self.version_high.cdr_bytes(offset);
                let b1 = self.version_low.cdr_bytes(offset + b0.len());
                let b2 = self.fn_.cdr_bytes(offset + b0.len() + b1.len());
                let b3 = self.cell_vol.cdr_bytes(offset + b0.len() + b1.len() + b2.len());
                let b4 = self.bmsvoltage.cdr_bytes(offset + b0.len() + b1.len() + b2.len() + b3.len());
                let b5 = self.current.cdr_bytes(offset + b0.len() + b1.len() + b2.len() + b3.len() + b4.len());
                let b6 = self.soc.cdr_bytes(offset + b0.len() + b1.len() + b2.len() + b3.len() + b4.len() + b5.len());
                let b7 = self.soh.cdr_bytes(offset + b0.len() + b1.len() + b2.len() + b3.len() + b4.len() + b5.len() + b6.len());
                let b8 = self.temperature.cdr_bytes(offset + b0.len() + b1.len() + b2.len() + b3.len() + b4.len() + b5.len() + b6.len() + b7.len());
                let b9 = self.cycle.cdr_bytes(offset + b0.len() + b1.len() + b2.len() + b3.len() + b4.len() + b5.len() + b6.len() + b7.len() + b8.len());
                let b10 = self.manufacturer_date.cdr_bytes(offset + b0.len() + b1.len() + b2.len() + b3.len() + b4.len() + b5.len() + b6.len() + b7.len() + b8.len() + b9.len());
                let b11 = self.bmsstate.cdr_bytes(offset + b0.len() + b1.len() + b2.len() + b3.len() + b4.len() + b5.len() + b6.len() + b7.len() + b8.len() + b9.len() + b10.len());
                let b12 = self.reserve.cdr_bytes(offset + b0.len() + b1.len() + b2.len() + b3.len() + b4.len() + b5.len() + b6.len() + b7.len() + b8.len() + b9.len() + b10.len() + b11.len());
                b0 + (b1 + (b2 + (b3 + (b4 + (b5 + (b6 + (b7 + (b8 + (b9 + (b10 + (b11 + b12)))))))))))
            },
            self.deep_view() == (self.version_high.deep_view(), (self.version_low.deep_view(), (self.fn_.deep_view(), (self.cell_vol.deep_view(), (self.bmsvoltage.deep_view(), (self.current.deep_view(), (self.soc.deep_view(), (self.soh.deep_view(), (self.temperature.deep_view(), (self.cycle.deep_view(), (self.manufacturer_date.deep_view(), (self.bmsstate.deep_view(), self.reserve.deep_view())))))))))))),
    {
    }
}

impl DdsType for BmsState {
    const TYPE_NAME: &'static str = "unitree_hg::msg::dds_::BmsState_";
    const IS_KEYLESS: bool = true;
}

impl DdsPod for BmsState {
    const DESCRIPTOR_SYMBOL: &'static str = "unitree_hg_msg_dds__BmsState__desc";
}

// ---------------------------------------------------------------------------
// HandCmd
// ---------------------------------------------------------------------------

/// `unitree_hg/HandCmd`: commands for the motors of a hand.
#[derive(Debug, Clone, PartialEq)]
pub struct HandCmd {
    pub motor_cmd: Vec<MotorCmd>,
    pub reserve: [u32; 4],
}

/// The fields of [`HandCmd`] as nested pairs, in wire order.
pub type HandCmdFields = (Vec<MotorCmd>, [u32; 4]);

impl HandCmd {
    /// The fields as nested pairs, in wire order.
    pub open spec fn fields(self) -> HandCmdFields {
        (self.motor_cmd, self.reserve)
    }

    /// Every field is zero (strings and sequences empty).
    pub open spec fn is_zeroed(&self) -> bool {
        &&& self.motor_cmd@.len() == 0
        &&& (forall|i: int| 0 <= i < 4 ==> #[trigger] self.reserve@[i] == 0)
    }
}

impl DeepView for HandCmd {
    type V = <HandCmdFields as DeepView>::V;

    open spec fn deep_view(&self) -> Self::V {
        self.fields().deep_view()
    }
}

impl Default for HandCmd {
    fn default() -> (v: Self)
        ensures
            v.is_zeroed(),
    {
        HandCmd {
            motor_cmd: Vec::new(),
            reserve: [0u32; 4],
        }
    }
}

impl CdrSerialize for HandCmd {
    open spec fn cdr_bytes(&self, offset: nat) -> Seq<u8> {
        self.fields().cdr_bytes(offset)
    }

    fn serialize(&self, s: &mut CdrSerializer) {
        self.motor_cmd.serialize(s);
        self.reserve.serialize(s);
        assert(s@ =~= old(s)@ + self.cdr_bytes(old(s)@.len()));
    }
}

impl CdrDeserialize for HandCmd {
    open spec fn cdr_read(body: Seq<u8>, offset: nat) -> (Result<Self::V, CdrError>, nat) {
        HandCmdFields::cdr_read(body, offset)
    }

    fn deserialize(d: &mut CdrDeserializer<'_>) -> (r: Result<Self, CdrError>) {
        let (motor_cmd, reserve) = HandCmdFields::deserialize(d)?;
        Ok(HandCmd { motor_cmd, reserve })
    }

    open spec fn cdr_nonempty() -> bool {
        HandCmdFields::cdr_nonempty()
    }

    fn is_cdr_nonempty() -> (b: bool) {
        HandCmdFields::is_cdr_nonempty()
    }

    proof fn lemma_cdr_read_extends(body: Seq<u8>, offset: nat, ext: Seq<u8>) {
        HandCmdFields::lemma_cdr_read_extends(body, offset, ext);
    }
}

impl CdrRoundTrip for HandCmd {
    open spec fn cdr_encodable(&self) -> bool {
        self.fields().cdr_encodable()
    }

    proof fn lemma_cdr_bytes_nonempty(&self, offset: nat) {
        self.fields().lemma_cdr_bytes_nonempty(offset);
    }

    proof fn lemma_cdr_roundtrip(&self, prefix: Seq<u8>, rest: Seq<u8>) {
        self.fields().lemma_cdr_roundtrip(prefix, rest);
    }
}

impl HandCmd {
    /// The encoding follows the `.msg` declaration order: `motor_cmd`, `reserve`, each
    /// written where the one before it ends; and a read value lists the fields
    /// in that order.
    pub proof fn lemma_declaration_order(&self, offset: nat)
        ensures
            self.cdr_bytes(offset) == {
                let b0 = self.motor_cmd.cdr_bytes(offset);
                let b1 = self.reserve.cdr_bytes(offset + b0.len());
                b0 + b1
            },
            self.deep_view() == (self.motor_cmd.deep_view(), self.reserve.deep_view()),
    {
    }
}

impl DdsType for HandCmd {
    const TYPE_NAME: &'static str = "unitree_hg::msg::dds_::HandCmd_";
    const IS_KEYLESS: bool = true;
}

// ---------------------------------------------------------------------------
// HandState
// ---------------------------------------------------------------------------

/// `unitree_hg/HandState`: the state of a hand.
#[derive(Debug, Clone, PartialEq)]
pub struct HandState {
    pub motor_state: Vec<MotorState>,
    pub press_sensor_state: Vec<PressSensorState>,
    pub imu_state: IMUState,
    /// `float32` bits.
    pub power_v: u32,
    /// `float32` bits.
    pub power_a: u32,
    /// `float32` bits.
    pub system_v: u32,
    /// `float32` bits.
    pub device_v: u32,
    pub error: [u32; 2],
    pub reserve: [u32; 2],
}

/// The fields of [`HandState`] as nested pairs, in wire order.
pub type HandStateFields = (Vec<MotorState>, (Vec<PressSensorState>, (IMUState, (u32, (u32, (u32, (u32, ([u32; 2], [u32; 2]))))))));

impl HandState {
    /// The fields as nested pairs, in wire order.
    pub open spec fn fields(self) -> HandStateFields {
        (self.motor_state, (self.press_sensor_state, (self.imu_state, (self.power_v, (self.power_a, (self.system_v, (self.device_v, (self.error, self.reserve))))))))
    }

    /// Every field is zero (strings and sequences empty).
    pub open spec fn is_zeroed(&self) -> bool {
        &&& self.motor_state@.len() == 0
        &&& self.press_sensor_state@.len() == 0
        &&& self.imu_state.is_zeroed()
        &&& self.power_v == 0
        &&& self.power_a == 0
        &&& self.system_v == 0
        &&& self.device_v == 0
        &&& (forall|i: int| 0 <= i < 2 ==> #[trigger] self.error@[i] == 0)
        &&& (forall|i: int| 0 <= i < 2 ==> #[trigger] self.reserve@[i] == 0)
    }
}

impl DeepView for HandState {
    type V = <HandStateFields as DeepView>::V;

    open spec fn deep_view(&self) -> Self::V {
        self.fields().deep_view()
    }
}

impl Default for HandState {
    fn default() -> (v: Self)
        ensures
            v.is_zeroed(),
    {
        HandState {
            motor_state: Vec::new(),
            press_sensor_state: Vec::new(),
            imu_state: IMUState::default(),
            power_v: 0,
            power_a: 0,
            system_v: 0,
            device_v: 0,
            error: [0u32; 2],
            reserve: [0u32; 2],
        }
    }
}

impl CdrSerialize for HandState {
    open spec fn cdr_bytes(&self, offset: nat) -> Seq<u8> {
        self.fields().cdr_bytes(offset)
    }

    fn serialize(&self, s: &mut CdrSerializer) {
        self.motor_state.serialize(s);
        self.press_sensor_state.serialize(s);
        let t: (IMUState, (u32, (u32, (u32, (u32, ([u32; 2], [u32; 2])))))) = (self.imu_state, (self.power_v, (self.power_a, (self.system_v, (self.device_v, (self.error, self.reserve))))));
        t.serialize(s);
        assert(s@ =~= old(s)@ + self.cdr_bytes(old(s)@.len()));
    }
}

impl CdrDeserialize for HandState {
    open spec fn cdr_read(body: Seq<u8>, offset: nat) -> (Result<Self::V, CdrError>, nat) {
        HandStateFields::cdr_read(body, offset)
    }

    fn deserialize(d: &mut CdrDeserializer<'_>) -> (r: Result<Self, CdrError>) {
        let (motor_state, (press_sensor_state, (imu_state, (power_v, (power_a, (system_v, (device_v, (error, reserve)))))))) = HandStateFields::deserialize(d)?;
        Ok(HandState { motor_state, press_sensor_state, imu_state, power_v, power_a, system_v, device_v, error, reserve })
    }

    open spec fn cdr_nonempty() -> bool {
        HandStateFields::cdr_nonempty()
    }

    fn is_cdr_nonempty() -> (b: bool) {
        HandStateFields::is_cdr_nonempty()
    }

    proof fn lemma_cdr_read_extends(body: Seq<u8>, offset: nat, ext: Seq<u8>) {
        HandStateFields::lemma_cdr_read_extends(body, offset, ext);
    }
}

impl CdrRoundTrip for HandState {
    open spec fn cdr_encodable(&self) -> bool {
        self.fields().cdr_encodable()
    }

    proof fn lemma_cdr_bytes_nonempty(&self, offset: nat) {
        self.fields().lemma_cdr_bytes_nonempty(offset);
    }

    proof fn lemma_cdr_roundtrip(&self, prefix: Seq<u8>, rest: Seq<u8>) {
        self.fields().lemma_cdr_roundtrip(prefix, rest);
    }
}

impl HandState {
    /// The encoding follows the `.msg` declaration order: `motor_state`, `press_sensor_state`, `imu_state`, `power_v`, `power_a`, `system_v`, `device_v`, `error`, `reserve`, each
    /// written where the one before it ends; and a read value lists the fields
    /// in that order.
    pub proof fn lemma_declaration_order(&self, offset: nat)
        ensures
            self.cdr_bytes(offset) == {
                let b0 = self.motor_state.cdr_bytes(offset);
                let b1 = self.press_sensor_state.cdr_bytes(offset + b0.len());
                let b2 = self.imu_state.cdr_bytes(offset + b0.len() + b1.len());
                let b3 = self.power_v.cdr_bytes(offset + b0.len() + b1.len() + b2.len());
                let b4 = self.power_a.cdr_bytes(offset + b0.len() + b1.len() + b2.len() + b3.len());
                let b5 = self.system_v.cdr_bytes(offset + b0.len() + b1.len() + b2.len() + b3.len() + b4.len());
                let b6 = self.device_v.cdr_bytes(offset + b0.len() + b1.len() + b2.len() + b3.len() + b4.len() + b5.len());
                let b7 = self.error.cdr_bytes(offset + b0.len() + b1.len() + b2.len() + b3.len() + b4.len() + b5.len() + b6.len());
                let b8 = self.reserve.cdr_bytes(offset + b0.len() + b1.len() + b2.len() + b3.len() + b4.len() + b5.len() + b6.len() + b7.len());
                b0 + (b1 + (b2 + (b3 + (b4 + (b5 + (b6 + (b7 + b8)))))))
            },
            self.deep_view() == (self.motor_state.deep_view(), (self.press_sensor_state.deep_view(), (self.imu_state.deep_view(), (self.power_v.deep_view(), (self.power_a.deep_view(), (self.system_v.deep_view(), (self.device_v.deep_view(), (self.error.deep_view(), self.reserve.deep_view())))))))),
    {
    }
}

impl DdsType for HandState {
    const TYPE_NAME: &'static str = "unitree_hg::msg::dds_::HandState_";
    const IS_KEYLESS: bool = true;
}

// ---------------------------------------------------------------------------
// LowCmd
// ---------------------------------------------------------------------------

/// `unitree_hg/LowCmd`: the low-level command of a humanoid.
#[derive(Debug, Clone, Copy, PartialEq)]
pub struct LowCmd {
    pub mode_pr: u8,
    pub mode_machine: u8,
    pub motor_cmd: [MotorCmd; 35],
    pub reserve: [u32; 4],
    pub crc: u32,
}

/// The fields of [`LowCmd`] as nested pairs, in wire order.
pub type LowCmdFields = (u8, (u8, ([MotorCmd; 35], ([u32; 4], u32))));

impl LowCmd {
    /// The fields as nested pairs, in wire order.
    pub open spec fn fields(self) -> LowCmdFields {
        (self.mode_pr, (self.mode_machine, (self.motor_cmd, (self.reserve, self.crc))))
    }

    /// Every field is zero (strings and sequences empty).
    pub open spec fn is_zeroed(&self) -> bool {
        &&& self.mode_pr == 0
        &&& self.mode_machine == 0
        &&& (forall|i: int| 0 <= i < 35 ==> (#[trigger] self.motor_cmd@[i]).is_zeroed())
        &&& (forall|i: int| 0 <= i < 4 ==> #[trigger] self.reserve@[i] == 0)
        &&& self.crc == 0
    }
}

impl DeepView for LowCmd {
    type V = <LowCmdFields as DeepView>::V;

    open spec fn deep_view(&self) -> Self::V {
        self.fields().deep_view()
    }
}

impl Default for LowCmd {
    fn default() -> (v: Self)
        ensures
            v.is_zeroed(),
    {
        LowCmd {
            mode_pr: 0,
            mode_machine: 0,
            motor_cmd: [MotorCmd::default(); 35],
            reserve: [0u32; 4],
            crc: 0,
        }
    }
}

impl CdrSerialize for LowCmd {
    open spec fn cdr_bytes(&self, offset: nat) -> Seq<u8> {
        self.fields().cdr_bytes(offset)
    }

    fn serialize(&self, s: &mut CdrSerializer) {
        let t: LowCmdFields = (self.mode_pr, (self.mode_machine, (self.motor_cmd, (self.reserve, self.crc))));
        t.serialize(s);
    }
}

impl CdrDeserialize for LowCmd {
    open spec fn cdr_read(body: Seq<u8>, offset: nat) -> (Result<Self::V, CdrError>, nat) {
        LowCmdFields::cdr_read(body, offset)
    }

    fn deserialize(d: &mut CdrDeserializer<'_>) -> (r: Result<Self, CdrError>) {
        let (mode_pr, (mode_machine, (motor_cmd, (reserve, crc)))) = LowCmdFields::deserialize(d)?;
        Ok(LowCmd { mode_pr, mode_machine, motor_cmd, reserve, crc })
    }

    open spec fn cdr_nonempty() -> bool {
        LowCmdFields::cdr_nonempty()
    }

    fn is_cdr_nonempty() -> (b: bool) {
        LowCmdFields::is_cdr_nonempty()
    }

    proof fn lemma_cdr_read_extends(body: Seq<u8>, offset: nat, ext: Seq<u8>) {
        LowCmdFields::lemma_cdr_read_extends(body, offset, ext);
    }
}

impl CdrRoundTrip for LowCmd {
    open spec fn cdr_encodable(&self) -> bool {
        self.fields().cdr_encodable()
    }

    proof fn lemma_cdr_bytes_nonempty(&self, offset: nat) {
        self.fields().lemma_cdr_bytes_nonempty(offset);
    }

    proof fn lemma_cdr_roundtrip(&self, prefix: Seq<u8>, rest: Seq<u8>) {
        self.fields().lemma_cdr_roundtrip(prefix, rest);
    }
}

impl LowCmd {
    /// The encoding follows the `.msg` declaration order: `mode_pr`, `mode_machine`, `motor_cmd`, `reserve`, `crc`, each
    /// written where the one before it ends; and a read value lists the fields
    /// in that order.
    pub proof fn lemma_declaration_order(&self, offset: nat)
        ensures
            self.cdr_bytes(offset) == {
                let b0 = self.mode_pr.cdr_bytes(offset);
                let b1 = self.mode_machine.cdr_bytes(offset + b0.len());
                let b2 = self.motor_cmd.cdr_bytes(offset + b0.len() + b1.len());
                let b3 = self.reserve.cdr_bytes(offset + b0.len() + b1.len() + b2.len());
                let b4 = self.crc.cdr_bytes(offset + b0.len() + b1.len() + b2.len() + b3.len());
                b0 + (b1 + (b2 + (b3 + b4)))
            },
            self.deep_view() == (self.mode_pr.deep_view(), (self.mode_machine.deep_view(), (self.motor_cmd.deep_view(), (self.reserve.deep_view(), self.crc.deep_view())))),
    {
    }
}

impl DdsType for LowCmd {
    const TYPE_NAME: &'static str = "unitree_hg::msg::dds_::LowCmd_";
    const IS_KEYLESS: bool = true;
}

impl DdsPod for LowCmd {
    const DESCRIPTOR_SYMBOL: &'static str = "unitree_hg_msg_dds__LowCmd__desc";
}

// ---------------------------------------------------------------------------
// LowState
// ---------------------------------------------------------------------------

/// `unitree_hg/LowState`: the low-level state of a humanoid.
#[derive(Debug, Clone, Copy, PartialEq)]
pub struct LowState {
    pub version: [u32; 2],
    pub mode_pr: u8,
    pub mode_machine: u8,
    pub tick: u32,
    pub imu_state: IMUState,
    pub motor_state: [MotorState; 35],
    pub wireless_remote: [u8; 40],
    pub reserve: [u32; 4],
    pub crc: u32,
}

/// The fields of [`LowState`] as nested pairs, in wire order.
pub type LowStateFields = ([u32; 2], (u8, (u8, (u32, (IMUState, ([MotorState; 35], ([u8; 40], ([u32; 4], u32))))))));

impl LowState {
    /// The fields as nested pairs, in wire order.
    pub open spec fn fields(self) -> LowStateFields {
        (self.version, (self.mode_pr, (self.mode_machine, (self.tick, (self.imu_state, (self.motor_state, (self.wireless_remote, (self.reserve, self.crc))))))))
    }

    /// Every field is zero (strings and sequences empty).
    pub open spec fn is_zeroed(&self) -> bool {
        &&& (forall|i: int| 0 <= i < 2 ==> #[trigger] self.version@[i] == 0)
        &&& self.mode_pr == 0
        &&& self.mode_machine == 0
        &&& self.tick == 0
        &&& self.imu_state.is_zeroed()
        &&& (forall|i: int| 0 <= i < 35 ==> (#[trigger] self.motor_state@[i]).is_zeroed())
        &&& (forall|i: int| 0 <= i < 40 ==> #[trigger] self.wireless_remote@[i] == 0)
        &&& (forall|i: int| 0 <= i < 4 ==> #[trigger] self.reserve@[i] == 0)
        &&& self.crc == 0
    }
}

impl DeepView for LowState {
    type V = <LowStateFields as DeepView>::V;

    open spec fn deep_view(&self) -> Self::V {
        self.fields().deep_view()
    }
}

impl Default for LowState {
    fn default() -> (v: Self)
        ensures
            v.is_zeroed(),
    {
        LowState {
            version: [0u32; 2],
            mode_pr: 0,
            mode_machine: 0,
            tick: 0,
            imu_state: IMUState::default(),
            motor_state: [MotorState::default(); 35],
            wireless_remote: [0u8; 40],
            reserve: [0u32; 4],
            crc: 0,
        }
    }
}

impl CdrSerialize for LowState {
    open spec fn cdr_bytes(&self, offset: nat) -> Seq<u8> {
        self.fields().cdr_bytes(offset)
    }

    fn serialize(&self, s: &mut CdrSerializer) {
        let t: LowStateFields = (self.version, (self.mode_pr, (self.mode_machine, (self.tick, (self.imu_state, (self.motor_state, (self.wireless_remote, (self.reserve, self.crc))))))));
        t.serialize(s);
    }
}

impl CdrDeserialize for LowState {
    open spec fn cdr_read(body: Seq<u8>, offset: nat) -> (Result<Self::V, CdrError>, nat) {
        LowStateFields::cdr_read(body, offset)
    }

    fn deserialize(d: &mut CdrDeserializer<'_>) -> (r: Result<Self, CdrError>) {
        let (version, (mode_pr, (mode_machine, (tick, (imu_state, (motor_state, (wireless_remote, (reserve, crc)))))))) = LowStateFields::deserialize(d)?;
        Ok(LowState { version, mode_pr, mode_machine, tick, imu_state, motor_state, wireless_remote, reserve, crc })
    }

    open spec fn cdr_nonempty() -> bool {
        LowStateFields::cdr_nonempty()
    }

    fn is_cdr_nonempty() -> (b: bool) {
        LowStateFields::is_cdr_nonempty()
    }

    proof fn lemma_cdr_read_extends(body: Seq<u8>, offset: nat, ext: Seq<u8>) {
        LowStateFields::lemma_cdr_read_extends(body, offset, ext);
    }
}

impl CdrRoundTrip for LowState {
    open spec fn cdr_encodable(&self) -> bool {
        self.fields().cdr_encodable()
    }

    proof fn lemma_cdr_bytes_nonempty(&self, offset: nat) {
        self.fields().lemma_cdr_bytes_nonempty(offset);
    }

    proof fn lemma_cdr_roundtrip(&self, prefix: Seq<u8>, rest: Seq<u8>) {
        self.fields().lemma_cdr_roundtrip(prefix, rest);
    }
}

impl LowState {
    /// The encoding follows the `.msg` declaration order: `version`, `mode_pr`, `mode_machine`, `tick`, `imu_state`, `motor_state`, `wireless_remote`, `reserve`, `crc`, each
    /// written where the one before it ends; and a read value lists the fields
    /// in that order.
    pub proof fn lemma_declaration_order(&self, offset: nat)
        ensures
            self.cdr_bytes(offset) == {
                let b0 = self.version.cdr_bytes(offset);
                let b1 = self.mode_pr.cdr_bytes(offset + b0.len());
                let b2 = self.mode_machine.cdr_bytes(offset + b0.len() + b1.len());
                let b3 = self.tick.cdr_bytes(offset + b0.len() + b1.len() + b2.len());
                let b4 = self.imu_state.cdr_bytes(offset + b0.len() + b1.len() + b2.len() + b3.len());
                let b5 = self.motor_state.cdr_bytes(offset + b0.len() + b1.len() + b2.len() + b3.len() + b4.len());
                let b6 = self.wireless_remote.cdr_bytes(offset + b0.len() + b1.len() + b2.len() + b3.len() + b4.len() + b5.len());
                let b7 = self.reserve.cdr_bytes(offset + b0.len() + b1.len() + b2.len() + b3.len() + b4.len() + b5.len() + b6.len());
                let b8 = self.crc.cdr_bytes(offset + b0.len() + b1.len() + b2.len() + b3.len() + b4.len() + b5.len() + b6.len() + b7.len());
                b0 + (b1 + (b2 + (b3 + (b4 + (b5 + (b6 + (b7 + b8)))))))
            },
            self.deep_view() == (self.version.deep_view(), (self.mode_pr.deep_view(), (self.mode_machine.deep_view(), (self.tick.deep_view(), (self.imu_state.deep_view(), (self.motor_state.deep_view(), (self.wireless_remote.deep_view(), (self.reserve.deep_view(), self.crc.deep_view())))))))),
    {
    }
}

impl DdsType for LowState {
    const TYPE_NAME: &'static str = "unitree_hg::msg::dds_::LowState_";
    const IS_KEYLESS: bool = true;
}

impl DdsPod for LowState {
    const DESCRIPTOR_SYMBOL: &'static str = "unitree_hg_msg_dds__LowState__desc";
}

// ---------------------------------------------------------------------------
// MainBoardState
// ---------------------------------------------------------------------------

/// `unitree_hg/MainBoardState`: fans, temperatures and values of the main board.
#[derive(Debug, Clone, Copy, PartialEq)]
pub struct MainBoardState {
    pub fan_state: [u16; 6],
    pub temperature: [i16; 6],
    /// `float32` bits, each.
    pub value: [u32; 6],
    pub state: [u32; 6],
}

/// The fields of [`MainBoardState`] as nested pairs, in wire order.
pub type MainBoardStateFields = ([u16; 6], ([i16; 6], ([u32; 6], [u32; 6])));

impl MainBoardState {
    /// The fields as nested pairs, in wire order.
    pub open spec fn fields(self) -> MainBoardStateFields {
        (self.fan_state, (self.temperature, (self.value, self.state)))
    }

    /// Every field is zero (strings and sequences empty).
    pub open spec fn is_zeroed(&self) -> bool {
        &&& (forall|i: int| 0 <= i < 6 ==> #[trigger] self.fan_state@[i] == 0)
        &&& (forall|i: int| 0 <= i < 6 ==> #[trigger] self.temperature@[i] == 0)
        &&& (forall|i: int| 0 <= i < 6 ==> #[trigger] self.value@[i] == 0)
        &&& (forall|i: int| 0 <= i < 6 ==> #[trigger] self.state@[i] == 0)
    }
}

impl DeepView for MainBoardState {
    type V = <MainBoardStateFields as DeepView>::V;

    open spec fn deep_view(&self) -> Self::V {
        self.fields().deep_view()
    }
}

impl Default for MainBoardState {
    fn default() -> (v: Self)
        ensures
            v.is_zeroed(),
    {
        MainBoardState {
            fan_state: [0u16; 6],
            temperature: [0i16; 6],
            value: [0u32; 6],
            state: [0u32; 6],
        }
    }
}

impl CdrSerialize for MainBoardState {
    open spec fn cdr_bytes(&self, offset: nat) -> Seq<u8> {
        self.fields().cdr_bytes(offset)
    }

    fn serialize(&self, s: &mut CdrSerializer) {
        let t: MainBoardStateFields = (self.fan_state, (self.temperature, (self.value, self.state)));
        t.serialize(s);
    }
}

impl CdrDeserialize for MainBoardState {
    open spec fn cdr_read(body: Seq<u8>, offset: nat) -> (Result<Self::V, CdrError>, nat) {
        MainBoardStateFields::cdr_read(body, offset)
    }

    fn deserialize(d: &mut CdrDeserializer<'_>) -> (r: Result<Self, CdrError>) {
        let (fan_state, (temperature, (value, state))) = MainBoardStateFields::deserialize(d)?;
        Ok(MainBoardState { fan_state, temperature, value, state })
    }

    open spec fn cdr_nonempty() -> bool {
        MainBoardStateFields::cdr_nonempty()
    }

    fn is_cdr_nonempty() -> (b: bool) {
        MainBoardStateFields::is_cdr_nonempty()
    }

    proof fn lemma_cdr_read_extends(body: Seq<u8>, offset: nat, ext: Seq<u8>) {
        MainBoardStateFields::lemma_cdr_read_extends(body, offset, ext);
    }
}

impl CdrRoundTrip for MainBoardState {
    open spec fn cdr_encodable(&self) -> bool {
        self.fields().cdr_encodable()
    }

    proof fn lemma_cdr_bytes_nonempty(&self, offset: nat) {
        self.fields().lemma_cdr_bytes_nonempty(offset);
    }

    proof fn lemma_cdr_roundtrip(&self, prefix: Seq<u8>, rest: Seq<u8>) {
        self.fields().lemma_cdr_roundtrip(prefix, rest);
    }
}

impl MainBoardState {
    /// The encoding follows the `.msg` declaration order: `fan_state`, `temperature`, `value`, `state`, each
    /// written where the one before it ends; and a read value lists the fields
    /// in that order.
    pub proof fn lemma_declaration_order(&self, offset: nat)
        ensures
            self.cdr_bytes(offset) == {
                let b0 = self.fan_state.cdr_bytes(offset);
                let b1 = self.temperature.cdr_bytes(offset + b0.len());
                let b2 = self.value.cdr_bytes(offset + b0.len() + b1.len());
                let b3 = self.state.cdr_bytes(offset + b0.len() + b1.len() + b2.len());
                b0 + (b1 + (b2 + b3))
            },
            self.deep_view() == (self.fan_state.deep_view(), (self.temperature.deep_view(), (self.value.deep_view(), self.state.deep_view()))),
    {
    }
}

impl DdsType for MainBoardState {
    const TYPE_NAME: &'static str = "unitree_hg::msg::dds_::MainBoardState_";
    const IS_KEYLESS: bool = true;
}

impl DdsPod for MainBoardState {
    const DESCRIPTOR_SYMBOL: &'static str = "unitree_hg_msg_dds__MainBoardState__desc";
}

} // verus!
