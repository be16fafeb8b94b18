//! `unitree_go` message types (Go2 / quadrupeds).
//!
//! Each struct mirrors its `.msg` field for field. A `float32` / `float64`
//! field is held as its IEEE-754 bit pattern (`u32` / `u64`): the encoding
//! only ever moves those bits, and the CRC of [`LowCmd`](crate::lowcmd) is
//! computed over them. Callers convert with `f32::to_bits` / `f32::from_bits`.
//!
//! The encoding of each struct is the encoding of the nested pair of its
//! fields in declaration order, so the [`CdrRoundTrip`] law of each struct
//! follows from the law of pairs.

use vstd::prelude::*;
use crate::cdr::{CdrDeserialize, CdrDeserializer, CdrError, CdrRoundTrip, CdrSerialize, CdrSerializer};
use crate::msgs::{DdsPod, DdsType};

verus! {

// ---------------------------------------------------------------------------
// MotorCmd
// ---------------------------------------------------------------------------

/// `unitree_go/MotorCmd`: one motor's command.
#[derive(Debug, Clone, Copy, PartialEq)]
pub struct MotorCmd {
    pub mode: u8,
    /// `float32` bits.
    pub q: u32,
    /// `float32` bits.
    pub dq: u32,
    /// `float32` bits.
    pub tau: u32,
    /// `float32` bits.
    pub kp: u32,
    /// `float32` bits.
    pub kd: u32,
    pub reserve: [u32; 3],
}

/// The fields of [`MotorCmd`] as nested pairs, in wire order.
pub type MotorCmdFields = (u8, (u32, (u32, (u32, (u32, (u32, [u32; 3]))))));

impl MotorCmd {
    /// The fields as nested pairs, in wire order.
    pub open spec fn fields(self) -> MotorCmdFields {
        (self.mode, (self.q, (self.dq, (self.tau, (self.kp, (self.kd, self.reserve))))))
    }

    /// Every field is zero (strings and sequences empty).
    pub open spec fn is_zeroed(&self) -> bool {
        &&& self.mode == 0
        &&& self.q == 0
        &&& self.dq == 0
        &&& self.tau == 0
        &&& self.kp == 0
        &&& self.kd == 0
        &&& (forall|i: int| 0 <= i < 3 ==> #[trigger] self.reserve@[i] == 0)
    }
}

impl DeepView for MotorCmd {
    type V = <MotorCmdFields as DeepView>::V;

    open spec fn deep_view(&self) -> Self::V {
        self.fields().deep_view()
    }
}

impl Default for MotorCmd {
    fn default() -> (v: Self)
        ensures
            v.is_zeroed(),
    {
        MotorCmd {
            mode: 0,
            q: 0,
            dq: 0,
            tau: 0,
            kp: 0,
            kd: 0,
            reserve: [0u32; 3],
        }
    }
}

impl CdrSerialize for MotorCmd {
    open spec fn cdr_bytes(&self, offset: nat) -> Seq<u8> {
        self.fields().cdr_bytes(offset)
    }

    fn serialize(&self, s: &mut CdrSerializer) {
        let t: MotorCmdFields = (self.mode, (self.q, (self.dq, (self.tau, (self.kp, (self.kd, self.reserve))))));
        t.serialize(s);
    }
}

impl CdrDeserialize for MotorCmd {
    open spec fn cdr_read(body: Seq<u8>, offset: nat) -> (Result<Self::V, CdrError>, nat) {
        MotorCmdFields::cdr_read(body, offset)
    }

    fn deserialize(d: &mut CdrDeserializer<'_>) -> (r: Result<Self, CdrError>) {
        let (mode, (q, (dq, (tau, (kp, (kd, reserve)))))) = MotorCmdFields::deserialize(d)?;
        Ok(MotorCmd { mode, q, dq, tau, kp, kd, reserve })
    }

    open spec fn cdr_nonempty() -> bool {
        MotorCmdFields::cdr_nonempty()
    }

    fn is_cdr_nonempty() -> (b: bool) {
        MotorCmdFields::is_cdr_nonempty()
    }

    proof fn lemma_cdr_read_extends(body: Seq<u8>, offset: nat, ext: Seq<u8>) {
        MotorCmdFields::lemma_cdr_read_extends(body, offset, ext);
    }
}

impl CdrRoundTrip for MotorCmd {
    open spec fn cdr_encodable(&self) -> bool {
        self.fields().cdr_encodable()
    }

    proof fn lemma_cdr_bytes_nonempty(&self, offset: nat) {
        self.fields().lemma_cdr_bytes_nonempty(offset);
    }

    proof fn lemma_cdr_roundtrip(&self, prefix: Seq<u8>, rest: Seq<u8>) {
        self.fields().lemma_cdr_roundtrip(prefix, rest);
    }
}

impl MotorCmd {
    /// The encoding follows the `.msg` declaration order: `mode`, `q`, `dq`, `tau`, `kp`, `kd`, `reserve`, each
    /// written where the one before it ends; and a read value lists the fields
    /// in that order.
    pub proof fn lemma_declaration_order(&self, offset: nat)
        ensures
            self.cdr_bytes(offset) == {
                let b0 = self.mode.cdr_bytes(offset);
                let b1 = self.q.cdr_bytes(offset + b0.len());
                let b2 = self.dq.cdr_bytes(offset + b0.len() + b1.len());
                let b3 = self.tau.cdr_bytes(offset + b0.len() + b1.len() + b2.len());
                let b4 = self.kp.cdr_bytes(offset + b0.len() + b1.len() + b2.len() + b3.len());
                let b5 = self.kd.cdr_bytes(offset + b0.len() + b1.len() + b2.len() + b3.len() + b4.len());
                let b6 = self.reserve.cdr_bytes(offset + b0.len() + b1.len() + b2.len() + b3.len() + b4.len() + b5.len());
                b0 + (b1 + (b2 + (b3 + (b4 + (b5 + b6)))))
            },
            self.deep_view() == (self.mode.deep_view(), (self.q.deep_view(), (self.dq.deep_view(), (self.tau.deep_view(), (self.kp.deep_view(), (self.kd.deep_view(), self.reserve.deep_view())))))),
    {
    }
}

impl DdsType for MotorCmd {
    const TYPE_NAME: &'static str = "unitree_go::msg::dds_::MotorCmd_";
    const IS_KEYLESS: bool = true;
}

impl DdsPod for MotorCmd {
    const DESCRIPTOR_SYMBOL: &'static str = "unitree_go_msg_dds__MotorCmd__desc";
}

// ---------------------------------------------------------------------------
// BmsCmd
// ---------------------------------------------------------------------------

/// `unitree_go/BmsCmd`: battery management command.
#[derive(Debug, Clone, Copy, PartialEq)]
pub struct BmsCmd {
    pub off: u8,
    pub reserve: [u8; 3],
}

/// The fields of [`BmsCmd`] as nested pairs, in wire order.
pub type BmsCmdFields = (u8, [u8; 3]);

impl BmsCmd {
    /// The fields as nested pairs, in wire order.
    pub open spec fn fields(self) -> BmsCmdFields {
        (self.off, self.reserve)
    }

    /// Every field is zero (strings and sequences empty).
    pub open spec fn is_zeroed(&self) -> bool {
        &&& self.off == 0
        &&& (forall|i: int| 0 <= i < 3 ==> #[trigger] self.reserve@[i] == 0)
    }
}

impl DeepView for BmsCmd {
    type V = <BmsCmdFields as DeepView>::V;

    open spec fn deep_view(&self) -> Self::V {
        self.fields().deep_view()
    }
}

impl Default for BmsCmd {
    fn default() -> (v: Self)
        ensures
            v.is_zeroed(),
    {
        BmsCmd {
            off: 0,
            reserve: [0u8; 3],
        }
    }
}

impl CdrSerialize for BmsCmd {
    open spec fn cdr_bytes(&self, offset: nat) -> Seq<u8> {
        self.fields().cdr_bytes(offset)
    }

    fn serialize(&self, s: &mut CdrSerializer) {
        let t: BmsCmdFields = (self.off, self.reserve);
        t.serialize(s);
    }
}

impl CdrDeserialize for BmsCmd {
    open spec fn cdr_read(body: Seq<u8>, offset: nat) -> (Result<Self::V, CdrError>, nat) {
        BmsCmdFields::cdr_read(body, offset)
    }

    fn deserialize(d: &mut CdrDeserializer<'_>) -> (r: Result<Self, CdrError>) {
        let (off, reserve) = BmsCmdFields::deserialize(d)?;
        Ok(BmsCmd { off, reserve })
    }

    open spec fn cdr_nonempty() -> bool {
        BmsCmdFields::cdr_nonempty()
    }

    fn is_cdr_nonempty() -> (b: bool) {
        BmsCmdFields::is_cdr_nonempty()
    }

    proof fn lemma_cdr_read_extends(body: Seq<u8>, offset: nat, ext: Seq<u8>) {
        BmsCmdFields::lemma_cdr_read_extends(body, offset, ext);
    }
}

impl CdrRoundTrip for BmsCmd {
    open spec fn cdr_encodable(&self) -> bool {
        self.fields().cdr_encodable()
    }

    proof fn lemma_cdr_bytes_nonempty(&self, offset: nat) {
        self.fields().lemma_cdr_bytes_nonempty(offset);
    }

    proof fn lemma_cdr_roundtrip(&self, prefix: Seq<u8>, rest: Seq<u8>) {
        self.fields().lemma_cdr_roundtrip(prefix, rest);
    }
}

impl BmsCmd {
    /// The encoding follows the `.msg` declaration order: `off`, `reserve`, each
    /// written where the one before it ends; and a read value lists the fields
    /// in that order.
    pub proof fn lemma_declaration_order(&self, offset: nat)
        ensures
            self.cdr_bytes(offset) == {
                let b0 = self.off.cdr_bytes(offset);
                let b1 = self.reserve.cdr_bytes(offset + b0.len());
                b0 + b1
            },
            self.deep_view() == (self.off.deep_view(), self.reserve.deep_view()),
    {
    }
}

impl DdsType for BmsCmd {
    const TYPE_NAME: &'static str = "unitree_go::msg::dds_::BmsCmd_";
    const IS_KEYLESS: bool = true;
}

impl DdsPod for BmsCmd {
    const DESCRIPTOR_SYMBOL: &'static str = "unitree_go_msg_dds__BmsCmd__desc";
}

// ---------------------------------------------------------------------------
// LowCmd
// ---------------------------------------------------------------------------

/// `unitree_go/LowCmd`: the low-level command published on `rt/lowcmd`.
#[derive(Debug, Clone, Copy, PartialEq)]
pub struct LowCmd {
    pub head: [u8; 2],
    pub level_flag: u8,
    pub frame_reserve: u8,
    pub sn: [u32; 2],
    pub version: [u32; 2],
    pub bandwidth: u16,
    pub motor_cmd: [MotorCmd; 20],
    pub bms_cmd: BmsCmd,
    pub wireless_remote: [u8; 40],
    pub led: [u8; 12],
    pub fan: [u8; 2],
    pub gpio: u8,
    pub reserve: u32,
    pub crc: u32,
}

/// The fields of [`LowCmd`] as nested pairs, in wire order.
pub type LowCmdFields = ([u8; 2], (u8, (u8, ([u32; 2], ([u32; 2], (u16, ([MotorCmd; 20], (BmsCmd, ([u8; 40], ([u8; 12], ([u8; 2], (u8, (u32, u32)))))))))))));

impl LowCmd {
    /// The fields as nested pairs, in wire order.
    pub open spec fn fields(self) -> LowCmdFields {
        (self.head, (self.level_flag, (self.frame_reserve, (self.sn, (self.version, (self.bandwidth, (self.motor_cmd, (self.bms_cmd, (self.wireless_remote, (self.led, (self.fan, (self.gpio, (self.reserve, self.crc)))))))))))))
    }

    /// Every field is zero (strings and sequences empty).
    pub open spec fn is_zeroed(&self) -> bool {
        &&& (forall|i: int| 0 <= i < 2 ==> #[trigger] self.head@[i] == 0)
        &&& self.level_flag == 0
        &&& self.frame_reserve == 0
        &&& (forall|i: int| 0 <= i < 2 ==> #[trigger] self.sn@[i] == 0)
        &&& (forall|i: int| 0 <= i < 2 ==> #[trigger] self.version@[i] == 0)
        &&& self.bandwidth == 0
        &&& (forall|i: int| 0 <= i < 20 ==> (#[trigger] self.motor_cmd@[i]).is_zeroed())
        &&& self.bms_cmd.is_zeroed()
        &&& (forall|i: int| 0 <= i < 40 ==> #[trigger] self.wireless_remote@[i] == 0)
        &&& (forall|i: int| 0 <= i < 12 ==> #[trigger] self.led@[i] == 0)
        &&& (forall|i: int| 0 <= i < 2 ==> #[trigger] self.fan@[i] == 0)
        &&& self.gpio == 0
        &&& self.reserve == 0
        &&& self.crc == 0
    }
}

impl DeepView for LowCmd {
    type V = <LowCmdFields as DeepView>::V;

    open spec fn deep_view(&self) -> Self::V {
        self.fields().deep_view()
    }
}

impl Default for LowCmd {
    fn default() -> (v: Self)
        ensures
            v.is_zeroed(),
    {
        LowCmd {
            head: [0u8; 2],
            level_flag: 0,
            frame_reserve: 0,
            sn: [0u32; 2],
            version: [0u32; 2],
            bandwidth: 0,
            motor_cmd: [MotorCmd::default(); 20],
            bms_cmd: BmsCmd::default(),
            wireless_remote: [0u8; 40],
            led: [0u8; 12],
            fan: [0u8; 2],
            gpio: 0,
            reserve: 0,
            crc: 0,
        }
    }
}

impl CdrSerialize for LowCmd {
    open spec fn cdr_bytes(&self, offset: nat) -> Seq<u8> {
        self.fields().cdr_bytes(offset)
    }

    fn serialize(&self, s: &mut CdrSerializer) {
        let t: LowCmdFields = (self.head, (self.level_flag, (self.frame_reserve, (self.sn, (self.version, (self.bandwidth, (self.motor_cmd, (self.bms_cmd, (self.wireless_remote, (self.led, (self.fan, (self.gpio, (self.reserve, self.crc)))))))))))));
        t.serialize(s);
    }
}

impl CdrDeserialize for LowCmd {
    open spec fn cdr_read(body: Seq<u8>, offset: nat) -> (Result<Self::V, CdrError>, nat) {
        LowCmdFields::cdr_read(body, offset)
    }

    fn deserialize(d: &mut CdrDeserializer<'_>) -> (r: Result<Self, CdrError>) {
        let (head, (level_flag, (frame_reserve, (sn, (version, (bandwidth, (motor_cmd, (bms_cmd, (wireless_remote, (led, (fan, (gpio, (reserve, crc))))))))))))) = LowCmdFields::deserialize(d)?;
        Ok(LowCmd { head, level_flag, frame_reserve, sn, version, bandwidth, motor_cmd, bms_cmd, wireless_remote, led, fan, gpio, reserve, crc })
    }

    open spec fn cdr_nonempty() -> bool {
        LowCmdFields::cdr_nonempty()
    }

    fn is_cdr_nonempty() -> (b: bool) {
        LowCmdFields::is_cdr_nonempty()
    }

    proof fn lemma_cdr_read_extends(body: Seq<u8>, offset: nat, ext: Seq<u8>) {
        LowCmdFields::lemma_cdr_read_extends(body, offset, ext);
    }
}

impl CdrRoundTrip for LowCmd {
    open spec fn cdr_encodable(&self) -> bool {
        self.fields().cdr_encodable()
    }

    proof fn lemma_cdr_bytes_nonempty(&self, offset: nat) {
        self.fields().lemma_cdr_bytes_nonempty(offset);
    }

    proof fn lemma_cdr_roundtrip(&self, prefix: Seq<u8>, rest: Seq<u8>) {
        self.fields().lemma_cdr_roundtrip(prefix, rest);
    }
}

impl LowCmd {
    /// The encoding follows the `.msg` declaration order: `head`, `level_flag`, `frame_reserve`, `sn`, `version`, `bandwidth`, `motor_cmd`, `bms_cmd`, `wireless_remote`, `led`, `fan`, `gpio`, `reserve`, `crc`, each
    /// written where the one before it ends; and a read value lists the fields
    /// in that order.
    pub proof fn lemma_declaration_order(&self, offset: nat)
        ensures
            self.cdr_bytes(offset) == {
                let b0 = self.head.cdr_bytes(offset);
                let b1 = self.level_flag.cdr_bytes(offset + b0.len());
                let b2 = self.frame_reserve.cdr_bytes(offset + b0.len() + b1.len());
                let b3 = self.sn.cdr_bytes(offset + b0.len() + b1.len() + b2.len());
                let b4 = self.version.cdr_bytes(offset + b0.len() + b1.len() + b2.len() + b3.len());
                let b5 = self.bandwidth.cdr_bytes(offset + b0.len() + b1.len() + b2.len() + b3.len() + b4.len());
                let b6 = self.motor_cmd.cdr_bytes(offset + b0.len() + b1.len() + b2.len() + b3.len() + b4.len() + b5.len());
                let b7 = self.bms_cmd.cdr_bytes(offset + b0.len() + b1.len() + b2.len() + b3.len() + b4.len() + b5.len() + b6.len());
                let b8 = self.wireless_remote.cdr_bytes(offset + b0.len() + b1.len() + b2.len() + b3.len() + b4.len() + b5.len() + b6.len() + b7.len());
                let b9 = self.led.cdr_bytes(offset + b0.len() + b1.len() + b2.len() + b3.len() + b4.len() + b5.len() + b6.len() + b7.len() + b8.len());
                let b10 = self.fan.cdr_bytes(offset + b0.len() + b1.len() + b2.len() + b3.len() + b4.len() + b5.len() + b6.len() + b7.len() + b8.len() + b9.len());
                let b11 = self.gpio.cdr_bytes(offset + b0.len() + b1.len() + b2.len() + b3.len() + b4.len() + b5.len() + b6.len() + b7.len() + b8.len() + b9.len() + b10.len());
                let b12 = self.reserve.cdr_bytes(offset + b0.len() + b1.len() + b2.len() + b3.len() + b4.len() + b5.len() + b6.len() + b7.len() + b8.len() + b9.len() + b10.len() + b11.len());
                let b13 = self.crc.cdr_bytes(offset + b0.len() + b1.len() + b2.len() + b3.len() + b4.len() + b5.len() + b6.len() + b7.len() + b8.len() + b9.len() + b10.len() + b11.len() + b12.len());
                b0 + (b1 + (b2 + (b3 + (b4 + (b5 + (b6 + (b7 + (b8 + (b9 + (b10 + (b11 + (b12 + b13))))))))))))
            },
            self.deep_view() == (self.head.deep_view(), (self.level_flag.deep_view(), (self.frame_reserve.deep_view(), (self.sn.deep_view(), (self.version.deep_view(), (self.bandwidth.deep_view(), (self.motor_cmd.deep_view(), (self.bms_cmd.deep_view(), (self.wireless_remote.deep_view(), (self.led.deep_view(), (self.fan.deep_view(), (self.gpio.deep_view(), (self.reserve.deep_view(), self.crc.deep_view()))))))))))))),
    {
    }
}

impl DdsType for LowCmd {
    const TYPE_NAME: &'static str = "unitree_go::msg::dds_::LowCmd_";
    const IS_KEYLESS: bool = true;
}

impl DdsPod for LowCmd {
    const DESCRIPTOR_SYMBOL: &'static str = "unitree_go_msg_dds__LowCmd__desc";
}

// ---------------------------------------------------------------------------
// TimeSpec
// ---------------------------------------------------------------------------

/// `unitree_go/TimeSpec`: seconds and nanoseconds.
#[derive(Debug, Clone, Copy, PartialEq)]
pub struct TimeSpec {
    pub sec: i32,
    pub nanosec: u32,
}

/// The fields of [`TimeSpec`] as nested pairs, in wire order.
pub type TimeSpecFields = (i32, u32);

impl TimeSpec {
    /// The fields as nested pairs, in wire order.
    pub open spec fn fields(self) -> TimeSpecFields {
        (self.sec, self.nanosec)
    }

    /// Every field is zero (strings and sequences empty).
    pub open spec fn is_zeroed(&self) -> bool {
        &&& self.sec == 0
        &&& self.nanosec == 0
    }
}

impl DeepView for TimeSpec {
    type V = <TimeSpecFields as DeepView>::V;

    open spec fn deep_view(&self) -> Self::V {
        self.fields().deep_view()
    }
}

impl Default for TimeSpec {
    fn default() -> (v: Self)
        ensures
            v.is_zeroed(),
    {
        TimeSpec {
            sec: 0,
            nanosec: 0,
        }
    }
}

impl CdrSerialize for TimeSpec {
    open spec fn cdr_bytes(&self, offset: nat) -> Seq<u8> {
        self.fields().cdr_bytes(offset)
    }

    fn serialize(&self, s: &mut CdrSerializer) {
        let t: TimeSpecFields = (self.sec, self.nanosec);
        t.serialize(s);
    }
}

impl CdrDeserialize for TimeSpec {
    open spec fn cdr_read(body: Seq<u8>, offset: nat) -> (Result<Self::V, CdrError>, nat) {
        TimeSpecFields::cdr_read(body, offset)
    }

    fn deserialize(d: &mut CdrDeserializer<'_>) -> (r: Result<Self, CdrError>) {
        let (sec, nanosec) = TimeSpecFields::deserialize(d)?;
        Ok(TimeSpec { sec, nanosec })
    }

    open spec fn cdr_nonempty() -> bool {
        TimeSpecFields::cdr_nonempty()
    }

    fn is_cdr_nonempty() -> (b: bool) {
        TimeSpecFields::is_cdr_nonempty()
    }

    proof fn lemma_cdr_read_extends(body: Seq<u8>, offset: nat, ext: Seq<u8>) {
        TimeSpecFields::lemma_cdr_read_extends(body, offset, ext);
    }
}

impl CdrRoundTrip for TimeSpec {
    open spec fn cdr_encodable(&self) -> bool {
        self.fields().cdr_encodable()
    }

    proof fn lemma_cdr_bytes_nonempty(&self, offset: nat) {
        self.fields().lemma_cdr_bytes_nonempty(offset);
    }

    proof fn lemma_cdr_roundtrip(&self, prefix: Seq<u8>, rest: Seq<u8>) {
        self.fields().lemma_cdr_roundtrip(prefix, rest);
    }
}

impl TimeSpec {
    /// The encoding follows the `.msg` declaration order: `sec`, `nanosec`, each
    /// written where the one before it ends; and a read value lists the fields
    /// in that order.
    pub proof fn lemma_declaration_order(&self, offset: nat)
        ensures
            self.cdr_bytes(offset) == {
                let b0 = self.sec.cdr_bytes(offset);
                let b1 = self.nanosec.cdr_bytes(offset + b0.len());
                b0 + b1
            },
            self.deep_view() == (self.sec.deep_view(), self.nanosec.deep_view()),
    {
    }
}

impl DdsType for TimeSpec {
    const TYPE_NAME: &'static str = "unitree_go::msg::dds_::TimeSpec_";
    const IS_KEYLESS: bool = true;
}

impl DdsPod for TimeSpec {
    const DESCRIPTOR_SYMBOL: &'static str = "unitree_go_msg_dds__TimeSpec__desc";
}

// ---------------------------------------------------------------------------
// HeightMap
// ---------------------------------------------------------------------------

/// `unitree_go/HeightMap`: a height map grid.
#[derive(Debug, Clone, PartialEq)]
pub struct HeightMap {
    /// `float64` bits.
    pub stamp: u64,
    pub frame_id: String,
    /// `float32` bits.
    pub resolution: u32,
    pub width: u32,
    pub height: u32,
    /// `float32` bits, each.
    pub origin: [u32; 2],
    /// `float32` bits, each.
    pub data: Vec<u32>,
}

/// The fields of [`HeightMap`] as nested pairs, in wire order.
pub type HeightMapFields = (u64, (String, (u32, (u32, (u32, ([u32; 2], Vec<u32>))))));

impl HeightMap {
    /// The fields as nested pairs, in wire order.
    pub open spec fn fields(self) -> HeightMapFields {
        (self.stamp, (self.frame_id, (self.resolution, (self.width, (self.height, (self.origin, self.data))))))
    }

    /// Every field is zero (strings and sequences empty).
    pub open spec fn is_zeroed(&self) -> bool {
        &&& self.stamp == 0
        &&& self.frame_id@.len() == 0
        &&& self.resolution == 0
        &&& self.width == 0
        &&& self.height == 0
        &&& (forall|i: int| 0 <= i < 2 ==> #[trigger] self.origin@[i] == 0)
        &&& self.data@.len() == 0
    }
}

impl DeepView for HeightMap {
    type V = <HeightMapFields as DeepView>::V;

    open spec fn deep_view(&self) -> Self::V {
        self.fields().deep_view()
    }
}

impl Default for HeightMap {
    fn default() -> (v: Self)
        ensures
            v.is_zeroed(),
    {
        HeightMap {
            stamp: 0,
            frame_id: String::new(),
            resolution: 0,
            width: 0,
            height: 0,
            origin: [0u32; 2],
            data: Vec::new(),
        }
    }
}

impl CdrSerialize for HeightMap {
    open spec fn cdr_bytes(&self, offset: nat) -> Seq<u8> {
        self.fields().cdr_bytes(offset)
    }

    fn serialize(&self, s: &mut CdrSerializer) {
        self.stamp.serialize(s);
        self.frame_id.serialize(s);
        self.resolution.serialize(s);
        self.width.serialize(s);
        self.height.serialize(s);
        self.origin.serialize(s);
        self.data.serialize(s);
        assert(s@ =~= old(s)@ + self.cdr_bytes(old(s)@.len()));
    }
}

impl CdrDeserialize for HeightMap {
    open spec fn cdr_read(body: Seq<u8>, offset: nat) -> (Result<Self::V, CdrError>, nat) {
        HeightMapFields::cdr_read(body, offset)
    }

    fn deserialize(d: &mut CdrDeserializer<'_>) -> (r: Result<Self, CdrError>) {
        let (stamp, (frame_id, (resolution, (width, (height, (origin, data)))))) = HeightMapFields::deserialize(d)?;
        Ok(HeightMap { stamp, frame_id, resolution, width, height, origin, data })
    }

    open spec fn cdr_nonempty() -> bool {
        HeightMapFields::cdr_nonempty()
    }

    fn is_cdr_nonempty() -> (b: bool) {
        HeightMapFields::is_cdr_nonempty()
    }

    proof fn lemma_cdr_read_extends(body: Seq<u8>, offset: nat, ext: Seq<u8>) {
        HeightMapFields::lemma_cdr_read_extends(body, offset, ext);
    }
}

impl CdrRoundTrip for HeightMap {
    open spec fn cdr_encodable(&self) -> bool {
        self.fields().cdr_encodable()
    }

    proof fn lemma_cdr_bytes_nonempty(&self, offset: nat) {
        self.fields().lemma_cdr_bytes_nonempty(offset);
    }

    proof fn lemma_cdr_roundtrip(&self, prefix: Seq<u8>, rest: Seq<u8>) {
        self.fields().lemma_cdr_roundtrip(prefix, rest);
    }
}

impl HeightMap {
    /// The encoding follows the `.msg` declaration order: `stamp`, `frame_id`, `resolution`, `width`, `height`, `origin`, `data`, each
    /// written where the one before it ends; and a read value lists the fields
    /// in that order.
    pub proof fn lemma_declaration_order(&self, offset: nat)
        ensures
            self.cdr_bytes(offset) == {
                let b0 = self.stamp.cdr_bytes(offset);
                let b1 = self.frame_id.cdr_bytes(offset + b0.len());
                let b2 = self.resolution.cdr_bytes(offset + b0.len() + b1.len());
                let b3 = self.width.cdr_bytes(offset + b0.len() + b1.len() + b2.len());
                let b4 = self.height.cdr_bytes(offset + b0.len() + b1.len() + b2.len() + b3.len());
                let b5 = self.origin.cdr_bytes(offset + b0.len() + b1.len() + b2.len() + b3.len() + b4.len());
                let b6 = self.data.cdr_bytes(offset + b0.len() + b1.len() + b2.len() + b3.len() + b4.len() + b5.len());
                b0 + (b1 + (b2 + (b3 + (b4 + (b5 + b6)))))
            },
            self.deep_view() == (self.stamp.deep_view(), (self.frame_id.deep_view(), (self.resolution.deep_view(), (self.width.deep_view(), (self.height.deep_view(), (self.origin.deep_view(), self.data.deep_view())))))),
    {
    }
}

impl DdsType for HeightMap {
    const TYPE_NAME: &'static str = "unitree_go::msg::dds_::HeightMap_";
    const IS_KEYLESS: bool = true;
}

// ---------------------------------------------------------------------------
// IMUState
// ---------------------------------------------------------------------------

/// `unitree_go/IMUState`: the IMU reading.
#[derive(Debug, Clone, Copy, PartialEq)]
pub struct IMUState {
    /// `float32` bits, each.
    pub quaternion: [u32; 4],
    /// `float32` bits, each.
    pub gyroscope: [u32; 3],
    /// `float32` bits, each.
    pub accelerometer: [u32; 3],
    /// `float32` bits, each.
    pub rpy: [u32; 3],
    pub temperature: i8,
}

/// The fields of [`IMUState`] as nested pairs, in wire order.
pub type IMUStateFields = ([u32; 4], ([u32; 3], ([u32; 3], ([u32; 3], i8))));

impl IMUState {
    /// The fields as nested pairs, in wire order.
    pub open spec fn fields(self) -> IMUStateFields {
        (self.quaternion, (self.gyroscope, (self.accelerometer, (self.rpy, self.temperature))))
    }

    /// Every field is zero (strings and sequences empty).
    pub open spec fn is_zeroed(&self) -> bool {
        &&& (forall|i: int| 0 <= i < 4 ==> #[trigger] self.quaternion@[i] == 0)
        &&& (forall|i: int| 0 <= i < 3 ==> #[trigger] self.gyroscope@[i] == 0)
        &&& (forall|i: int| 0 <= i < 3 ==> #[trigger] self.accelerometer@[i] == 0)
        &&& (forall|i: int| 0 <= i < 3 ==> #[trigger] self.rpy@[i] == 0)
        &&& self.temperature == 0
    }
}

impl DeepView for IMUState {
    type V = <IMUStateFields as DeepView>::V;

    open spec fn deep_view(&self) -> Self::V {
        self.fields().deep_view()
    }
}

impl Default for IMUState {
    fn default() -> (v: Self)
        ensures
            v.is_zeroed(),
    {
        IMUState {
            quaternion: [0u32; 4],
            gyroscope: [0u32; 3],
            accelerometer: [0u32; 3],
            rpy: [0u32; 3],
            temperature: 0,
        }
    }
}

impl CdrSerialize for IMUState {
    open spec fn cdr_bytes(&self, offset: nat) -> Seq<u8> {
        self.fields().cdr_bytes(offset)
    }

    fn serialize(&self, s: &mut CdrSerializer) {
        let t: IMUStateFields = (self.quaternion, (self.gyroscope, (self.accelerometer, (self.rpy, self.temperature))));
        t.serialize(s);
    }
}

impl CdrDeserialize for IMUState {
    open spec fn cdr_read(body: Seq<u8>, offset: nat) -> (Result<Self::V, CdrError>, nat) {
        IMUStateFields::cdr_read(body, offset)
    }

    fn deserialize(d: &mut CdrDeserializer<'_>) -> (r: Result<Self, CdrError>) {
        let (quaternion, (gyroscope, (accelerometer, (rpy, temperature)))) = IMUStateFields::deserialize(d)?;
        Ok(IMUState { quaternion, gyroscope, accelerometer, rpy, temperature })
    }

    open spec fn cdr_nonempty() -> bool {
        IMUStateFields::cdr_nonempty()
    }

    fn is_cdr_nonempty() -> (b: bool) {
        IMUStateFields::is_cdr_nonempty()
    }

    proof fn lemma_cdr_read_extends(body: Seq<u8>, offset: nat, ext: Seq<u8>) {
        IMUStateFields::lemma_cdr_read_extends(body, offset, ext);
    }
}

impl CdrRoundTrip for IMUState {
    open spec fn cdr_encodable(&self) -> bool {
        self.fields().cdr_encodable()
    }

    proof fn lemma_cdr_bytes_nonempty(&self, offset: nat) {
        self.fields().lemma_cdr_bytes_nonempty(offset);
    }

    proof fn lemma_cdr_roundtrip(&self, prefix: Seq<u8>, rest: Seq<u8>) {
        self.fields().lemma_cdr_roundtrip(prefix, rest);
    }
}

impl IMUState {
    /// The encoding follows the `.msg` declaration order: `quaternion`, `gyroscope`, `accelerometer`, `rpy`, `temperature`, each
    /// written where the one before it ends; and a read value lists the fields
    /// in that order.
    pub proof fn lemma_declaration_order(&self, offset: nat)
        ensures
            self.cdr_bytes(offset) == {
                let b0 = self.quaternion.cdr_bytes(offset);
                let b1 = self.gyroscope.cdr_bytes(offset + b0.len());
                let b2 = self.accelerometer.cdr_bytes(offset + b0.len() + b1.len());
                let b3 = self.rpy.cdr_bytes(offset + b0.len() + b1.len() + b2.len());
                let b4 = self.temperature.cdr_bytes(offset + b0.len() + b1.len() + b2.len() + b3.len());
                b0 + (b1 + (b2 + (b3 + b4)))
            },
            self.deep_view() == (self.quaternion.deep_view(), (self.gyroscope.deep_view(), (self.accelerometer.deep_view(), (self.rpy.deep_view(), self.temperature.deep_view())))),
    {
    }
}

impl DdsType for IMUState {
    const TYPE_NAME: &'static str = "unitree_go::msg::dds_::IMUState_";
    const IS_KEYLESS: bool = true;
}

impl DdsPod for IMUState {
    const DESCRIPTOR_SYMBOL: &'static str = "unitree_go_msg_dds__IMUState__desc";
}

// ---------------------------------------------------------------------------
// MotorState
// ---------------------------------------------------------------------------

/// `unitree_go/MotorState`: one motor's state.
#[derive(Debug, Clone, Copy, PartialEq)]
pub struct MotorState {
    pub mode: u8,
    /// `float32` bits.
    pub q: u32,
    /// `float32` bits.
    pub dq: u32,
    /// `float32` bits.
    pub ddq: u32,
    /// `float32` bits.
    pub tau_est: u32,
    /// `float32` bits.
    pub q_raw: u32,
    /// `float32` bits.
    pub dq_raw: u32,
    /// `float32` bits.
    pub ddq_raw: u32,
    pub temperature: i8,
    pub lost: u32,
    pub reserve: [u32; 2],
}

/// The fields of [`MotorState`] as nested pairs, in wire order.
pub type MotorStateFields = (u8, (u32, (u32, (u32, (u32, (u32, (u32, (u32, (i8, (u32, [u32; 2]))))))))));

impl MotorState {
    /// The fields as nested pairs, in wire order.
    pub open spec fn fields(self) -> MotorStateFields {
        (self.mode, (self.q, (self.dq, (self.ddq, (self.tau_est, (self.q_raw, (self.dq_raw, (self.ddq_raw, (self.temperature, (self.lost, self.reserve))))))))))
    }

    /// Every field is zero (strings and sequences empty).
    pub open spec fn is_zeroed(&self) -> bool {
        &&& self.mode == 0
        &&& self.q == 0
        &&& self.dq == 0
        &&& self.ddq == 0
        &&& self.tau_est == 0
        &&& self.q_raw == 0
        &&& self.dq_raw == 0
        &&& self.ddq_raw == 0
        &&& self.temperature == 0
        &&& self.lost == 0
        &&& (forall|i: int| 0 <= i < 2 ==> #[trigger] self.reserve@[i] == 0)
    }
}

impl DeepView for MotorState {
    type V = <MotorStateFields as DeepView>::V;

    open spec fn deep_view(&self) -> Self::V {
        self.fields().deep_view()
    }
}

impl Default for MotorState {
    fn default() -> (v: Self)
        ensures
            v.is_zeroed(),
    {
        MotorState {
            mode: 0,
            q: 0,
            dq: 0,
            ddq: 0,
            tau_est: 0,
            q_raw: 0,
            dq_raw: 0,
            ddq_raw: 0,
            temperature: 0,
            lost: 0,
            reserve: [0u32; 2],
        }
    }
}

impl CdrSerialize for MotorState {
    open spec fn cdr_bytes(&self, offset: nat) -> Seq<u8> {
        self.fields().cdr_bytes(offset)
    }

    fn serialize(&self, s: &mut CdrSerializer) {
        let t: MotorStateFields = (self.mode, (self.q, (self.dq, (self.ddq, (self.tau_est, (self.q_raw, (self.dq_raw, (self.ddq_raw, (self.temperature, (self.lost, self.reserve))))))))));
        t.serialize(s);
    }
}

impl CdrDeserialize for MotorState {
    open spec fn cdr_read(body: Seq<u8>, offset: nat) -> (Result<Self::V, CdrError>, nat) {
        MotorStateFields::cdr_read(body, offset)
    }

    fn deserialize(d: &mut CdrDeserializer<'_>) -> (r: Result<Self, CdrError>) {
        let (mode, (q, (dq, (ddq, (tau_est, (q_raw, (dq_raw, (ddq_raw, (temperature, (lost, reserve)))))))))) = MotorStateFields::deserialize(d)?;
        Ok(MotorState { mode, q, dq, ddq, tau_est, q_raw, dq_raw, ddq_raw, temperature, lost, reserve })
    }

    open spec fn cdr_nonempty() -> bool {
        MotorStateFields::cdr_nonempty()
    }

    fn is_cdr_nonempty() -> (b: bool) {
        MotorStateFields::is_cdr_nonempty()
    }

    proof fn lemma_cdr_read_extends(body: Seq<u8>, offset: nat, ext: Seq<u8>) {
        MotorStateFields::lemma_cdr_read_extends(body, offset, ext);
    }
}

impl CdrRoundTrip for MotorState {
    open spec fn cdr_encodable(&self) -> bool {
        self.fields().cdr_encodable()
    }

    proof fn lemma_cdr_bytes_nonempty(&self, offset: nat) {
        self.fields().lemma_cdr_bytes_nonempty(offset);
    }

    proof fn lemma_cdr_roundtrip(&self, prefix: Seq<u8>, rest: Seq<u8>) {
        self.fields().lemma_cdr_roundtrip(prefix, rest);
    }
}

impl MotorState {
    /// The encoding follows the `.msg` declaration order: `mode`, `q`, `dq`, `ddq`, `tau_est`, `q_raw`, `dq_raw`, `ddq_raw`, `temperature`, `lost`, `reserve`, each
    /// written where the one before it ends; and a read value lists the fields
    /// in that order.
    pub proof fn lemma_declaration_order(&self, offset: nat)
        ensures
            self.cdr_bytes(offset) == {
                let b0 = self.mode.cdr_bytes(offset);
                let b1 = self.q.cdr_bytes(offset + b0.len());
                let b2 = self.dq.cdr_bytes(offset + b0.len() + b1.len());
                let b3 = self.ddq.cdr_bytes(offset + b0.len() + b1.len() + b2.len());
                let b4 = self.tau_est.cdr_bytes(offset + b0.len() + b1.len() + b2.len() + b3.len());
                let b5 = self.q_raw.cdr_bytes(offset + b0.len() + b1.len() + b2.len() + b3.len() + b4.len());
                let b6 = self.dq_raw.cdr_bytes(offset + b0.len() + b1.len() + b2.len() + b3.len() + b4.len() + b5.len());
                let b7 = self.ddq_raw.cdr_bytes(offset + b0.len() + b1.len() + b2.len() + b3.len() + b4.len() + b5.len() + b6.len());
                let b8 = self.temperature.cdr_bytes(offset + b0.len() + b1.len() + b2.len() + b3.len() + b4.len() + b5.len() + b6.len() + b7.len());
                let b9 = self.lost.cdr_bytes(offset + b0.len() + b1.len() + b2.len() + b3.len() + b4.len() + b5.len() + b6.len() + b7.len() + b8.len());
                let b10 = self.reserve.cdr_bytes(offset + b0.len() + b1.len() + b2.len() + b3.len() + b4.len() + b5.len() + b6.len() + b7.len() + b8.len() + b9.len());
                b0 + (b1 + (b2 + (b3 + (b4 + (b5 + (b6 + (b7 + (b8 + (b9 + b10)))))))))
            },
            self.deep_view() == (self.mode.deep_view(), (self.q.deep_view(), (self.dq.deep_view(), (self.ddq.deep_view(), (self.tau_est.deep_view(), (self.q_raw.deep_view(), (self.dq_raw.deep_view(), (self.ddq_raw.deep_view(), (self.temperature.deep_view(), (self.lost.deep_view(), self.reserve.deep_view())))))))))),
    {
    }
}

impl DdsType for MotorState {
    const TYPE_NAME: &'static str = "unitree_go::msg::dds_::MotorState_";
    const IS_KEYLESS: bool = true;
}

impl DdsPod for MotorState {
    const DESCRIPTOR_SYMBOL: &'static str = "unitree_go_msg_dds__MotorState__desc";
}

// ---------------------------------------------------------------------------
// BmsState
// ---------------------------------------------------------------------------

/// `unitree_go/BmsState`: the battery state.
#[derive(Debug, Clone, Copy, PartialEq)]
pub struct BmsState {
    pub version_high: u8,
    pub version_low: u8,
    pub status: u8,
    pub soc: u8,
    pub current: i32,
    pub cycle: u16,
    pub bq_ntc: [i8; 2],
    pub mcu_ntc: [i8; 2],
    pub cell_vol: [u16; 15],
}

/// The fields of [`BmsState`] as nested pairs, in wire order.
pub type BmsStateFields = (u8, (u8, (u8, (u8, (i32, (u16, ([i8; 2], ([i8; 2], [u16; 15]))))))));

impl BmsState {
    /// The fields as nested pairs, in wire order.
    pub open spec fn fields(self) -> BmsStateFields {
        (self.version_high, (self.version_low, (self.status, (self.soc, (self.current, (self.cycle, (self.bq_ntc, (self.mcu_ntc, self.cell_vol))))))))
    }

    /// Every field is zero (strings and sequences empty).
    pub open spec fn is_zeroed(&self) -> bool {
        &&& self.version_high == 0
        &&& self.version_low == 0
        &&& self.status == 0
        &&& self.soc == 0
        &&& self.current == 0
        &&& self.cycle == 0
        &&& (forall|i: int| 0 <= i < 2 ==> #[trigger] self.bq_ntc@[i] == 0)
        &&& (forall|i: int| 0 <= i < 2 ==> #[trigger] self.mcu_ntc@[i] == 0)
        &&& (forall|i: int| 0 <= i < 15 ==> #[trigger] self.cell_vol@[i] == 0)
    }
}

impl DeepView for BmsState {
    type V = <BmsStateFields as DeepView>::V;

    open spec fn deep_view(&self) -> Self::V {
        self.fields().deep_view()
    }
}

impl Default for BmsState {
    fn default() -> (v: Self)
        ensures
            v.is_zeroed(),
    {
        BmsState {
            version_high: 0,
            version_low: 0,
            status: 0,
            soc: 0,
            current: 0,
            cycle: 0,
            bq_ntc: [0i8; 2],
            mcu_ntc: [0i8; 2],
            cell_vol: [0u16; 15],
        }
    }
}

impl CdrSerialize for BmsState {
    open spec fn cdr_bytes(&self, offset: nat) -> Seq<u8> {
        self.fields().cdr_bytes(offset)
    }

    fn serialize(&self, s: &mut CdrSerializer) {
        let t: BmsStateFields = (self.version_high, (self.version_low, (self.status, (self.soc, (self.current, (self.cycle, (self.bq_ntc, (self.mcu_ntc, self.cell_vol))))))));
        t.serialize(s);
    }
}

impl CdrDeserialize for BmsState {
    open spec fn cdr_read(body: Seq<u8>, offset: nat) -> (Result<Self::V, CdrError>, nat) {
        BmsStateFields::cdr_read(body, offset)
    }

    fn deserialize(d: &mut CdrDeserializer<'_>) -> (r: Result<Self, CdrError>) {
        let (version_high, (version_low, (status, (soc, (current, (cycle, (bq_ntc, (mcu_ntc, cell_vol)))))))) = BmsStateFields::deserialize(d)?;
        Ok(BmsState { version_high, version_low, status, soc, current, cycle, bq_ntc, mcu_ntc, cell_vol })
    }

    open spec fn cdr_nonempty() -> bool {
        BmsStateFields::cdr_nonempty()
    }

    fn is_cdr_nonempty() -> (b: bool) {
        BmsStateFields::is_cdr_nonempty()
    }

    proof fn lemma_cdr_read_extends(body: Seq<u8>, offset: nat, ext: Seq<u8>) {
        BmsStateFields::lemma_cdr_read_extends(body, offset, ext);
    }
}

impl CdrRoundTrip for BmsState {
    open spec fn cdr_encodable(&self) -> bool {
        self.fields().cdr_encodable()
    }

    proof fn lemma_cdr_bytes_nonempty(&self, offset: nat) {
        self.fields().lemma_cdr_bytes_nonempty(offset);
    }

    proof fn lemma_cdr_roundtrip(&self, prefix: Seq<u8>, rest: Seq<u8>) {
        self.fields().lemma_cdr_roundtrip(prefix, rest);
    }
}

impl BmsState {
    /// The encoding follows the `.msg` declaration order: `version_high`, `version_low`, `status`, `soc`, `current`, `cycle`, `bq_ntc`, `mcu_ntc`, `cell_vol`, each
    /// written where the one before it ends; and a read value lists the fields
    /// in that order.
    pub proof fn lemma_declaration_order(&self, offset: nat)
        ensures
            self.cdr_bytes(offset) == {
                let b0 = self.version_high.cdr_bytes(offset);
                let b1 = self.version_low.cdr_bytes(offset + b0.len());
                let b2 = self.status.cdr_bytes(offset + b0.len() + b1.len());
                let b3 = self.soc.cdr_bytes(offset + b0.len() + b1.len() + b2.len());
                let b4 = self.current.cdr_bytes(offset + b0.len() + b1.len() + b2.len() + b3.len());
                let b5 = self.cycle.cdr_bytes(offset + b0.len() + b1.len() + b2.len() + b3.len() + b4.len());
                let b6 = self.bq_ntc.cdr_bytes(offset + b0.len() + b1.len() + b2.len() + b3.len() + b4.len() + b5.len());
                let b7 = self.mcu_ntc.cdr_bytes(offset + b0.len() + b1.len() + b2.len() + b3.len() + b4.len() + b5.len() + b6.len());
                let b8 = self.cell_vol.cdr_bytes(offset + b0.len() + b1.len() + b2.len() + b3.len() + b4.len() + b5.len() + b6.len() + b7.len());
                b0 + (b1 + (b2 + (b3 + (b4 + (b5 + (b6 + (b7 + b8)))))))
            },
            self.deep_view() == (self.version_high.deep_view(), (self.version_low.deep_view(), (self.status.deep_view(), (self.soc.deep_view(), (self.current.deep_view(), (self.cycle.deep_view(), (self.bq_ntc.deep_view(), (self.mcu_ntc.deep_view(), self.cell_vol.deep_view())))))))),
    {
    }
}

impl DdsType for BmsState {
    const TYPE_NAME: &'static str = "unitree_go::msg::dds_::BmsState_";
    const IS_KEYLESS: bool = true;
}

impl DdsPod for BmsState {
    const DESCRIPTOR_SYMBOL: &'static str = "unitree_go_msg_dds__BmsState__desc";
}

// ---------------------------------------------------------------------------
// WirelessController
// ---------------------------------------------------------------------------

/// `unitree_go/WirelessController`: the remote controller's sticks and keys.
#[derive(Debug, Clone, Copy, PartialEq)]
pub struct WirelessController {
    /// `float32` bits.
    pub lx: u32,
    /// `float32` bits.
    pub ly: u32,
    /// `float32` bits.
    pub rx: u32,
    /// `float32` bits.
    pub ry: u32,
    pub keys: u16,
}

/// The fields of [`WirelessController`] as nested pairs, in wire order.
pub type WirelessControllerFields = (u32, (u32, (u32, (u32, u16))));

impl WirelessController {
    /// The fields as nested pairs, in wire order.
    pub open spec fn fields(self) -> WirelessControllerFields {
        (self.lx, (self.ly, (self.rx, (self.ry, self.keys))))
    }

    /// Every field is zero (strings and sequences empty).
    pub open spec fn is_zeroed(&self) -> bool {
        &&& self.lx == 0
        &&& self.ly == 0
        &&& self.rx == 0
        &&& self.ry == 0
        &&& self.keys == 0
    }
}

impl DeepView for WirelessController {
    type V = <WirelessControllerFields as DeepView>::V;

    open spec fn deep_view(&self) -> Self::V {
        self.fields().deep_view()
    }
}

impl Default for WirelessController {
    fn default() -> (v: Self)
        ensures
            v.is_zeroed(),
    {
        WirelessController {
            lx: 0,
            ly: 0,
            rx: 0,
            ry: 0,
            keys: 0,
        }
    }
}

impl CdrSerialize for WirelessController {
    open spec fn cdr_bytes(&self, offset: nat) -> Seq<u8> {
        self.fields().cdr_bytes(offset)
    }

    fn serialize(&self, s: &mut CdrSerializer) {
        let t: WirelessControllerFields = (self.lx, (self.ly, (self.rx, (self.ry, self.keys))));
        t.serialize(s);
    }
}

impl CdrDeserialize for WirelessController {
    open spec fn cdr_read(body: Seq<u8>, offset: nat) -> (Result<Self::V, CdrError>, nat) {
        WirelessControllerFields::cdr_read(body, offset)
    }

    fn deserialize(d: &mut CdrDeserializer<'_>) -> (r: Result<Self, CdrError>) {
        let (lx, (ly, (rx, (ry, keys)))) = WirelessControllerFields::deserialize(d)?;
        Ok(WirelessController { lx, ly, rx, ry, keys })
    }

    open spec fn cdr_nonempty() -> bool {
        WirelessControllerFields::cdr_nonempty()
    }

    fn is_cdr_nonempty() -> (b: bool) {
        WirelessControllerFields::is_cdr_nonempty()
    }

    proof fn lemma_cdr_read_extends(body: Seq<u8>, offset: nat, ext: Seq<u8>) {
        WirelessControllerFields::lemma_cdr_read_extends(body, offset, ext);
    }
}

impl CdrRoundTrip for WirelessController {
    open spec fn cdr_encodable(&self) -> bool {
        self.fields().cdr_encodable()
    }

    proof fn lemma_cdr_bytes_nonempty(&self, offset: nat) {
        self.fields().lemma_cdr_bytes_nonempty(offset);
    }

    proof fn lemma_cdr_roundtrip(&self, prefix: Seq<u8>, rest: Seq<u8>) {
        self.fields().lemma_cdr_roundtrip(prefix, rest);
    }
}

impl WirelessController {
    /// The encoding follows the `.msg` declaration order: `lx`, `ly`, `rx`, `ry`, `keys`, each
    /// written where the one before it ends; and a read value lists the fields
    /// in that order.
    pub proof fn lemma_declaration_order(&self, offset: nat)
        ensures
            self.cdr_bytes(offset) == {
                let b0 = self.lx.cdr_bytes(offset);
                let b1 = self.ly.cdr_bytes(offset + b0.len());
                let b2 = self.rx.cdr_bytes(offset + b0.len() + b1.len());
                let b3 = self.ry.cdr_bytes(offset + b0.len() + b1.len() + b2.len());
                let b4 = self.keys.cdr_bytes(offset + b0.len() + b1.len() + b2.len() + b3.len());
                b0 + (b1 + (b2 + (b3 + b4)))
            },
            self.deep_view() == (self.lx.deep_view(), (self.ly.deep_view(), (self.rx.deep_view(), (self.ry.deep_view(), self.keys.deep_view())))),
    {
    }
}

impl DdsType for WirelessController {
    const TYPE_NAME: &'static str = "unitree_go::msg::dds_::WirelessController_";
    const IS_KEYLESS: bool = true;
}

impl DdsPod for WirelessController {
    const DESCRIPTOR_SYMBOL: &'static str = "unitree_go_msg_dds__WirelessController__desc";
}

// ---------------------------------------------------------------------------
// LowState
// ---------------------------------------------------------------------------

/// `unitree_go/LowState`: the low-level state published on `rt/lowstate`.
#[derive(Debug, Clone, Copy, PartialEq)]
pub struct LowState {
    pub head: [u8; 2],
    pub level_flag: u8,
    pub frame_reserve: u8,
    pub sn: [u32; 2],
    pub version: [u32; 2],
    pub bandwidth: u16,
    pub imu_state: IMUState,
    pub motor_state: [MotorState; 20],
    pub bms_state: BmsState,
    pub foot_force: [i16; 4],
    pub foot_force_est: [i16; 4],
    pub tick: u32,
    pub wireless_remote: [u8; 40],
    pub bit_flag: u8,
    /// `float32` bits.
    pub adc_reel: u32,
    pub temperature_ntc1: i8,
    pub temperature_ntc2: i8,
    /// `float32` bits.
    pub power_v: u32,
    /// `float32` bits.
    pub power_a: u32,
    pub fan_frequency: [u16; 4],
    pub reserve: u32,
    pub crc: u32,
}

/// The fields of [`LowState`] as nested pairs, in wire order.
pub type LowStateFields = ([u8; 2], (u8, (u8, ([u32; 2], ([u32; 2], (u16, (IMUState, ([MotorState; 20], (BmsState, ([i16; 4], ([i16; 4], (u32, ([u8; 40], (u8, (u32, (i8, (i8, (u32, (u32, ([u16; 4], (u32, u32)))))))))))))))))))));

impl LowState {
    /// The fields as nested pairs, in wire order.
    pub open spec fn fields(self) -> LowStateFields {
        (self.head, (self.level_flag, (self.frame_reserve, (self.sn, (self.version, (self.bandwidth, (self.imu_state, (self.motor_state, (self.bms_state, (self.foot_force, (self.foot_force_est, (self.tick, (self.wireless_remote, (self.bit_flag, (self.adc_reel, (self.temperature_ntc1, (self.temperature_ntc2, (self.power_v, (self.power_a, (self.fan_frequency, (self.reserve, self.crc)))))))))))))))))))))
    }

    /// Every field is zero (strings and sequences empty).
    pub open spec fn is_zeroed(&self) -> bool {
        &&& (forall|i: int| 0 <= i < 2 ==> #[trigger] self.head@[i] == 0)
        &&& self.level_flag == 0
        &&& self.frame_reserve == 0
        &&& (forall|i: int| 0 <= i < 2 ==> #[trigger] self.sn@[i] == 0)
        &&& (forall|i: int| 0 <= i < 2 ==> #[trigger] self.version@[i] == 0)
        &&& self.bandwidth == 0
        &&& self.imu_state.is_zeroed()
        &&& (forall|i: int| 0 <= i < 20 ==> (#[trigger] self.motor_state@[i]).is_zeroed())
        &&& self.bms_state.is_zeroed()
        &&& (forall|i: int| 0 <= i < 4 ==> #[trigger] self.foot_force@[i] == 0)
        &&& (forall|i: int| 0 <= i < 4 ==> #[trigger] self.foot_force_est@[i] == 0)
        &&& self.tick == 0
        &&& (forall|i: int| 0 <= i < 40 ==> #[trigger] self.wireless_remote@[i] == 0)
        &&& self.bit_flag == 0
        &&& self.adc_reel == 0
        &&& self.temperature_ntc1 == 0
        &&& self.temperature_ntc2 == 0
        &&& self.power_v == 0
        &&& self.power_a == 0
        &&& (forall|i: int| 0 <= i < 4 ==> #[trigger] self.fan_frequency@[i] == 0)
        &&& self.reserve == 0
        &&& self.crc == 0
    }
}

impl DeepView for LowState {
    type V = <LowStateFields as DeepView>::V;

    open spec fn deep_view(&self) -> Self::V {
        self.fields().deep_view()
    }
}

impl Default for LowState {
    fn default() -> (v: Self)
        ensures
            v.is_zeroed(),
    {
        LowState {
            head: [0u8; 2],
            level_flag: 0,
            frame_reserve: 0,
            sn: [0u32; 2],
            version: [0u32; 2],
            bandwidth: 0,
            imu_state: IMUState::default(),
            motor_state: [MotorState::default(); 20],
            bms_state: BmsState::default(),
            foot_force: [0i16; 4],
            foot_force_est: [0i16; 4],
            tick: 0,
            wireless_remote: [0u8; 40],
            bit_flag: 0,
            adc_reel: 0,
            temperature_ntc1: 0,
            temperature_ntc2: 0,
            power_v: 0,
            power_a: 0,
            fan_frequency: [0u16; 4],
            reserve: 0,
            crc: 0,
        }
    }
}

impl CdrSerialize for LowState {
    open spec fn cdr_bytes(&self, offset: nat) -> Seq<u8> {
        self.fields().cdr_bytes(offset)
    }

    fn serialize(&self, s: &mut CdrSerializer) {
        let t: LowStateFields = (self.head, (self.level_flag, (self.frame_reserve, (self.sn, (self.version, (self.bandwidth, (self.imu_state, (self.motor_state, (self.bms_state, (self.foot_force, (self.foot_force_est, (self.tick, (self.wireless_remote, (self.bit_flag, (self.adc_reel, (self.temperature_ntc1, (self.temperature_ntc2, (self.power_v, (self.power_a, (self.fan_frequency, (self.reserve, self.crc)))))))))))))))))))));
        t.serialize(s);
    }
}

impl CdrDeserialize for LowState {
    open spec fn cdr_read(body: Seq<u8>, offset: nat) -> (Result<Self::V, CdrError>, nat) {
        LowStateFields::cdr_read(body, offset)
    }

    fn deserialize(d: &mut CdrDeserializer<'_>) -> (r: Result<Self, CdrError>) {
        let (head, (level_flag, (frame_reserve, (sn, (version, (bandwidth, (imu_state, (motor_state, (bms_state, (foot_force, (foot_force_est, (tick, (wireless_remote, (bit_flag, (adc_reel, (temperature_ntc1, (temperature_ntc2, (power_v, (power_a, (fan_frequency, (reserve, crc))))))))))))))))))))) = LowStateFields::deserialize(d)?;
        Ok(LowState { head, level_flag, frame_reserve, sn, version, bandwidth, imu_state, motor_state, bms_state, foot_force, foot_force_est, tick, wireless_remote, bit_flag, adc_reel, temperature_ntc1, temperature_ntc2, power_v, power_a, fan_frequency, reserve, crc })
    }

    open spec fn cdr_nonempty() -> bool {
        LowStateFields::cdr_nonempty()
    }

    fn is_cdr_nonempty() -> (b: bool) {
        LowStateFields::is_cdr_nonempty()
    }

    proof fn lemma_cdr_read_extends(body: Seq<u8>, offset: nat, ext: Seq<u8>) {
        LowStateFields::lemma_cdr_read_extends(body, offset, ext);
    }
}

impl CdrRoundTrip for LowState {
    open spec fn cdr_encodable(&self) -> bool {
        self.fields().cdr_encodable()
    }

    proof fn lemma_cdr_bytes_nonempty(&self, offset: nat) {
        self.fields().lemma_cdr_bytes_nonempty(offset);
    }

    proof fn lemma_cdr_roundtrip(&self, prefix: Seq<u8>, rest: Seq<u8>) {
        self.fields().lemma_cdr_roundtrip(prefix, rest);
    }
}

impl LowState {
    /// The encoding follows the `.msg` declaration order: `head`, `level_flag`, `frame_reserve`, `sn`, `version`, `bandwidth`, `imu_state`, `motor_state`, `bms_state`, `foot_force`, `foot_force_est`, `tick`, `wireless_remote`, `bit_flag`, `adc_reel`, `temperature_ntc1`, `temperature_ntc2`, `power_v`, `power_a`, `fan_frequency`, `reserve`, `crc`, each
    /// written where the one before it ends; and a read value lists the fields
    /// in that order.
    pub proof fn lemma_declaration_order(&self, offset: nat)
        ensures
            self.cdr_bytes(offset) == {
                let b0 = self.head.cdr_bytes(offset);
                let b1 = self.level_flag.cdr_bytes(offset + b0.len());
                let b2 = self.frame_reserve.cdr_bytes(offset + b0.len() + b1.len());
                let b3 = self.sn.cdr_bytes(offset + b0.len() + b1.len() + b2.len());
                let b4 = self.version.cdr_bytes(offset + b0.len() + b1.len() + b2.len() + b3.len());
                let b5 = self.bandwidth.cdr_bytes(offset + b0.len() + b1.len() + b2.len() + b3.len() + b4.len());
                let b6 = self.imu_state.cdr_bytes(offset + b0.len() + b1.len() + b2.len() + b3.len() + b4.len() + b5.len());
                let b7 = self.motor_state.cdr_bytes(offset + b0.len() + b1.len() + b2.len() + b3.len() + b4.len() + b5.len() + b6.len());
                let b8 = self.bms_state.cdr_bytes(offset + b0.len() + b1.len() + b2.len() + b3.len() + b4.len() + b5.len() + b6.len() + b7.len());
                let b9 = self.foot_force.cdr_bytes(offset + b0.len() + b1.len() + b2.len() + b3.len() + b4.len() + b5.len() + b6.len() + b7.len() + b8.len());
                let b10 = self.foot_force_est.cdr_bytes(offset + b0.len() + b1.len() + b2.len() + b3.len() + b4.len() + b5.len() + b6.len() + b7.len() + b8.len() + b9.len());
                let b11 = self.tick.cdr_bytes(offset + b0.len() + b1.len() + b2.len() + b3.len() + b4.len() + b5.len() + b6.len() + b7.len() + b8.len() + b9.len() + b10.len());
                let b12 = self.wireless_remote.cdr_bytes(offset + b0.len() + b1.len() + b2.len() + b3.len() + b4.len() + b5.len() + b6.len() + b7.len() + b8.len() + b9.len() + b10.len() + b11.len());
                let b13 = self.bit_flag.cdr_bytes(offset + b0.len() + b1.len() + b2.len() + b3.len() + b4.len() + b5.len() + b6.len() + b7.len() + b8.len() + b9.len() + b10.len() + b11.len() + b12.len());
                let b14 = self.adc_reel.cdr_bytes(offset + b0.len() + b1.len() + b2.len() + b3.len() + b4.len() + b5.len() + b6.len() + b7.len() + b8.len() + b9.len() + b10.len() + b11.len() + b12.len() + b13.len());
                let b15 = self.temperature_ntc1.cdr_bytes(offset + b0.len() + b1.len() + b2.len() + b3.len() + b4.len() + b5.len() + b6.len() + b7.len() + b8.len() + b9.len() + b10.len() + b11.len() + b12.len() + b13.len() + b14.len());
                let b16 = self.temperature_ntc2.cdr_bytes(offset + b0.len() + b1.len() + b2.len() + b3.len() + b4.len() + b5.len() + b6.len() + b7.len() + b8.len() + b9.len() + b10.len() + b11.len() + b12.len() + b13.len() + b14.len() + b15.len());
                let b17 = self.power_v.cdr_bytes(offset + b0.len() + b1.len() + b2.len() + b3.len() + b4.len() + b5.len() + b6.len() + b7.len() + b8.len() + b9.len() + b10.len() + b11.len() + b12.len() + b13.len() + b14.len() + b15.len() + b16.len());
                let b18 = self.power_a.cdr_bytes(offset + b0.len() + b1.len() + b2.len() + b3.len() + b4.len() + b5.len() + b6.len() + b7.len() + b8.len() + b9.len() + b10.len() + b11.len() + b12.len() + b13.len() + b14.len() + b15.len() + b16.len() + b17.len());
                let b19 = self.fan_frequency.cdr_bytes(offset + b0.len() + b1.len() + b2.len() + b3.len() + b4.len() + b5.len() + b6.len() + b7.len() + b8.len() + b9.len() + b10.len() + b11.len() + b12.len() + b13.len() + b14.len() + b15.len() + b16.len() + b17.len() + b18.len());
                let b20 = self.reserve.cdr_bytes(offset + b0.len() + b1.len() + b2.len() + b3.len() + b4.len() + b5.len() + b6.len() + b7.len() + b8.len() + b9.len() + b10.len() + b11.len() + b12.len() + b13.len() + b14.len() + b15.len() + b16.len() + b17.len() + b18.len() + b19.len());
                let b21 = self.crc.cdr_bytes(offset + b0.len() + b1.len() + b2.len() + b3.len() + b4.len() + b5.len() + b6.len() + b7.len() + b8.len() + b9.len() + b10.len() + b11.len() + b12.len() + b13.len() + b14.len() + b15.len() + b16.len() + b17.len() + b18.len() + b19.len() + b20.len());
                b0 + (b1 + (b2 + (b3 + (b4 + (b5 + (b6 + (b7 + (b8 + (b9 + (b10 + (b11 + (b12 + (b13 + (b14 + (b15 + (b16 + (b17 + (b18 + (b19 + (b20 + b21))))))))))))))))))))
            },
            self.deep_view() == (self.head.deep_view(), (self.level_flag.deep_view(), (self.frame_reserve.deep_view(), (self.sn.deep_view(), (self.version.deep_view(), (self.bandwidth.deep_view(), (self.imu_state.deep_view(), (self.motor_state.deep_view(), (self.bms_state.deep_view(), (self.foot_force.deep_view(), (self.foot_force_est.deep_view(), (self.tick.deep_view(), (self.wireless_remote.deep_view(), (self.bit_flag.deep_view(), (self.adc_reel.deep_view(), (self.temperature_ntc1.deep_view(), (self.temperature_ntc2.deep_view(), (self.power_v.deep_view(), (self.power_a.deep_view(), (self.fan_frequency.deep_view(), (self.reserve.deep_view(), self.crc.deep_view()))))))))))))))))))))),
    {
    }
}

impl DdsType for LowState {
    const TYPE_NAME: &'static str = "unitree_go::msg::dds_::LowState_";
    const IS_KEYLESS: bool = true;
}

impl DdsPod for LowState {
    const DESCRIPTOR_SYMBOL: &'static str = "unitree_go_msg_dds__LowState__desc";
}

// ---------------------------------------------------------------------------
// AudioData
// ---------------------------------------------------------------------------

/// `unitree_go/AudioData`: a frame of audio samples.
#[derive(Debug, Clone, PartialEq)]
pub struct AudioData {
    pub time_frame: u64,
    pub data: Vec<u8>,
}

/// The fields of [`AudioData`] as nested pairs, in wire order.
pub type AudioDataFields = (u64, Vec<u8>);

impl AudioData {
    /// The fields as nested pairs, in wire order.
    pub open spec fn fields(self) -> AudioDataFields {
        (self.time_frame, self.data)
    }

    /// Every field is zero (strings and sequences empty).
    pub open spec fn is_zeroed(&self) -> bool {
        &&& self.time_frame == 0
        &&& self.data@.len() == 0
    }
}

impl DeepView for AudioData {
    type V = <AudioDataFields as DeepView>::V;

    open spec fn deep_view(&self) -> Self::V {
        self.fields().deep_view()
    }
}

impl Default for AudioData {
    fn default() -> (v: Self)
        ensures
            v.is_zeroed(),
    {
        AudioData {
            time_frame: 0,
            data: Vec::new(),
        }
    }
}

impl CdrSerialize for AudioData {
    open spec fn cdr_bytes(&self, offset: nat) -> Seq<u8> {
        self.fields().cdr_bytes(offset)
    }

    fn serialize(&self, s: &mut CdrSerializer) {
        self.time_frame.serialize(s);
        self.data.serialize(s);
        assert(s@ =~= old(s)@ + self.cdr_bytes(old(s)@.len()));
    }
}

impl CdrDeserialize for AudioData {
    open spec fn cdr_read(body: Seq<u8>, offset: nat) -> (Result<Self::V, CdrError>, nat) {
        AudioDataFields::cdr_read(body, offset)
    }

    fn deserialize(d: &mut CdrDeserializer<'_>) -> (r: Result<Self, CdrError>) {
        let (time_frame, data) = AudioDataFields::deserialize(d)?;
        Ok(AudioData { time_frame, data })
    }

    open spec fn cdr_nonempty() -> bool {
        AudioDataFields::cdr_nonempty()
    }

    fn is_cdr_nonempty() -> (b: bool) {
        AudioDataFields::is_cdr_nonempty()
    }

    proof fn lemma_cdr_read_extends(body: Seq<u8>, offset: nat, ext: Seq<u8>) {
        AudioDataFields::lemma_cdr_read_extends(body, offset, ext);
    }
}

impl CdrRoundTrip for AudioData {
    open spec fn cdr_encodable(&self) -> bool {
        self.fields().cdr_encodable()
    }

    proof fn lemma_cdr_bytes_nonempty(&self, offset: nat) {
        self.fields().lemma_cdr_bytes_nonempty(offset);
    }

    proof fn lemma_cdr_roundtrip(&self, prefix: Seq<u8>, rest: Seq<u8>) {
        self.fields().lemma_cdr_roundtrip(prefix, rest);
    }
}

impl AudioData {
    /// The encoding follows the `.msg` declaration order: `time_frame`, `data`, each
    /// written where the one before it ends; and a read value lists the fields
    /// in that order.
    pub proof fn lemma_declaration_order(&self, offset: nat)
        ensures
            self.cdr_bytes(offset) == {
                let b0 = self.time_frame.cdr_bytes(offset);
                let b1 = self.data.cdr_bytes(offset + b0.len());
                b0 + b1
            },
            self.deep_view() == (self.time_frame.deep_view(), self.data.deep_view()),
    {
    }
}

impl DdsType for AudioData {
    const TYPE_NAME: &'static str = "unitree_go::msg::dds_::AudioData_";
    const IS_KEYLESS: bool = true;
}

// ---------------------------------------------------------------------------
// Error
// ---------------------------------------------------------------------------

/// `unitree_go/Error`: an error report: its source and state.
#[derive(Debug, Clone, Copy, PartialEq)]
pub struct Error {
    pub source: u32,
    pub state: u32,
}

/// The fields of [`Error`] as nested pairs, in wire order.
pub type ErrorFields = (u32, u32);

impl Error {
    /// The fields as nested pairs, in wire order.
    pub open spec fn fields(self) -> ErrorFields {
        (self.source, self.state)
    }

    /// Every field is zero (strings and sequences empty).
    pub open spec fn is_zeroed(&self) -> bool {
        &&& self.source == 0
        &&& self.state == 0
    }
}

impl DeepView for Error {
    type V = <ErrorFields as DeepView>::V;

    open spec fn deep_view(&self) -> Self::V {
        self.fields().deep_view()
    }
}

impl Default for Error {
    fn default() -> (v: Self)
        ensures
            v.is_zeroed(),
    {
        Error {
            source: 0,
            state: 0,
        }
    }
}

impl CdrSerialize for Error {
    open spec fn cdr_bytes(&self, offset: nat) -> Seq<u8> {
        self.fields().cdr_bytes(offset)
    }

    fn serialize(&self, s: &mut CdrSerializer) {
        let t: ErrorFields = (self.source, self.state);
        t.serialize(s);
    }
}

impl CdrDeserialize for Error {
    open spec fn cdr_read(body: Seq<u8>, offset: nat) -> (Result<Self::V, CdrError>, nat) {
        ErrorFields::cdr_read(body, offset)
    }

    fn deserialize(d: &mut CdrDeserializer<'_>) -> (r: Result<Self, CdrError>) {
        let (source, state) = ErrorFields::deserialize(d)?;
        Ok(Error { source, state })
    }

    open spec fn cdr_nonempty() -> bool {
        ErrorFields::cdr_nonempty()
    }

    fn is_cdr_nonempty() -> (b: bool) {
        ErrorFields::is_cdr_nonempty()
    }

    proof fn lemma_cdr_read_extends(body: Seq<u8>, offset: nat, ext: Seq<u8>) {
        ErrorFields::lemma_cdr_read_extends(body, offset, ext);
    }
}

impl CdrRoundTrip for Error {
    open spec fn cdr_encodable(&self) -> bool {
        self.fields().cdr_encodable()
    }

    proof fn lemma_cdr_bytes_nonempty(&self, offset: nat) {
        self.fields().lemma_cdr_bytes_nonempty(offset);
    }

    proof fn lemma_cdr_roundtrip(&self, prefix: Seq<u8>, rest: Seq<u8>) {
        self.fields().lemma_cdr_roundtrip(prefix, rest);
    }
}

impl Error {
    /// The encoding follows the `.msg` declaration order: `source`, `state`, each
    /// written where the one before it ends; and a read value lists the fields
    /// in that order.
    pub proof fn lemma_declaration_order(&self, offset: nat)
        ensures
            self.cdr_bytes(offset) == {
                let b0 = self.source.cdr_bytes(offset);
                let b1 = self.state.cdr_bytes(offset + b0.len());
                b0 + b1
            },
            self.deep_view() == (self.source.deep_view(), self.state.deep_view()),
    {
    }
}

impl DdsType for Error {
    const TYPE_NAME: &'static str = "unitree_go::msg::dds_::Error_";
    const IS_KEYLESS: bool = true;
}

impl DdsPod for Error {
    const DESCRIPTOR_SYMBOL: &'static str = "unitree_go_msg_dds__Error__desc";
}

// ---------------------------------------------------------------------------
// Go2FrontVideoData
// ---------------------------------------------------------------------------

/// `unitree_go/Go2FrontVideoData`: a frame of the front camera at three resolutions.
#[derive(Debug, Clone, PartialEq)]
pub struct Go2FrontVideoData {
    pub time_frame: u64,
    pub video720p: Vec<u8>,
    pub video360p: Vec<u8>,
    pub video180p: Vec<u8>,
}

/// The fields of [`Go2FrontVideoData`] as nested pairs, in wire order.
pub type Go2FrontVideoDataFields = (u64, (Vec<u8>, (Vec<u8>, Vec<u8>)));

impl Go2FrontVideoData {
    /// The fields as nested pairs, in wire order.
    pub open spec fn fields(self) -> Go2FrontVideoDataFields {
        (self.time_frame, (self.video720p, (self.video360p, self.video180p)))
    }

    /// Every field is zero (strings and sequences empty).
    pub open spec fn is_zeroed(&self) -> bool {
        &&& self.time_frame == 0
        &&& self.video720p@.len() == 0
        &&& self.video360p@.len() == 0
        &&& self.video180p@.len() == 0
    }
}

impl DeepView for Go2FrontVideoData {
    type V = <Go2FrontVideoDataFields as DeepView>::V;

    open spec fn deep_view(&self) -> Self::V {
        self.fields().deep_view()
    }
}

impl Default for Go2FrontVideoData {
    fn default() -> (v: Self)
        ensures
            v.is_zeroed(),
    {
        Go2FrontVideoData {
            time_frame: 0,
            video720p: Vec::new(),
            video360p: Vec::new(),
            video180p: Vec::new(),
        }
    }
}

impl CdrSerialize for Go2FrontVideoData {
    open spec fn cdr_bytes(&self, offset: nat) -> Seq<u8> {
        self.fields().cdr_bytes(offset)
    }

    fn serialize(&self, s: &mut CdrSerializer) {
        self.time_frame.serialize(s);
        self.video720p.serialize(s);
        self.video360p.serialize(s);
        self.video180p.serialize(s);
        assert(s@ =~= old(s)@ + self.cdr_bytes(old(s)@.len()));
    }
}

impl CdrDeserialize for Go2FrontVideoData {
    open spec fn cdr_read(body: Seq<u8>, offset: nat) -> (Result<Self::V, CdrError>, nat) {
        Go2FrontVideoDataFields::cdr_read(body, offset)
    }

    fn deserialize(d: &mut CdrDeserializer<'_>) -> (r: Result<Self, CdrError>) {
        let (time_frame, (video720p, (video360p, video180p))) = Go2FrontVideoDataFields::deserialize(d)?;
        Ok(Go2FrontVideoData { time_frame, video720p, video360p, video180p })
    }

    open spec fn cdr_nonempty() -> bool {
        Go2FrontVideoDataFields::cdr_nonempty()
    }

    fn is_cdr_nonempty() -> (b: bool) {
        Go2FrontVideoDataFields::is_cdr_nonempty()
    }

    proof fn lemma_cdr_read_extends(body: Seq<u8>, offset: nat, ext: Seq<u8>) {
        Go2FrontVideoDataFields::lemma_cdr_read_extends(body, offset, ext);
    }
}

impl CdrRoundTrip for Go2FrontVideoData {
    open spec fn cdr_encodable(&self) -> bool {
        self.fields().cdr_encodable()
    }

    proof fn lemma_cdr_bytes_nonempty(&self, offset: nat) {
        self.fields().lemma_cdr_bytes_nonempty(offset);
    }

    proof fn lemma_cdr_roundtrip(&self, prefix: Seq<u8>, rest: Seq<u8>) {
        self.fields().lemma_cdr_roundtrip(prefix, rest);
    }
}

impl Go2FrontVideoData {
    /// The encoding follows the `.msg` declaration order: `time_frame`, `video720p`, `video360p`, `video180p`, each
    /// written where the one before it ends; and a read value lists the fields
    /// in that order.
    pub proof fn lemma_declaration_order(&self, offset: nat)
        ensures
            self.cdr_bytes(offset) == {
                let b0 = self.time_frame.cdr_bytes(offset);
                let b1 = self.video720p.cdr_bytes(offset + b0.len());
                let b2 = self.video360p.cdr_bytes(offset + b0.len() + b1.len());
                let b3 = self.video180p.cdr_bytes(offset + b0.len() + b1.len() + b2.len());
                b0 + (b1 + (b2 + b3))
            },
            self.deep_view() == (self.time_frame.deep_view(), (self.video720p.deep_view(), (self.video360p.deep_view(), self.video180p.deep_view()))),
    {
    }
}

impl DdsType for Go2FrontVideoData {
    const TYPE_NAME: &'static str = "unitree_go::msg::dds_::Go2FrontVideoData_";
    const IS_KEYLESS: bool = true;
}

// ---------------------------------------------------------------------------
// InterfaceConfig
// ---------------------------------------------------------------------------

/// `unitree_go/InterfaceConfig`: an interface mode setting.
#[derive(Debug, Clone, Copy, PartialEq)]
pub struct InterfaceConfig {
    pub mode: u8,
    pub value: u8,
    pub reserve: [u8; 2],
}

/// The fields of [`InterfaceConfig`] as nested pairs, in wire order.
pub type InterfaceConfigFields = (u8, (u8, [u8; 2]));

impl InterfaceConfig {
    /// The fields as nested pairs, in wire order.
    pub open spec fn fields(self) -> InterfaceConfigFields {
        (self.mode, (self.value, self.reserve))
    }

    /// Every field is zero (strings and sequences empty).
    pub open spec fn is_zeroed(&self) -> bool {
        &&& self.mode == 0
        &&& self.value == 0
        &&& (forall|i: int| 0 <= i < 2 ==> #[trigger] self.reserve@[i] == 0)
    }
}

impl DeepView for InterfaceConfig {
    type V = <InterfaceConfigFields as DeepView>::V;

    open spec fn deep_view(&self) -> Self::V {
        self.fields().deep_view()
    }
}

impl Default for InterfaceConfig {
    fn default() -> (v: Self)
        ensures
            v.is_zeroed(),
    {
        InterfaceConfig {
            mode: 0,
            value: 0,
            reserve: [0u8; 2],
        }
    }
}

impl CdrSerialize for InterfaceConfig {
    open spec fn cdr_bytes(&self, offset: nat) -> Seq<u8> {
        self.fields().cdr_bytes(offset)
    }

    fn serialize(&self, s: &mut CdrSerializer) {
        let t: InterfaceConfigFields = (self.mode, (self.value, self.reserve));
        t.serialize(s);
    }
}

impl CdrDeserialize for InterfaceConfig {
    open spec fn cdr_read(body: Seq<u8>, offset: nat) -> (Result<Self::V, CdrError>, nat) {
        InterfaceConfigFields::cdr_read(body, offset)
    }

    fn deserialize(d: &mut CdrDeserializer<'_>) -> (r: Result<Self, CdrError>) {
        let (mode, (value, reserve)) = InterfaceConfigFields::deserialize(d)?;
        Ok(InterfaceConfig { mode, value, reserve })
    }

    open spec fn cdr_nonempty() -> bool {
        InterfaceConfigFields::cdr_nonempty()
    }

    fn is_cdr_nonempty() -> (b: bool) {
        InterfaceConfigFields::is_cdr_nonempty()
    }

    proof fn lemma_cdr_read_extends(body: Seq<u8>, offset: nat, ext: Seq<u8>) {
        InterfaceConfigFields::lemma_cdr_read_extends(body, offset, ext);
    }
}

impl CdrRoundTrip for InterfaceConfig {
    open spec fn cdr_encodable(&self) -> bool {
        self.fields().cdr_encodable()
    }

    proof fn lemma_cdr_bytes_nonempty(&self, offset: nat) {
        self.fields().lemma_cdr_bytes_nonempty(offset);
    }

    proof fn lemma_cdr_roundtrip(&self, prefix: Seq<u8>, rest: Seq<u8>) {
        self.fields().lemma_cdr_roundtrip(prefix, rest);
    }
}

impl InterfaceConfig {
    /// The encoding follows the `.msg` declaration order: `mode`, `value`, `reserve`, each
    /// written where the one before it ends; and a read value lists the fields
    /// in that order.
    pub proof fn lemma_declaration_order(&self, offset: nat)
        ensures
            self.cdr_bytes(offset) == {
                let b0 = self.mode.cdr_bytes(offset);
                let b1 = self.value.cdr_bytes(offset + b0.len());
                let b2 = self.reserve.cdr_bytes(offset + b0.len() + b1.len());
                b0 + (b1 + b2)
            },
            self.deep_view() == (self.mode.deep_view(), (self.value.deep_view(), self.reserve.deep_view())),
    {
    }
}

impl DdsType for InterfaceConfig {
    const TYPE_NAME: &'static str = "unitree_go::msg::dds_::InterfaceConfig_";
    const IS_KEYLESS: bool = true;
}

impl DdsPod for InterfaceConfig {
    const DESCRIPTOR_SYMBOL: &'static str = "unitree_go_msg_dds__InterfaceConfig__desc";
}

// ---------------------------------------------------------------------------
// LidarState
// ---------------------------------------------------------------------------

/// `unitree_go/LidarState`: the LIDAR's versions, rates and health.
#[derive(Debug, Clone, PartialEq)]
pub struct LidarState {
    /// `float64` bits.
    pub stamp: u64,
    pub firmware_version: String,
    pub software_version: String,
    pub sdk_version: String,
    /// `float32` bits.
    pub sys_rotation_speed: u32,
    /// `float32` bits.
    pub com_rotation_speed: u32,
    pub error_state: u8,
    /// `float32` bits.
    pub cloud_frequency: u32,
    /// `float32` bits.
    pub cloud_packet_loss_rate: u32,
    pub cloud_size: u32,
    pub cloud_scan_num: u32,
    /// `float32` bits.
    pub imu_frequency: u32,
    /// `float32` bits.
    pub imu_packet_loss_rate: u32,
    /// `float32` bits, each.
    pub imu_rpy: [u32; 3],
    /// `float64` bits.
    pub serial_recv_stamp: u64,
    pub serial_buffer_size: u32,
    pub serial_buffer_read: u32,
}

/// The fields of [`LidarState`] as nested pairs, in wire order.
pub type LidarStateFields = (u64, (String, (String, (String, (u32, (u32, (u8, (u32, (u32, (u32, (u32, (u32, (u32, ([u32; 3], (u64, (u32, u32))))))))))))))));

impl LidarState {
    /// The fields as nested pairs, in wire order.
    pub open spec fn fields(self) -> LidarStateFields {
        (self.stamp, (self.firmware_version, (self.software_version, (self.sdk_version, (self.sys_rotation_speed, (self.com_rotation_speed, (self.error_state, (self.cloud_frequency, (self.cloud_packet_loss_rate, (self.cloud_size, (self.cloud_scan_num, (self.imu_frequency, (self.imu_packet_loss_rate, (self.imu_rpy, (self.serial_recv_stamp, (self.serial_buffer_size, self.serial_buffer_read))))))))))))))))
    }

    /// Every field is zero (strings and sequences empty).
    pub open spec fn is_zeroed(&self) -> bool {
        &&& self.stamp == 0
        &&& self.firmware_version@.len() == 0
        &&& self.software_version@.len() == 0
        &&& self.sdk_version@.len() == 0
        &&& self.sys_rotation_speed == 0
        &&& self.com_rotation_speed == 0
        &&& self.error_state == 0
        &&& self.cloud_frequency == 0
        &&& self.cloud_packet_loss_rate == 0
        &&& self.cloud_size == 0
        &&& self.cloud_scan_num == 0
        &&& self.imu_frequency == 0
        &&& self.imu_packet_loss_rate == 0
        &&& (forall|i: int| 0 <= i < 3 ==> #[trigger] self.imu_rpy@[i] == 0)
        &&& self.serial_recv_stamp == 0
        &&& self.serial_buffer_size == 0
        &&& self.serial_buffer_read == 0
    }
}

impl DeepView for LidarState {
    type V = <LidarStateFields as DeepView>::V;

    open spec fn deep_view(&self) -> Self::V {
        self.fields().deep_view()
    }
}

impl Default for LidarState {
    fn default() -> (v: Self)
        ensures
            v.is_zeroed(),
    {
        LidarState {
            stamp: 0,
            firmware_version: String::new(),
            software_version: String::new(),
            sdk_version: String::new(),
            sys_rotation_speed: 0,
            com_rotation_speed: 0,
            error_state: 0,
            cloud_frequency: 0,
            cloud_packet_loss_rate: 0,
            cloud_size: 0,
            cloud_scan_num: 0,
            imu_frequency: 0,
            imu_packet_loss_rate: 0,
            imu_rpy: [0u32; 3],
            serial_recv_stamp: 0,
            serial_buffer_size: 0,
            serial_buffer_read: 0,
        }
    }
}

impl CdrSerialize for LidarState {
    open spec fn cdr_bytes(&self, offset: nat) -> Seq<u8> {
        self.fields().cdr_bytes(offset)
    }

    fn serialize(&self, s: &mut CdrSerializer) {
        self.stamp.serialize(s);
        self.firmware_version.serialize(s);
        self.software_version.serialize(s);
        self.sdk_version.serialize(s);
        let t: (u32, (u32, (u8, (u32, (u32, (u32, (u32, (u32, (u32, ([u32; 3], (u64, (u32, u32)))))))))))) = (self.sys_rotation_speed, (self.com_rotation_speed, (self.error_state, (self.cloud_frequency, (self.cloud_packet_loss_rate, (self.cloud_size, (self.cloud_scan_num, (self.imu_frequency, (self.imu_packet_loss_rate, (self.imu_rpy, (self.serial_recv_stamp, (self.serial_buffer_size, self.serial_buffer_read))))))))))));
        t.serialize(s);
        assert(s@ =~= old(s)@ + self.cdr_bytes(old(s)@.len()));
    }
}

impl CdrDeserialize for LidarState {
    open spec fn cdr_read(body: Seq<u8>, offset: nat) -> (Result<Self::V, CdrError>, nat) {
        LidarStateFields::cdr_read(body, offset)
    }

    fn deserialize(d: &mut CdrDeserializer<'_>) -> (r: Result<Self, CdrError>) {
        let (stamp, (firmware_version, (software_version, (sdk_version, (sys_rotation_speed, (com_rotation_speed, (error_state, (cloud_frequency, (cloud_packet_loss_rate, (cloud_size, (cloud_scan_num, (imu_frequency, (imu_packet_loss_rate, (imu_rpy, (serial_recv_stamp, (serial_buffer_size, serial_buffer_read)))))))))))))))) = LidarStateFields::deserialize(d)?;
        Ok(LidarState { stamp, firmware_version, software_version, sdk_version, sys_rotation_speed, com_rotation_speed, error_state, cloud_frequency, cloud_packet_loss_rate, cloud_size, cloud_scan_num, imu_frequency, imu_packet_loss_rate, imu_rpy, serial_recv_stamp, serial_buffer_size, serial_buffer_read })
    }

    open spec fn cdr_nonempty() -> bool {
        LidarStateFields::cdr_nonempty()
    }

    fn is_cdr_nonempty() -> (b: bool) {
        LidarStateFields::is_cdr_nonempty()
    }

    proof fn lemma_cdr_read_extends(body: Seq<u8>, offset: nat, ext: Seq<u8>) {
        LidarStateFields::lemma_cdr_read_extends(body, offset, ext);
    }
}

impl CdrRoundTrip for LidarState {
    open spec fn cdr_encodable(&self) -> bool {
        self.fields().cdr_encodable()
    }

    proof fn lemma_cdr_bytes_nonempty(&self, offset: nat) {
        self.fields().lemma_cdr_bytes_nonempty(offset);
    }

    proof fn lemma_cdr_roundtrip(&self, prefix: Seq<u8>, rest: Seq<u8>) {
        self.fields().lemma_cdr_roundtrip(prefix, rest);
    }
}

impl LidarState {
    /// The encoding follows the `.msg` declaration order: `stamp`, `firmware_version`, `software_version`, `sdk_version`, `sys_rotation_speed`, `com_rotation_speed`, `error_state`, `cloud_frequency`, `cloud_packet_loss_rate`, `cloud_size`, `cloud_scan_num`, `imu_frequency`, `imu_packet_loss_rate`, `imu_rpy`, `serial_recv_stamp`, `serial_buffer_size`, `serial_buffer_read`, each
    /// written where the one before it ends; and a read value lists the fields
    /// in that order.
    pub proof fn lemma_declaration_order(&self, offset: nat)
        ensures
            self.cdr_bytes(offset) == {
                let b0 = self.stamp.cdr_bytes(offset);
                let b1 = self.firmware_version.cdr_bytes(offset + b0.len());
                let b2 = self.software_version.cdr_bytes(offset + b0.len() + b1.len());
                let b3 = self.sdk_version.cdr_bytes(offset + b0.len() + b1.len() + b2.len());
                let b4 = self.sys_rotation_speed.cdr_bytes(offset + b0.len() + b1.len() + b2.len() + b3.len());
                let b5 = self.com_rotation_speed.cdr_bytes(offset + b0.len() + b1.len() + b2.len() + b3.len() + b4.len());
                let b6 = self.error_state.cdr_bytes(offset + b0.len() + b1.len() + b2.len() + b3.len() + b4.len() + b5.len());
                let b7 = self.cloud_frequency.cdr_bytes(offset + b0.len() + b1.len() + b2.len() + b3.len() + b4.len() + b5.len() + b6.len());
                let b8 = self.cloud_packet_loss_rate.cdr_bytes(offset + b0.len() + b1.len() + b2.len() + b3.len() + b4.len() + b5.len() + b6.len() + b7.len());
                let b9 = self.cloud_size.cdr_bytes(offset + b0.len() + b1.len() + b2.len() + b3.len() + b4.len() + b5.len() + b6.len() + b7.len() + b8.len());
                let b10 = self.cloud_scan_num.cdr_bytes(offset + b0.len() + b1.len() + b2.len() + b3.len() + b4.len() + b5.len() + b6.len() + b7.len() + b8.len() + b9.len());
                let b11 = self.imu_frequency.cdr_bytes(offset + b0.len() + b1.len() + b2.len() + b3.len() + b4.len() + b5.len() + b6.len() + b7.len() + b8.len() + b9.len() + b10.len());
                let b12 = self.imu_packet_loss_rate.cdr_bytes(offset + b0.len() + b1.len() + b2.len() + b3.len() + b4.len() + b5.len() + b6.len() + b7.len() + b8.len() + b9.len() + b10.len() + b11.len());
                let b13 = self.imu_rpy.cdr_bytes(offset + b0.len() + b1.len() + b2.len() + b3.len() + b4.len() + b5.len() + b6.len() + b7.len() + b8.len() + b9.len() + b10.len() + b11.len() + b12.len());
                let b14 = self.serial_recv_stamp.cdr_bytes(offset + b0.len() + b1.len() + b2.len() + b3.len() + b4.len() + b5.len() + b6.len() + b7.len() + b8.len() + b9.len() + b10.len() + b11.len() + b12.len() + b13.len());
                let b15 = self.serial_buffer_size.cdr_bytes(offset + b0.len() + b1.len() + b2.len() + b3.len() + b4.len() + b5.len() + b6.len() + b7.len() + b8.len() + b9.len() + b10.len() + b11.len() + b12.len() + b13.len() + b14.len());
                let b16 = self.serial_buffer_read.cdr_bytes(offset + b0.len() + b1.len() + b2.len() + b3.len() + b4.len() + b5.len() + b6.len() + b7.len() + b8.len() + b9.len() + b10.len() + b11.len() + b12.len() + b13.len() + b14.len() + b15.len());
                b0 + (b1 + (b2 + (b3 + (b4 + (b5 + (b6 + (b7 + (b8 + (b9 + (b10 + (b11 + (b12 + (b13 + (b14 + (b15 + b16)))))))))))))))
            },
            self.deep_view() == (self.stamp.deep_view(), (self.firmware_version.deep_view(), (self.software_version.deep_view(), (self.sdk_version.deep_view(), (self.sys_rotation_speed.deep_view(), (self.com_rotation_speed.deep_view(), (self.error_state.deep_view(), (self.cloud_frequency.deep_view(), (self.cloud_packet_loss_rate.deep_view(), (self.cloud_size.deep_view(), (self.cloud_scan_num.deep_view(), (self.imu_frequency.deep_view(), (self.imu_packet_loss_rate.deep_view(), (self.imu_rpy.deep_view(), (self.serial_recv_stamp.deep_view(), (self.serial_buffer_size.deep_view(), self.serial_buffer_read.deep_view())))))))))))))))),
    {
    }
}

impl DdsType for LidarState {
    const TYPE_NAME: &'static str = "unitree_go::msg::dds_::LidarState_";
    const IS_KEYLESS: bool = true;
}

// ---------------------------------------------------------------------------
// MotorCmds
// ---------------------------------------------------------------------------

/// `unitree_go/MotorCmds`: a run of motor commands.
#[derive(Debug, Clone, PartialEq)]
pub struct MotorCmds {
    pub cmds: Vec<MotorCmd>,
}

/// The fields of [`MotorCmds`] as nested pairs, in wire order.
pub type MotorCmdsFields = Vec<MotorCmd>;

impl MotorCmds {
    /// The fields as nested pairs, in wire order.
    pub open spec fn fields(self) -> MotorCmdsFields {
        self.cmds
    }

    /// Every field is zero (strings and sequences empty).
    pub open spec fn is_zeroed(&self) -> bool {
        &&& self.cmds@.len() == 0
    }
}

impl DeepView for MotorCmds {
    type V = <MotorCmdsFields as DeepView>::V;

    open spec fn deep_view(&self) -> Self::V {
        self.fields().deep_view()
    }
}

impl Default for MotorCmds {
    fn default() -> (v: Self)
        ensures
            v.is_zeroed(),
    {
        MotorCmds {
            cmds: Vec::new(),
        }
    }
}

impl CdrSerialize for MotorCmds {
    open spec fn cdr_bytes(&self, offset: nat) -> Seq<u8> {
        self.fields().cdr_bytes(offset)
    }

    fn serialize(&self, s: &mut CdrSerializer) {
        self.cmds.serialize(s);
        assert(s@ =~= old(s)@ + self.cdr_bytes(old(s)@.len()));
    }
}

impl CdrDeserialize for MotorCmds {
    open spec fn cdr_read(body: Seq<u8>, offset: nat) -> (Result<Self::V, CdrError>, nat) {
        MotorCmdsFields::cdr_read(body, offset)
    }

    fn deserialize(d: &mut CdrDeserializer<'_>) -> (r: Result<Self, CdrError>) {
        let cmds = MotorCmdsFields::deserialize(d)?;
        Ok(MotorCmds { cmds })
    }

    open spec fn cdr_nonempty() -> bool {
        MotorCmdsFields::cdr_nonempty()
    }

    fn is_cdr_nonempty() -> (b: bool) {
        MotorCmdsFields::is_cdr_nonempty()
    }

    proof fn lemma_cdr_read_extends(body: Seq<u8>, offset: nat, ext: Seq<u8>) {
        MotorCmdsFields::lemma_cdr_read_extends(body, offset, ext);
    }
}

impl CdrRoundTrip for MotorCmds {
    open spec fn cdr_encodable(&self) -> bool {
        self.fields().cdr_encodable()
    }

    proof fn lemma_cdr_bytes_nonempty(&self, offset: nat) {
        self.fields().lemma_cdr_bytes_nonempty(offset);
    }

    proof fn lemma_cdr_roundtrip(&self, prefix: Seq<u8>, rest: Seq<u8>) {
        self.fields().lemma_cdr_roundtrip(prefix, rest);
    }
}

impl MotorCmds {
    /// The encoding follows the `.msg` declaration order: `cmds`, each
    /// written where the one before it ends; and a read value lists the fields
    /// in that order.
    pub proof fn lemma_declaration_order(&self, offset: nat)
        ensures
            self.cdr_bytes(offset) == {
                let b0 = self.cmds.cdr_bytes(offset);
                b0
            },
            self.deep_view() == self.cmds.deep_view(),
    {
    }
}

impl DdsType for MotorCmds {
    const TYPE_NAME: &'static str = "unitree_go::msg::dds_::MotorCmds_";
    const IS_KEYLESS: bool = true;
}

// ---------------------------------------------------------------------------
// MotorStates
// ---------------------------------------------------------------------------

/// `unitree_go/MotorStates`: a run of motor states.
#[derive(Debug, Clone, PartialEq)]
pub struct MotorStates {
    pub states: Vec<MotorState>,
}

/// The fields of [`MotorStates`] as nested pairs, in wire order.
pub type MotorStatesFields = Vec<MotorState>;

impl MotorStates {
    /// The fields as nested pairs, in wire order.
    pub open spec fn fields(self) -> MotorStatesFields {
        self.states
    }

    /// Every field is zero (strings and sequences empty).
    pub open spec fn is_zeroed(&self) -> bool {
        &&& self.states@.len() == 0
    }
}

impl DeepView for MotorStates {
    type V = <MotorStatesFields as DeepView>::V;

    open spec fn deep_view(&self) -> Self::V {
        self.fields().deep_view()
    }
}

impl Default for MotorStates {
    fn default() -> (v: Self)
        ensures
            v.is_zeroed(),
    {
        MotorStates {
            states: Vec::new(),
        }
    }
}

impl CdrSerialize for MotorStates {
    open spec fn cdr_bytes(&self, offset: nat) -> Seq<u8> {
        self.fields().cdr_bytes(offset)
    }

    fn serialize(&self, s: &mut CdrSerializer) {
        self.states.serialize(s);
        assert(s@ =~= old(s)@ + self.cdr_bytes(old(s)@.len()));
    }
}

impl CdrDeserialize for MotorStates {
    open spec fn cdr_read(body: Seq<u8>, offset: nat) -> (Result<Self::V, CdrError>, nat) {
        MotorStatesFields::cdr_read(body, offset)
    }

    fn deserialize(d: &mut CdrDeserializer<'_>) -> (r: Result<Self, CdrError>) {
        let states = MotorStatesFields::deserialize(d)?;
        Ok(MotorStates { states })
    }

    open spec fn cdr_nonempty() -> bool {
        MotorStatesFields::cdr_nonempty()
    }

    fn is_cdr_nonempty() -> (b: bool) {
        MotorStatesFields::is_cdr_nonempty()
    }

    proof fn lemma_cdr_read_extends(body: Seq<u8>, offset: nat, ext: Seq<u8>) {
        MotorStatesFields::lemma_cdr_read_extends(body, offset, ext);
    }
}

impl CdrRoundTrip for MotorStates {
    open spec fn cdr_encodable(&self) -> bool {
        self.fields().cdr_encodable()
    }

    proof fn lemma_cdr_bytes_nonempty(&self, offset: nat) {
        self.fields().lemma_cdr_bytes_nonempty(offset);
    }

    proof fn lemma_cdr_roundtrip(&self, prefix: Seq<u8>, rest: Seq<u8>) {
        self.fields().lemma_cdr_roundtrip(prefix, rest);
    }
}

impl MotorStates {
    /// The encoding follows the `.msg` declaration order: `states`, each
    /// written where the one before it ends; and a read value lists the fields
    /// in that order.
    pub proof fn lemma_declaration_order(&self, offset: nat)
        ensures
            self.cdr_bytes(offset) == {
                let b0 = self.states.cdr_bytes(offset);
                b0
            },
            self.deep_view() == self.states.deep_view(),
    {
    }
}

impl DdsType for MotorStates {
    const TYPE_NAME: &'static str = "unitree_go::msg::dds_::MotorStates_";
    const IS_KEYLESS: bool = true;
}

// ---------------------------------------------------------------------------
// PathPoint
// ---------------------------------------------------------------------------

/// `unitree_go/PathPoint`: one point of a planned path.
#[derive(Debug, Clone, Copy, PartialEq)]
pub struct PathPoint {
    /// `float32` bits.
    pub t_from_start: u32,
    /// `float32` bits.
    pub x: u32,
    /// `float32` bits.
    pub y: u32,
    /// `float32` bits.
    pub yaw: u32,
    /// `float32` bits.
    pub vx: u32,
    /// `float32` bits.
    pub vy: u32,
    /// `float32` bits.
    pub vyaw: u32,
}

/// The fields of [`PathPoint`] as nested pairs, in wire order.
pub type PathPointFields = (u32, (u32, (u32, (u32, (u32, (u32, u32))))));

impl PathPoint {
    /// The fields as nested pairs, in wire order.
    pub open spec fn fields(self) -> PathPointFields {
        (self.t_from_start, (self.x, (self.y, (self.yaw, (self.vx, (self.vy, self.vyaw))))))
    }

    /// Every field is zero (strings and sequences empty).
    pub open spec fn is_zeroed(&self) -> bool {
        &&& self.t_from_start == 0
        &&& self.x == 0
        &&& self.y == 0
        &&& self.yaw == 0
        &&& self.vx == 0
        &&& self.vy == 0
        &&& self.vyaw == 0
    }
}

impl DeepView for PathPoint {
    type V = <PathPointFields as DeepView>::V;

    open spec fn deep_view(&self) -> Self::V {
        self.fields().deep_view()
    }
}

impl Default for PathPoint {
    fn default() -> (v: Self)
        ensures
            v.is_zeroed(),
    {
        PathPoint {
            t_from_start: 0,
            x: 0,
            y: 0,
            yaw: 0,
            vx: 0,
            vy: 0,
            vyaw: 0,
        }
    }
}

impl CdrSerialize for PathPoint {
    open spec fn cdr_bytes(&self, offset: nat) -> Seq<u8> {
        self.fields().cdr_bytes(offset)
    }

    fn serialize(&self, s: &mut CdrSerializer) {
        let t: PathPointFields = (self.t_from_start, (self.x, (self.y, (self.yaw, (self.vx, (self.vy, self.vyaw))))));
        t.serialize(s);
    }
}

impl CdrDeserialize for PathPoint {
    open spec fn cdr_read(body: Seq<u8>, offset: nat) -> (Result<Self::V, CdrError>, nat) {
        PathPointFields::cdr_read(body, offset)
    }

    fn deserialize(d: &mut CdrDeserializer<'_>) -> (r: Result<Self, CdrError>) {
        let (t_from_start, (x, (y, (yaw, (vx, (vy, vyaw)))))) = PathPointFields::deserialize(d)?;
        Ok(PathPoint { t_from_start, x, y, yaw, vx, vy, vyaw })
    }

    open spec fn cdr_nonempty() -> bool {
        PathPointFields::cdr_nonempty()
    }

    fn is_cdr_nonempty() -> (b: bool) {
        PathPointFields::is_cdr_nonempty()
    }

    proof fn lemma_cdr_read_extends(body: Seq<u8>, offset: nat, ext: Seq<u8>) {
        PathPointFields::lemma_cdr_read_extends(body, offset, ext);
    }
}

impl CdrRoundTrip for PathPoint {
    open spec fn cdr_encodable(&self) -> bool {
        self.fields().cdr_encodable()
    }

    proof fn lemma_cdr_bytes_nonempty(&self, offset: nat) {
        self.fields().lemma_cdr_bytes_nonempty(offset);
    }

    proof fn lemma_cdr_roundtrip(&self, prefix: Seq<u8>, rest: Seq<u8>) {
        self.fields().lemma_cdr_roundtrip(prefix, rest);
    }
}

impl PathPoint {
    /// The encoding follows the `.msg` declaration order: `t_from_start`, `x`, `y`, `yaw`, `vx`, `vy`, `vyaw`, each
    /// written where the one before it ends; and a read value lists the fields
    /// in that order.
    pub proof fn lemma_declaration_order(&self, offset: nat)
        ensures
            self.cdr_bytes(offset) == {
                let b0 = self.t_from_start.cdr_bytes(offset);
                let b1 = self.x.cdr_bytes(offset + b0.len());
                let b2 = self.y.cdr_bytes(offset + b0.len() + b1.len());
                let b3 = self.yaw.cdr_bytes(offset + b0.len() + b1.len() + b2.len());
                let b4 = self.vx.cdr_bytes(offset + b0.len() + b1.len() + b2.len() + b3.len());
                let b5 = self.vy.cdr_bytes(offset + b0.len() + b1.len() + b2.len() + b3.len() + b4.len());
                let b6 = self.vyaw.cdr_bytes(offset + b0.len() + b1.len() + b2.len() + b3.len() + b4.len() + b5.len());
                b0 + (b1 + (b2 + (b3 + (b4 + (b5 + b6)))))
            },
            self.deep_view() == (self.t_from_start.deep_view(), (self.x.deep_view(), (self.y.deep_view(), (self.yaw.deep_view(), (self.vx.deep_view(), (self.vy.deep_view(), self.vyaw.deep_view())))))),
    {
    }
}

impl DdsType for PathPoint {
    const TYPE_NAME: &'static str = "unitree_go::msg::dds_::PathPoint_";
    const IS_KEYLESS: bool = true;
}

impl DdsPod for PathPoint {
    const DESCRIPTOR_SYMBOL: &'static str = "unitree_go_msg_dds__PathPoint__desc";
}

// ---------------------------------------------------------------------------
// Req
// ---------------------------------------------------------------------------

/// `unitree_go/Req`: a request with an id and a body.
#[derive(Debug, Clone, PartialEq)]
pub struct Req {
    pub uuid: String,
    pub body: String,
}

/// The fields of [`Req`] as nested pairs, in wire order.
pub type ReqFields = (String, String);

impl Req {
    /// The fields as nested pairs, in wire order.
    pub open spec fn fields(self) -> ReqFields {
        (self.uuid, self.body)
    }

    /// Every field is zero (strings and sequences empty).
    pub open spec fn is_zeroed(&self) -> bool {
        &&& self.uuid@.len() == 0
        &&& self.body@.len() == 0
    }
}

impl DeepView for Req {
    type V = <ReqFields as DeepView>::V;

    open spec fn deep_view(&self) -> Self::V {
        self.fields().deep_view()
    }
}

impl Default for Req {
    fn default() -> (v: Self)
        ensures
            v.is_zeroed(),
    {
        Req {
            uuid: String::new(),
            body: String::new(),
        }
    }
}

impl CdrSerialize for Req {
    open spec fn cdr_bytes(&self, offset: nat) -> Seq<u8> {
        self.fields().cdr_bytes(offset)
    }

    fn serialize(&self, s: &mut CdrSerializer) {
        self.uuid.serialize(s);
        self.body.serialize(s);
        assert(s@ =~= old(s)@ + self.cdr_bytes(old(s)@.len()));
    }
}

impl CdrDeserialize for Req {
    open spec fn cdr_read(body: Seq<u8>, offset: nat) -> (Result<Self::V, CdrError>, nat) {
        ReqFields::cdr_read(body, offset)
    }

    fn deserialize(d: &mut CdrDeserializer<'_>) -> (r: Result<Self, CdrError>) {
        let (uuid, body) = ReqFields::deserialize(d)?;
        Ok(Req { uuid, body })
    }

    open spec fn cdr_nonempty() -> bool {
        ReqFields::cdr_nonempty()
    }

    fn is_cdr_nonempty() -> (b: bool) {
        ReqFields::is_cdr_nonempty()
    }

    proof fn lemma_cdr_read_extends(body: Seq<u8>, offset: nat, ext: Seq<u8>) {
        ReqFields::lemma_cdr_read_extends(body, offset, ext);
    }
}

impl CdrRoundTrip for Req {
    open spec fn cdr_encodable(&self) -> bool {
        self.fields().cdr_encodable()
    }

    proof fn lemma_cdr_bytes_nonempty(&self, offset: nat) {
        self.fields().lemma_cdr_bytes_nonempty(offset);
    }

    proof fn lemma_cdr_roundtrip(&self, prefix: Seq<u8>, rest: Seq<u8>) {
        self.fields().lemma_cdr_roundtrip(prefix, rest);
    }
}

impl Req {
    /// The encoding follows the `.msg` declaration order: `uuid`, `body`, each
    /// written where the one before it ends; and a read value lists the fields
    /// in that order.
    pub proof fn lemma_declaration_order(&self, offset: nat)
        ensures
            self.cdr_bytes(offset) == {
                let b0 = self.uuid.cdr_bytes(offset);
                let b1 = self.body.cdr_bytes(offset + b0.len());
                b0 + b1
            },
            self.deep_view() == (self.uuid.deep_view(), self.body.deep_view()),
    {
    }
}

impl DdsType for Req {
    const TYPE_NAME: &'static str = "unitree_go::msg::dds_::Req_";
    const IS_KEYLESS: bool = true;
}

// ---------------------------------------------------------------------------
// Res
// ---------------------------------------------------------------------------

/// `unitree_go/Res`: a reply with an id, binary data and a body.
#[derive(Debug, Clone, PartialEq)]
pub struct Res {
    pub uuid: String,
    pub data: Vec<u8>,
    pub body: String,
}

/// The fields of [`Res`] as nested pairs, in wire order.
pub type ResFields = (String, (Vec<u8>, String));

impl Res {
    /// The fields as nested pairs, in wire order.
    pub open spec fn fields(self) -> ResFields {
        (self.uuid, (self.data, self.body))
    }

    /// Every field is zero (strings and sequences empty).
    pub open spec fn is_zeroed(&self) -> bool {
        &&& self.uuid@.len() == 0
        &&& self.data@.len() == 0
        &&& self.body@.len() == 0
    }
}

impl DeepView for Res {
    type V = <ResFields as DeepView>::V;

    open spec fn deep_view(&self) -> Self::V {
        self.fields().deep_view()
    }
}

impl Default for Res {
    fn default() -> (v: Self)
        ensures
            v.is_zeroed(),
    {
        Res {
            uuid: String::new(),
            data: Vec::new(),
            body: String::new(),
        }
    }
}

impl CdrSerialize for Res {
    open spec fn cdr_bytes(&self, offset: nat) -> Seq<u8> {
        self.fields().cdr_bytes(offset)
    }

    fn serialize(&self, s: &mut CdrSerializer) {
        self.uuid.serialize(s);
        self.data.serialize(s);
        self.body.serialize(s);
        assert(s@ =~= old(s)@ + self.cdr_bytes(old(s)@.len()));
    }
}

impl CdrDeserialize for Res {
    open spec fn cdr_read(body: Seq<u8>, offset: nat) -> (Result<Self::V, CdrError>, nat) {
        ResFields::cdr_read(body, offset)
    }

    fn deserialize(d: &mut CdrDeserializer<'_>) -> (r: Result<Self, CdrError>) {
        let (uuid, (data, body)) = ResFields::deserialize(d)?;
        Ok(Res { uuid, data, body })
    }

    open spec fn cdr_nonempty() -> bool {
        ResFields::cdr_nonempty()
    }

    fn is_cdr_nonempty() -> (b: bool) {
        ResFields::is_cdr_nonempty()
    }

    proof fn lemma_cdr_read_extends(body: Seq<u8>, offset: nat, ext: Seq<u8>) {
        ResFields::lemma_cdr_read_extends(body, offset, ext);
    }
}

impl CdrRoundTrip for Res {
    open spec fn cdr_encodable(&self) -> bool {
        self.fields().cdr_encodable()
    }

    proof fn lemma_cdr_bytes_nonempty(&self, offset: nat) {
        self.fields().lemma_cdr_bytes_nonempty(offset);
    }

    proof fn lemma_cdr_roundtrip(&self, prefix: Seq<u8>, rest: Seq<u8>) {
        self.fields().lemma_cdr_roundtrip(prefix, rest);
    }
}

impl Res {
    /// The encoding follows the `.msg` declaration order: `uuid`, `data`, `body`, each
    /// written where the one before it ends; and a read value lists the fields
    /// in that order.
    pub proof fn lemma_declaration_order(&self, offset: nat)
        ensures
            self.cdr_bytes(offset) == {
                let b0 = self.uuid.cdr_bytes(offset);
                let b1 = self.data.cdr_bytes(offset + b0.len());
                let b2 = self.body.cdr_bytes(offset + b0.len() + b1.len());
                b0 + (b1 + b2)
            },
            self.deep_view() == (self.uuid.deep_view(), (self.data.deep_view(), self.body.deep_view())),
    {
    }
}

impl DdsType for Res {
    const TYPE_NAME: &'static str = "unitree_go::msg::dds_::Res_";
    const IS_KEYLESS: bool = true;
}

// ---------------------------------------------------------------------------
// SportModeCmd
// ---------------------------------------------------------------------------

/// `unitree_go/SportModeCmd`: a high-level motion command.
#[derive(Debug, Clone, Copy, PartialEq)]
pub struct SportModeCmd {
    pub mode: u8,
    pub gait_type: u8,
    pub speed_level: u8,
    /// `float32` bits.
    pub foot_raise_height: u32,
    /// `float32` bits.
    pub body_height: u32,
    /// `float32` bits, each.
    pub position: [u32; 2],
    /// `float32` bits, each.
    pub euler: [u32; 3],
    /// `float32` bits, each.
    pub velocity: [u32; 2],
    /// `float32` bits.
    pub yaw_speed: u32,
    pub bms_cmd: BmsCmd,
    pub path_point: [PathPoint; 30],
}

/// The fields of [`SportModeCmd`] as nested pairs, in wire order.
pub type SportModeCmdFields = (u8, (u8, (u8, (u32, (u32, ([u32; 2], ([u32; 3], ([u32; 2], (u32, (BmsCmd, [PathPoint; 30]))))))))));

impl SportModeCmd {
    /// The fields as nested pairs, in wire order.
    pub open spec fn fields(self) -> SportModeCmdFields {
        (self.mode, (self.gait_type, (self.speed_level, (self.foot_raise_height, (self.body_height, (self.position, (self.euler, (self.velocity, (self.yaw_speed, (self.bms_cmd, self.path_point))))))))))
    }

    /// Every field is zero (strings and sequences empty).
    pub open spec fn is_zeroed(&self) -> bool {
        &&& self.mode == 0
        &&& self.gait_type == 0
        &&& self.speed_level == 0
        &&& self.foot_raise_height == 0
        &&& self.body_height == 0
        &&& (forall|i: int| 0 <= i < 2 ==> #[trigger] self.position@[i] == 0)
        &&& (forall|i: int| 0 <= i < 3 ==> #[trigger] self.euler@[i] == 0)
        &&& (forall|i: int| 0 <= i < 2 ==> #[trigger] self.velocity@[i] == 0)
        &&& self.yaw_speed == 0
        &&& self.bms_cmd.is_zeroed()
        &&& (forall|i: int| 0 <= i < 30 ==> (#[trigger] self.path_point@[i]).is_zeroed())
    }
}

impl DeepView for SportModeCmd {
    type V = <SportModeCmdFields as DeepView>::V;

    open spec fn deep_view(&self) -> Self::V {
        self.fields().deep_view()
    }
}

impl Default for SportModeCmd {
    fn default() -> (v: Self)
        ensures
            v.is_zeroed(),
    {
        SportModeCmd {
            mode: 0,
            gait_type: 0,
            speed_level: 0,
            foot_raise_height: 0,
            body_height: 0,
            position: [0u32; 2],
            euler: [0u32; 3],
            velocity: [0u32; 2],
            yaw_speed: 0,
            bms_cmd: BmsCmd::default(),
            path_point: [PathPoint::default(); 30],
        }
    }
}

impl CdrSerialize for SportModeCmd {
    open spec fn cdr_bytes(&self, offset: nat) -> Seq<u8> {
        self.fields().cdr_bytes(offset)
    }

    fn serialize(&self, s: &mut CdrSerializer) {
        let t: SportModeCmdFields = (self.mode, (self.gait_type, (self.speed_level, (self.foot_raise_height, (self.body_height, (self.position, (self.euler, (self.velocity, (self.yaw_speed, (self.bms_cmd, self.path_point))))))))));
        t.serialize(s);
    }
}

impl CdrDeserialize for SportModeCmd {
    open spec fn cdr_read(body: Seq<u8>, offset: nat) -> (Result<Self::V, CdrError>, nat) {
        SportModeCmdFields::cdr_read(body, offset)
    }

    fn deserialize(d: &mut CdrDeserializer<'_>) -> (r: Result<Self, CdrError>) {
        let (mode, (gait_type, (speed_level, (foot_raise_height, (body_height, (position, (euler, (velocity, (yaw_speed, (bms_cmd, path_point)))))))))) = SportModeCmdFields::deserialize(d)?;
        Ok(SportModeCmd { mode, gait_type, speed_level, foot_raise_height, body_height, position, euler, velocity, yaw_speed, bms_cmd, path_point })
    }

    open spec fn cdr_nonempty() -> bool {
        SportModeCmdFields::cdr_nonempty()
    }

    fn is_cdr_nonempty() -> (b: bool) {
        SportModeCmdFields::is_cdr_nonempty()
    }

    proof fn lemma_cdr_read_extends(body: Seq<u8>, offset: nat, ext: Seq<u8>) {
        SportModeCmdFields::lemma_cdr_read_extends(body, offset, ext);
    }
}

impl CdrRoundTrip for SportModeCmd {
    open spec fn cdr_encodable(&self) -> bool {
        self.fields().cdr_encodable()
    }

    proof fn lemma_cdr_bytes_nonempty(&self, offset: nat) {
        self.fields().lemma_cdr_bytes_nonempty(offset);
    }

    proof fn lemma_cdr_roundtrip(&self, prefix: Seq<u8>, rest: Seq<u8>) {
        self.fields().lemma_cdr_roundtrip(prefix, rest);
    }
}

impl SportModeCmd {
    /// The encoding follows the `.msg` declaration order: `mode`, `gait_type`, `speed_level`, `foot_raise_height`, `body_height`, `position`, `euler`, `velocity`, `yaw_speed`, `bms_cmd`, `path_point`, each
    /// written where the one before it ends; and a read value lists the fields
    /// in that order.
    pub proof fn lemma_declaration_order(&self, offset: nat)
        ensures
            self.cdr_bytes(offset) == {
                let b0 = self.mode.cdr_bytes(offset);
                let b1 = self.gait_type.cdr_bytes(offset + b0.len());
                let b2 = self.speed_level.cdr_bytes(offset + b0.len() + b1.len());
                let b3 = self.foot_raise_height.cdr_bytes(offset + b0.len() + b1.len() + b2.len());
                let b4 = self.body_height.cdr_bytes(offset + b0.len() + b1.len() + b2.len() + b3.len());
                let b5 = self.position.cdr_bytes(offset + b0.len() + b1.len() + b2.len() + b3.len() + b4.len());
                let b6 = self.euler.cdr_bytes(offset + b0.len() + b1.len() + b2.len() + b3.len() + b4.len() + b5.len());
                let b7 = self.velocity.cdr_bytes(offset + b0.len() + b1.len() + b2.len() + b3.len() + b4.len() + b5.len() + b6.len());
                let b8 = self.yaw_speed.cdr_bytes(offset + b0.len() + b1.len() + b2.len() + b3.len() + b4.len() + b5.len() + b6.len() + b7.len());
                let b9 = self.bms_cmd.cdr_bytes(offset + b0.len() + b1.len() + b2.len() + b3.len() + b4.len() + b5.len() + b6.len() + b7.len() + b8.len());
                let b10 = self.path_point.cdr_bytes(offset + b0.len() + b1.len() + b2.len() + b3.len() + b4.len() + b5.len() + b6.len() + b7.len() + b8.len() + b9.len());
                b0 + (b1 + (b2 + (b3 + (b4 + (b5 + (b6 + (b7 + (b8 + (b9 + b10)))))))))
            },
            self.deep_view() == (self.mode.deep_view(), (self.gait_type.deep_view(), (self.speed_level.deep_view(), (self.foot_raise_height.deep_view(), (self.body_height.deep_view(), (self.position.deep_view(), (self.euler.deep_view(), (self.velocity.deep_view(), (self.yaw_speed.deep_view(), (self.bms_cmd.deep_view(), self.path_point.deep_view())))))))))),
    {
    }
}

impl DdsType for SportModeCmd {
    const TYPE_NAME: &'static str = "unitree_go::msg::dds_::SportModeCmd_";
    const IS_KEYLESS: bool = true;
}

impl DdsPod for SportModeCmd {
    const DESCRIPTOR_SYMBOL: &'static str = "unitree_go_msg_dds__SportModeCmd__desc";
}

// ---------------------------------------------------------------------------
// SportModeState
// ---------------------------------------------------------------------------

/// `unitree_go/SportModeState`: the high-level motion state.
#[derive(Debug, Clone, Copy, PartialEq)]
pub struct SportModeState {
    pub stamp: TimeSpec,
    pub error_code: u32,
    pub imu_state: IMUState,
    pub mode: u8,
    /// `float32` bits.
    pub progress: u32,
    pub gait_type: u8,
    /// `float32` bits.
    pub foot_raise_height: u32,
    /// `float32` bits, each.
    pub position: [u32; 3],
    /// `float32` bits.
    pub body_height: u32,
    /// `float32` bits, each.
    pub velocity: [u32; 3],
    /// `float32` bits.
    pub yaw_speed: u32,
    /// `float32` bits, each.
    pub range_obstacle: [u32; 4],
    pub foot_force: [i16; 4],
    /// `float32` bits, each.
    pub foot_position_body: [u32; 12],
    /// `float32` bits, each.
    pub foot_speed_body: [u32; 12],
}

/// The fields of [`SportModeState`] as nested pairs, in wire order.
pub type SportModeStateFields = (TimeSpec, (u32, (IMUState, (u8, (u32, (u8, (u32, ([u32; 3], (u32, ([u32; 3], (u32, ([u32; 4], ([i16; 4], ([u32; 12], [u32; 12]))))))))))))));

impl SportModeState {
    /// The fields as nested pairs, in wire order.
    pub open spec fn fields(self) -> SportModeStateFields {
        (self.stamp, (self.error_code, (self.imu_state, (self.mode, (self.progress, (self.gait_type, (self.foot_raise_height, (self.position, (self.body_height, (self.velocity, (self.yaw_speed, (self.range_obstacle, (self.foot_force, (self.foot_position_body, self.foot_speed_body))))))))))))))
    }

    /// Every field is zero (strings and sequences empty).
    pub open spec fn is_zeroed(&self) -> bool {
        &&& self.stamp.is_zeroed()
        &&& self.error_code == 0
        &&& self.imu_state.is_zeroed()
        &&& self.mode == 0
        &&& self.progress == 0
        &&& self.gait_type == 0
        &&& self.foot_raise_height == 0
        &&& (forall|i: int| 0 <= i < 3 ==> #[trigger] self.position@[i] == 0)
        &&& self.body_height == 0
        &&& (forall|i: int| 0 <= i < 3 ==> #[trigger] self.velocity@[i] == 0)
        &&& self.yaw_speed == 0
        &&& (forall|i: int| 0 <= i < 4 ==> #[trigger] self.range_obstacle@[i] == 0)
        &&& (forall|i: int| 0 <= i < 4 ==> #[trigger] self.foot_force@[i] == 0)
        &&& (forall|i: int| 0 <= i < 12 ==> #[trigger] self.foot_position_body@[i] == 0)
        &&& (forall|i: int| 0 <= i < 12 ==> #[trigger] self.foot_speed_body@[i] == 0)
    }
}

impl DeepView for SportModeState {
    type V = <SportModeStateFields as DeepView>::V;

    open spec fn deep_view(&self) -> Self::V {
        self.fields().deep_view()
    }
}

impl Default for SportModeState {
    fn default() -> (v: Self)
        ensures
            v.is_zeroed(),
    {
        SportModeState {
            stamp: TimeSpec::default(),
            error_code: 0,
            imu_state: IMUState::default(),
            mode: 0,
            progress: 0,
            gait_type: 0,
            foot_raise_height: 0,
            position: [0u32; 3],
            body_height: 0,
            velocity: [0u32; 3],
            yaw_speed: 0,
            range_obstacle: [0u32; 4],
            foot_force: [0i16; 4],
            foot_position_body: [0u32; 12],
            foot_speed_body: [0u32; 12],
        }
    }
}

impl CdrSerialize for SportModeState {
    open spec fn cdr_bytes(&self, offset: nat) -> Seq<u8> {
        self.fields().cdr_bytes(offset)
    }

    fn serialize(&self, s: &mut CdrSerializer) {
        let t: SportModeStateFields = (self.stamp, (self.error_code, (self.imu_state, (self.mode, (self.progress, (self.gait_type, (self.foot_raise_height, (self.position, (self.body_height, (self.velocity, (self.yaw_speed, (self.range_obstacle, (self.foot_force, (self.foot_position_body, self.foot_speed_body))))))))))))));
        t.serialize(s);
    }
}

impl CdrDeserialize for SportModeState {
    open spec fn cdr_read(body: Seq<u8>, offset: nat) -> (Result<Self::V, CdrError>, nat) {
        SportModeStateFields::cdr_read(body, offset)
    }

    fn deserialize(d: &mut CdrDeserializer<'_>) -> (r: Result<Self, CdrError>) {
        let (stamp, (error_code, (imu_state, (mode, (progress, (gait_type, (foot_raise_height, (position, (body_height, (velocity, (yaw_speed, (range_obstacle, (foot_force, (foot_position_body, foot_speed_body)))))))))))))) = SportModeStateFields::deserialize(d)?;
        Ok(SportModeState { stamp, error_code, imu_state, mode, progress, gait_type, foot_raise_height, position, body_height, velocity, yaw_speed, range_obstacle, foot_force, foot_position_body, foot_speed_body })
    }

    open spec fn cdr_nonempty() -> bool {
        SportModeStateFields::cdr_nonempty()
    }

    fn is_cdr_nonempty() -> (b: bool) {
        SportModeStateFields::is_cdr_nonempty()
    }

    proof fn lemma_cdr_read_extends(body: Seq<u8>, offset: nat, ext: Seq<u8>) {
        SportModeStateFields::lemma_cdr_read_extends(body, offset, ext);
    }
}

impl CdrRoundTrip for SportModeState {
    open spec fn cdr_encodable(&self) -> bool {
        self.fields().cdr_encodable()
    }

    proof fn lemma_cdr_bytes_nonempty(&self, offset: nat) {
        self.fields().lemma_cdr_bytes_nonempty(offset);
    }

    proof fn lemma_cdr_roundtrip(&self, prefix: Seq<u8>, rest: Seq<u8>) {
        self.fields().lemma_cdr_roundtrip(prefix, rest);
    }
}

impl SportModeState {
    /// The encoding follows the `.msg` declaration order: `stamp`, `error_code`, `imu_state`, `mode`, `progress`, `gait_type`, `foot_raise_height`, `position`, `body_height`, `velocity`, `yaw_speed`, `range_obstacle`, `foot_force`, `foot_position_body`, `foot_speed_body`, each
    /// written where the one before it ends; and a read value lists the fields
    /// in that order.
    pub proof fn lemma_declaration_order(&self, offset: nat)
        ensures
            self.cdr_bytes(offset) == {
                let b0 = self.stamp.cdr_bytes(offset);
                let b1 = self.error_code.cdr_bytes(offset + b0.len());
                let b2 = self.imu_state.cdr_bytes(offset + b0.len() + b1.len());
                let b3 = self.mode.cdr_bytes(offset + b0.len() + b1.len() + b2.len());
                let b4 = self.progress.cdr_bytes(offset + b0.len() + b1.len() + b2.len() + b3.len());
                let b5 = self.gait_type.cdr_bytes(offset + b0.len() + b1.len() + b2.len() + b3.len() + b4.len());
                let b6 = self.foot_raise_height.cdr_bytes(offset + b0.len() + b1.len() + b2.len() + b3.len() + b4.len() + b5.len());
                let b7 = self.position.cdr_bytes(offset + b0.len() + b1.len() + b2.len() + b3.len() + b4.len() + b5.len() + b6.len());
                let b8 = self.body_height.cdr_bytes(offset + b0.len() + b1.len() + b2.len() + b3.len() + b4.len() + b5.len() + b6.len() + b7.len());
                let b9 = self.velocity.cdr_bytes(offset + b0.len() + b1.len() + b2.len() + b3.len() + b4.len() + b5.len() + b6.len() + b7.len() + b8.len());
                let b10 = self.yaw_speed.cdr_bytes(offset + b0.len() + b1.len() + b2.len() + b3.len() + b4.len() + b5.len() + b6.len() + b7.len() + b8.len() + b9.len());
                let b11 = self.range_obstacle.cdr_bytes(offset + b0.len() + b1.len() + b2.len() + b3.len() + b4.len() + b5.len() + b6.len() + b7.len() + b8.len() + b9.len() + b10.len());
                let b12 = self.foot_force.cdr_bytes(offset + b0.len() + b1.len() + b2.len() + b3.len() + b4.len() + b5.len() + b6.len() + b7.len() + b8.len() + b9.len() + b10.len() + b11.len());
                let b13 = self.foot_position_body.cdr_bytes(offset + b0.len() + b1.len() + b2.len() + b3.len() + b4.len() + b5.len() + b6.len() + b7.len() + b8.len() + b9.len() + b10.len() + b11.len() + b12.len());
                let b14 = self.foot_speed_body.cdr_bytes(offset + b0.len() + b1.len() + b2.len() + b3.len() + b4.len() + b5.len() + b6.len() + b7.len() + b8.len() + b9.len() + b10.len() + b11.len() + b12.len() + b13.len());
                b0 + (b1 + (b2 + (b3 + (b4 + (b5 + (b6 + (b7 + (b8 + (b9 + (b10 + (b11 + (b12 + (b13 + b14)))))))))))))
            },
            self.deep_view() == (self.stamp.deep_view(), (self.error_code.deep_view(), (self.imu_state.deep_view(), (self.mode.deep_view(), (self.progress.deep_view(), (self.gait_type.deep_view(), (self.foot_raise_height.deep_view(), (self.position.deep_view(), (self.body_height.deep_view(), (self.velocity.deep_view(), (self.yaw_speed.deep_view(), (self.range_obstacle.deep_view(), (self.foot_force.deep_view(), (self.foot_position_body.deep_view(), self.foot_speed_body.deep_view())))))))))))))),
    {
    }
}

impl DdsType for SportModeState {
    const TYPE_NAME: &'static str = "unitree_go::msg::dds_::SportModeState_";
    const IS_KEYLESS: bool = true;
}

impl DdsPod for SportModeState {
    const DESCRIPTOR_SYMBOL: &'static str = "unitree_go_msg_dds__SportModeState__desc";
}

// ---------------------------------------------------------------------------
// UwbState
// ---------------------------------------------------------------------------

/// `unitree_go/UwbState`: the UWB tag and base estimates.
#[derive(Debug, Clone, Copy, PartialEq)]
pub struct UwbState {
    pub version: [u8; 2],
    pub channel: u8,
    pub joy_mode: u8,
    /// `float32` bits.
    pub orientation_est: u32,
    /// `float32` bits.
    pub pitch_est: u32,
    /// `float32` bits.
    pub distance_est: u32,
    /// `float32` bits.
    pub yaw_est: u32,
    /// `float32` bits.
    pub tag_roll: u32,
    /// `float32` bits.
    pub tag_pitch: u32,
    /// `float32` bits.
    pub tag_yaw: u32,
    /// `float32` bits.
    pub base_roll: u32,
    /// `float32` bits.
    pub base_pitch: u32,
    /// `float32` bits.
    pub base_yaw: u32,
    /// `float32` bits, each.
    pub joystick: [u32; 2],
    pub error_state: u8,
    pub buttons: u8,
    pub enabled_from_app: u8,
}

/// The fields of [`UwbState`] as nested pairs, in wire order.
pub type UwbStateFields = ([u8; 2], (u8, (u8, (u32, (u32, (u32, (u32, (u32, (u32, (u32, (u32, (u32, (u32, ([u32; 2], (u8, (u8, u8))))))))))))))));

impl UwbState {
    /// The fields as nested pairs, in wire order.
    pub open spec fn fields(self) -> UwbStateFields {
        (self.version, (self.channel, (self.joy_mode, (self.orientation_est, (self.pitch_est, (self.distance_est, (self.yaw_est, (self.tag_roll, (self.tag_pitch, (self.tag_yaw, (self.base_roll, (self.base_pitch, (self.base_yaw, (self.joystick, (self.error_state, (self.buttons, self.enabled_from_app))))))))))))))))
    }

    /// Every field is zero (strings and sequences empty).
    pub open spec fn is_zeroed(&self) -> bool {
        &&& (forall|i: int| 0 <= i < 2 ==> #[trigger] self.version@[i] == 0)
        &&& self.channel == 0
        &&& self.joy_mode == 0
        &&& self.orientation_est == 0
        &&& self.pitch_est == 0
        &&& self.distance_est == 0
        &&& self.yaw_est == 0
        &&& self.tag_roll == 0
        &&& self.tag_pitch == 0
        &&& self.tag_yaw == 0
        &&& self.base_roll == 0
        &&& self.base_pitch == 0
        &&& self.base_yaw == 0
        &&& (forall|i: int| 0 <= i < 2 ==> #[trigger] self.joystick@[i] == 0)
        &&& self.error_state == 0
        &&& self.buttons == 0
        &&& self.enabled_from_app == 0
    }
}

impl DeepView for UwbState {
    type V = <UwbStateFields as DeepView>::V;

    open spec fn deep_view(&self) -> Self::V {
        self.fields().deep_view()
    }
}

impl Default for UwbState {
    fn default() -> (v: Self)
        ensures
            v.is_zeroed(),
    {
        UwbState {
            version: [0u8; 2],
            channel: 0,
            joy_mode: 0,
            orientation_est: 0,
            pitch_est: 0,
            distance_est: 0,
            yaw_est: 0,
            tag_roll: 0,
            tag_pitch: 0,
            tag_yaw: 0,
            base_roll: 0,
            base_pitch: 0,
            base_yaw: 0,
            joystick: [0u32; 2],
            error_state: 0,
            buttons: 0,
            enabled_from_app: 0,
        }
    }
}

impl CdrSerialize for UwbState {
    open spec fn cdr_bytes(&self, offset: nat) -> Seq<u8> {
        self.fields().cdr_bytes(offset)
    }

    fn serialize(&self, s: &mut CdrSerializer) {
        let t: UwbStateFields = (self.version, (self.channel, (self.joy_mode, (self.orientation_est, (self.pitch_est, (self.distance_est, (self.yaw_est, (self.tag_roll, (self.tag_pitch, (self.tag_yaw, (self.base_roll, (self.base_pitch, (self.base_yaw, (self.joystick, (self.error_state, (self.buttons, self.enabled_from_app))))))))))))))));
        t.serialize(s);
    }
}

impl CdrDeserialize for UwbState {
    open spec fn cdr_read(body: Seq<u8>, offset: nat) -> (Result<Self::V, CdrError>, nat) {
        UwbStateFields::cdr_read(body, offset)
    }

    fn deserialize(d: &mut CdrDeserializer<'_>) -> (r: Result<Self, CdrError>) {
        let (version, (channel, (joy_mode, (orientation_est, (pitch_est, (distance_est, (yaw_est, (tag_roll, (tag_pitch, (tag_yaw, (base_roll, (base_pitch, (base_yaw, (joystick, (error_state, (buttons, enabled_from_app)))))))))))))))) = UwbStateFields::deserialize(d)?;
        Ok(UwbState { version, channel, joy_mode, orientation_est, pitch_est, distance_est, yaw_est, tag_roll, tag_pitch, tag_yaw, base_roll, base_pitch, base_yaw, joystick, error_state, buttons, enabled_from_app })
    }

    open spec fn cdr_nonempty() -> bool {
        UwbStateFields::cdr_nonempty()
    }

    fn is_cdr_nonempty() -> (b: bool) {
        UwbStateFields::is_cdr_nonempty()
    }

    proof fn lemma_cdr_read_extends(body: Seq<u8>, offset: nat, ext: Seq<u8>) {
        UwbStateFields::lemma_cdr_read_extends(body, offset, ext);
    }
}

impl CdrRoundTrip for UwbState {
    open spec fn cdr_encodable(&self) -> bool {
        self.fields().cdr_encodable()
    }

    proof fn lemma_cdr_bytes_nonempty(&self, offset: nat) {
        self.fields().lemma_cdr_bytes_nonempty(offset);
    }

    proof fn lemma_cdr_roundtrip(&self, prefix: Seq<u8>, rest: Seq<u8>) {
        self.fields().lemma_cdr_roundtrip(prefix, rest);
    }
}

impl UwbState {
    /// The encoding follows the `.msg` declaration order: `version`, `channel`, `joy_mode`, `orientation_est`, `pitch_est`, `distance_est`, `yaw_est`, `tag_roll`, `tag_pitch`, `tag_yaw`, `base_roll`, `base_pitch`, `base_yaw`, `joystick`, `error_state`, `buttons`, `enabled_from_app`, each
    /// written where the one before it ends; and a read value lists the fields
    /// in that order.
    pub proof fn lemma_declaration_order(&self, offset: nat)
        ensures
            self.cdr_bytes(offset) == {
                let b0 = self.version.cdr_bytes(offset);
                let b1 = self.channel.cdr_bytes(offset + b0.len());
                let b2 = self.joy_mode.cdr_bytes(offset + b0.len() + b1.len());
                let b3 = self.orientation_est.cdr_bytes(offset + b0.len() + b1.len() + b2.len());
                let b4 = self.pitch_est.cdr_bytes(offset + b0.len() + b1.len() + b2.len() + b3.len());
                let b5 = self.distance_est.cdr_bytes(offset + b0.len() + b1.len() + b2.len() + b3.len() + b4.len());
                let b6 = self.yaw_est.cdr_bytes(offset + b0.len() + b1.len() + b2.len() + b3.len() + b4.len() + b5.len());
                let b7 = self.tag_roll.cdr_bytes(offset + b0.len() + b1.len() + b2.len() + b3.len() + b4.len() + b5.len() + b6.len());
                let b8 = self.tag_pitch.cdr_bytes(offset + b0.len() + b1.len() + b2.len() + b3.len() + b4.len() + b5.len() + b6.len() + b7.len());
                let b9 = self.tag_yaw.cdr_bytes(offset + b0.len() + b1.len() + b2.len() + b3.len() + b4.len() + b5.len() + b6.len() + b7.len() + b8.len());
                let b10 = self.base_roll.cdr_bytes(offset + b0.len() + b1.len() + b2.len() + b3.len() + b4.len() + b5.len() + b6.len() + b7.len() + b8.len() + b9.len());
                let b11 = self.base_pitch.cdr_bytes(offset + b0.len() + b1.len() + b2.len() + b3.len() + b4.len() + b5.len() + b6.len() + b7.len() + b8.len() + b9.len() + b10.len());
                let b12 = self.base_yaw.cdr_bytes(offset + b0.len() + b1.len() + b2.len() + b3.len() + b4.len() + b5.len() + b6.len() + b7.len() + b8.len() + b9.len() + b10.len() + b11.len());
                let b13 = self.joystick.cdr_bytes(offset + b0.len() + b1.len() + b2.len() + b3.len() + b4.len() + b5.len() + b6.len() + b7.len() + b8.len() + b9.len() + b10.len() + b11.len() + b12.len());
                let b14 = self.error_state.cdr_bytes(offset + b0.len() + b1.len() + b2.len() + b3.len() + b4.len() + b5.len() + b6.len() + b7.len() + b8.len() + b9.len() + b10.len() + b11.len() + b12.len() + b13.len());
                let b15 = self.buttons.cdr_bytes(offset + b0.len() + b1.len() + b2.len() + b3.len() + b4.len() + b5.len() + b6.len() + b7.len() + b8.len() + b9.len() + b10.len() + b11.len() + b12.len() + b13.len() + b14.len());
                let b16 = self.enabled_from_app.cdr_bytes(offset + b0.len() + b1.len() + b2.len() + b3.len() + b4.len() + b5.len() + b6.len() + b7.len() + b8.len() + b9.len() + b10.len() + b11.len() + b12.len() + b13.len() + b14.len() + b15.len());
                b0 + (b1 + (b2 + (b3 + (b4 + (b5 + (b6 + (b7 + (b8 + (b9 + (b10 + (b11 + (b12 + (b13 + (b14 + (b15 + b16)))))))))))))))
            },
            self.deep_view() == (self.version.deep_view(), (self.channel.deep_view(), (self.joy_mode.deep_view(), (self.orientation_est.deep_view(), (self.pitch_est.deep_view(), (self.distance_est.deep_view(), (self.yaw_est.deep_view(), (self.tag_roll.deep_view(), (self.tag_pitch.deep_view(), (self.tag_yaw.deep_view(), (self.base_roll.deep_view(), (self.base_pitch.deep_view(), (self.base_yaw.deep_view(), (self.joystick.deep_view(), (self.error_state.deep_view(), (self.buttons.deep_view(), self.enabled_from_app.deep_view())))))))))))))))),
    {
    }
}

impl DdsType for UwbState {
    const TYPE_NAME: &'static str = "unitree_go::msg::dds_::UwbState_";
    const IS_KEYLESS: bool = true;
}

impl DdsPod for UwbState {
    const DESCRIPTOR_SYMBOL: &'static str = "unitree_go_msg_dds__UwbState__desc";
}

// ---------------------------------------------------------------------------
// UwbSwitch
// ---------------------------------------------------------------------------

/// `unitree_go/UwbSwitch`: turns UWB following on or off.
#[derive(Debug, Clone, Copy, PartialEq)]
pub struct UwbSwitch {
    pub enabled: u8,
}

/// The fields of [`UwbSwitch`] as nested pairs, in wire order.
pub type UwbSwitchFields = u8;

impl UwbSwitch {
    /// The fields as nested pairs, in wire order.
    pub open spec fn fields(self) -> UwbSwitchFields {
        self.enabled
    }

    /// Every field is zero (strings and sequences empty).
    pub open spec fn is_zeroed(&self) -> bool {
        &&& self.enabled == 0
    }
}

impl DeepView for UwbSwitch {
    type V = <UwbSwitchFields as DeepView>::V;

    open spec fn deep_view(&self) -> Self::V {
        self.fields().deep_view()
    }
}

impl Default for UwbSwitch {
    fn default() -> (v: Self)
        ensures
            v.is_zeroed(),
    {
        UwbSwitch {
            enabled: 0,
        }
    }
}

impl CdrSerialize for UwbSwitch {
    open spec fn cdr_bytes(&self, offset: nat) -> Seq<u8> {
        self.fields().cdr_bytes(offset)
    }

    fn serialize(&self, s: &mut CdrSerializer) {
        let t: UwbSwitchFields = self.enabled;
        t.serialize(s);
    }
}

impl CdrDeserialize for UwbSwitch {
    open spec fn cdr_read(body: Seq<u8>, offset: nat) -> (Result<Self::V, CdrError>, nat) {
        UwbSwitchFields::cdr_read(body, offset)
    }

    fn deserialize(d: &mut CdrDeserializer<'_>) -> (r: Result<Self, CdrError>) {
        let enabled = UwbSwitchFields::deserialize(d)?;
        Ok(UwbSwitch { enabled })
    }

    open spec fn cdr_nonempty() -> bool {
        UwbSwitchFields::cdr_nonempty()
    }

    fn is_cdr_nonempty() -> (b: bool) {
        UwbSwitchFields::is_cdr_nonempty()
    }

    proof fn lemma_cdr_read_extends(body: Seq<u8>, offset: nat, ext: Seq<u8>) {
        UwbSwitchFields::lemma_cdr_read_extends(body, offset, ext);
    }
}

impl CdrRoundTrip for UwbSwitch {
    open spec fn cdr_encodable(&self) -> bool {
        self.fields().cdr_encodable()
    }

    proof fn lemma_cdr_bytes_nonempty(&self, offset: nat) {
        self.fields().lemma_cdr_bytes_nonempty(offset);
    }

    proof fn lemma_cdr_roundtrip(&self, prefix: Seq<u8>, rest: Seq<u8>) {
        self.fields().lemma_cdr_roundtrip(prefix, rest);
    }
}

impl UwbSwitch {
    /// The encoding follows the `.msg` declaration order: `enabled`, each
    /// written where the one before it ends; and a read value lists the fields
    /// in that order.
    pub proof fn lemma_declaration_order(&self, offset: nat)
        ensures
            self.cdr_bytes(offset) == {
                let b0 = self.enabled.cdr_bytes(offset);
                b0
            },
            self.deep_view() == self.enabled.deep_view(),
    {
    }
}

impl DdsType for UwbSwitch {
    const TYPE_NAME: &'static str = "unitree_go::msg::dds_::UwbSwitch_";
    const IS_KEYLESS: bool = true;
}

impl DdsPod for UwbSwitch {
    const DESCRIPTOR_SYMBOL: &'static str = "unitree_go_msg_dds__UwbSwitch__desc";
}

} // verus!
