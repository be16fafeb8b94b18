//! Round-trip and wire-layout tests for the Unitree message types.

use unitree_sdk::cdr::{CdrDeserializer, CdrSerializer};
use unitree_sdk::unitree_go::{
    HeightMap, LidarState, LowCmd, LowState, MotorCmd, MotorCmds, PathPoint, Res, SportModeCmd, TimeSpec,
};
use unitree_sdk::{CdrSerialize, DdsType};

/// Helper: assert a value round-trips through a full CDR payload.
fn assert_roundtrip<T: DdsType + PartialEq + std::fmt::Debug>(v: &T) {
    let payload = v.to_cdr();
    assert_eq!(
        &payload[..4],
        &[0x00, 0x07, 0x00, 0x00],
        "encapsulation header"
    );
    let back = T::from_cdr(&payload).expect("decode");
    assert_eq!(&back, v, "round-trip mismatch");
}

#[test]
fn roundtrip_defaults() {
    assert_roundtrip(&MotorCmd::default());
    assert_roundtrip(&LowCmd::default());
    assert_roundtrip(&LowState::default());
    assert_roundtrip(&HeightMap::default());
}

#[test]
fn roundtrip_populated_lowcmd() {
    let mut cmd = LowCmd {
        head: [0xFE, 0xEF],
        level_flag: 0xFF,
        bandwidth: 1234,
        crc: 0xDEAD_BEEF,
        ..Default::default()
    };
    for (i, m) in cmd.motor_cmd.iter_mut().enumerate() {
        m.mode = 0x01;
        m.q = (i as f32 * 0.5).to_bits();
        m.kp = 25.0f32.to_bits();
        m.kd = 0.5f32.to_bits();
    }
    assert_roundtrip(&cmd);
}

#[test]
fn roundtrip_string_and_sequence() {
    let hm = HeightMap {
        frame_id: "world".to_string(),
        width: 3,
        height: 2,
        resolution: 0.05f32.to_bits(),
        data: [0.0f32, 1.5, -2.0, 3.25, 4.0, 5.0]
            .iter()
            .map(|x| x.to_bits())
            .collect(),
        ..Default::default()
    };
    assert_roundtrip(&hm);
}

/// MotorCmd exercises 4-byte alignment: `uint8 mode` is followed by 3 pad
/// bytes before the first `float32`.
#[test]
fn motorcmd_wire_layout() {
    let m = MotorCmd {
        mode: 0x01,
        q: 2.0f32.to_bits(),
        ..Default::default()
    };

    let mut s = CdrSerializer::new();
    m.serialize(&mut s);
    let body = s.into_body();

    // mode(1) + pad(3) + q,dq,tau,kp,kd(5*4) + reserve[3](3*4) = 36
    assert_eq!(body.len(), 36, "MotorCmd body size");
    assert_eq!(&body[0..4], &[0x01, 0x00, 0x00, 0x00], "mode + 3 pad bytes");
    // 2.0_f32 == 0x4000_0000, little-endian
    assert_eq!(&body[4..8], &2.0_f32.to_le_bytes(), "q at offset 4");
}

/// Golden bytes for a small message, computed by hand from the XCDR2 rules.
#[test]
fn timespec_golden() {
    let ts = TimeSpec { sec: 1, nanosec: 2 };
    let payload = ts.to_cdr();
    assert_eq!(
        payload,
        vec![
            0x00, 0x07, 0x00, 0x00, // encapsulation header (CDR2_LE)
            0x01, 0x00, 0x00, 0x00, // sec = 1
            0x02, 0x00, 0x00, 0x00, // nanosec = 2
        ]
    );
}

/// A truncated payload must error rather than panic.
#[test]
fn truncated_payload_errors() {
    let payload = MotorCmd::default().to_cdr();
    let truncated = &payload[..payload.len() - 4];
    assert!(MotorCmd::from_cdr(truncated).is_err());
}

/// A bad encapsulation header is rejected.
#[test]
fn bad_header_errors() {
    let mut payload = MotorCmd::default().to_cdr();
    payload[1] = 0x99;
    assert!(MotorCmd::from_cdr(&payload).is_err());
}

/// Deserializing from an explicit body (no header) via the low-level API.
#[test]
fn body_level_roundtrip() {
    let mut s = CdrSerializer::new();
    let m = MotorCmd {
        mode: 7,
        q: 1.0f32.to_bits(),
        ..Default::default()
    };
    m.serialize(&mut s);
    let body = s.into_body();
    let mut d = CdrDeserializer::new(&body);
    let back = <MotorCmd as unitree_sdk::CdrDeserialize>::deserialize(&mut d).unwrap();
    assert_eq!(back, m);
}

#[test]
fn every_cut_of_a_payload_is_rejected() {
    let mut cmd = LowCmd::default();
    cmd.motor_cmd[3].q = 1.25f32.to_bits();
    let payload = cmd.to_cdr();
    for k in 0..payload.len() {
        assert!(LowCmd::from_cdr(&payload[..k]).is_err(), "cut at {k}");
    }
    let hm = HeightMap {
        frame_id: "odom".to_string(),
        data: vec![7, 8, 9],
        ..Default::default()
    };
    let payload = hm.to_cdr();
    for k in 0..payload.len() {
        assert!(HeightMap::from_cdr(&payload[..k]).is_err(), "cut at {k}");
    }
}

#[test]
fn trailing_bytes_do_not_change_the_decode() {
    let ts = TimeSpec { sec: -5, nanosec: 999 };
    let mut payload = ts.to_cdr();
    payload.extend_from_slice(&[0xAA, 0xBB, 0xCC]);
    assert_eq!(TimeSpec::from_cdr(&payload), Ok(ts));
}

/// The payload (header + body) a serializer makes of `v`.
fn payload_of<T: CdrSerialize>(v: &T) -> Vec<u8> {
    let mut s = CdrSerializer::new();
    v.serialize(&mut s);
    s.into_payload()
}

#[test]
fn header_and_body_alignment_agree() {
    // u8 then u32: the u32 starts at body offset 4, payload offset 8
    let payload = payload_of(&(7u8, 0x0102_0304u32));
    assert_eq!(payload, vec![0, 7, 0, 0, 7, 0, 0, 0, 4, 3, 2, 1]);
}

#[test]
fn roundtrip_populated_new_types() {
    let mut cmd = SportModeCmd { mode: 2, gait_type: 1, speed_level: 3, ..Default::default() };
    cmd.velocity = [0.3f32.to_bits(), (-0.1f32).to_bits()];
    cmd.path_point[29] = PathPoint { t_from_start: 1.5f32.to_bits(), x: 2.0f32.to_bits(), ..Default::default() };
    assert_roundtrip(&cmd);
    let lidar = LidarState {
        stamp: 1.25f64.to_bits(),
        firmware_version: "1.2.3".to_string(),
        sdk_version: "é".to_string(),
        error_state: 7,
        imu_rpy: [1, 2, 3],
        serial_buffer_read: 99,
        ..Default::default()
    };
    assert_roundtrip(&lidar);
    let cmds = MotorCmds { cmds: vec![MotorCmd { mode: 1, q: 5, ..Default::default() }; 3] };
    assert_roundtrip(&cmds);
    let res = Res { uuid: "id-1".to_string(), data: vec![1, 2, 3], body: "{}".to_string() };
    assert_roundtrip(&res);
    // the UwbSwitch body is a single byte
    let mut s = CdrSerializer::new();
    unitree_sdk::unitree_go::UwbSwitch { enabled: 1 }.serialize(&mut s);
    assert_eq!(s.into_body(), vec![1]);
    // a humanoid command round-trips too
    let mut hg = unitree_sdk::unitree_hg::LowCmd { mode_machine: 4, crc: 0xABCD, ..Default::default() };
    hg.motor_cmd[34].kp = 60.0f32.to_bits();
    assert_roundtrip(&hg);
    let hand = unitree_sdk::unitree_hg::HandState {
        motor_state: vec![Default::default(); 2],
        press_sensor_state: vec![Default::default()],
        power_v: 24.0f32.to_bits(),
        ..Default::default()
    };
    assert_roundtrip(&hand);
}
