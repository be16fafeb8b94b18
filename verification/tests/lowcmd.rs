//! `LowCmd` initialization and CRC.

use unitree_sdk::lowcmd::{LOWCMD_WORDS, POS_STOP_F_BITS, VEL_STOP_F_BITS};
use unitree_sdk::{crc32_core, init_lowcmd, set_crc, LowCmd};

#[test]
fn lowcmd_size_is_word_aligned() {
    assert_eq!(core::mem::size_of::<LowCmd>() % 4, 0);
}

#[test]
fn crc_is_deterministic_and_set() {
    let mut a = init_lowcmd();
    let mut b = init_lowcmd();
    set_crc(&mut a);
    set_crc(&mut b);
    assert_eq!(a.crc, b.crc);
    assert_ne!(a.crc, 0);
}

#[test]
fn crc_changes_with_payload() {
    let mut a = init_lowcmd();
    set_crc(&mut a);
    let mut b = init_lowcmd();
    b.motor_cmd[0].q = 0.5f32.to_bits();
    set_crc(&mut b);
    assert_ne!(a.crc, b.crc);
}

#[test]
fn stop_sentinels_are_the_sdk_floats() {
    assert_eq!(POS_STOP_F_BITS, 2.146e9_f32.to_bits());
    assert_eq!(VEL_STOP_F_BITS, 16000.0_f32.to_bits());
}

#[test]
fn crc32_core_golden_values() {
    assert_eq!(crc32_core(&[]), 0xFFFF_FFFF);
    // CRC-32/MPEG-2 of four zero bytes.
    assert_eq!(crc32_core(&[0]), 0xC704_DD7B);
    assert_eq!(crc32_core(&[1, 2, 3]), 0x64C5_1784);
    assert_eq!(crc32_core(&[0xFFFF_FFFF]), 0);
}

#[test]
fn init_lowcmd_fields() {
    let cmd = init_lowcmd();
    assert_eq!(cmd.head, [0xFE, 0xEF]);
    assert_eq!(cmd.level_flag, 0xFF);
    for m in cmd.motor_cmd.iter() {
        assert_eq!(m.mode, 0x01);
        assert_eq!(f32::from_bits(m.q), 2.146e9_f32);
        assert_eq!(f32::from_bits(m.dq), 16000.0_f32);
        assert_eq!((m.tau, m.kp, m.kd), (0, 0, 0));
        assert_eq!(m.reserve, [0, 0, 0]);
    }
    assert_eq!(cmd.crc, 0);
    assert_eq!(cmd.wireless_remote, [0u8; 40]);
}

#[test]
fn crc_golden_for_initial_command() {
    let mut a = init_lowcmd();
    set_crc(&mut a);
    assert_eq!(a.crc, 0x06E5_77CD);
    let mut b = init_lowcmd();
    b.motor_cmd[0].q = 0.5f32.to_bits();
    set_crc(&mut b);
    assert_eq!(b.crc, 0x16EE_6765);
}

#[test]
fn set_crc_ignores_old_crc_and_is_idempotent() {
    let mut a = init_lowcmd();
    a.crc = 0x1234_5678;
    set_crc(&mut a);
    let first = a.crc;
    set_crc(&mut a);
    assert_eq!(a.crc, first);
    assert_eq!(first, 0x06E5_77CD);
    assert_eq!(LOWCMD_WORDS * 4, 812);
}

#[test]
fn crc_detects_each_single_word_change() {
    let base: Vec<u32> = (0..16u32).map(|k| k.wrapping_mul(0x9E37_79B9)).collect();
    let c = crc32_core(&base);
    for i in 0..base.len() {
        for delta in [1u32, 0x8000_0000, 0xFFFF_FFFF, 0x04C1_1DB7] {
            let mut changed = base.clone();
            changed[i] ^= delta;
            assert_ne!(crc32_core(&changed), c, "word {i}, flip {delta:#x}");
        }
    }
}
