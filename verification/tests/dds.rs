//! QoS profiles and the I/O-free part of the DDS API.

use unitree_sdk::unitree_go::LowState;
use unitree_sdk::{recv_step, DdsError, Durability, History, ReaderQos, Reliability, WriterQos};

#[test]
fn low_level_qos_profile() {
    let w = WriterQos::low_level_default();
    assert_eq!(w.reliability, Reliability::BestEffort);
    assert_eq!(w.history, History::KeepLast(1));
    assert_eq!(w.durability, Durability::Volatile);
    assert_eq!(WriterQos::default(), w);
    let r = ReaderQos::low_level_default();
    assert_eq!(
        (r.reliability, r.history, r.durability),
        (Reliability::BestEffort, History::KeepLast(1), Durability::Volatile)
    );
    assert_eq!(ReaderQos::default(), r);
}

#[test]
fn recv_step_decisions() {
    let mut s = LowState::default();
    s.tick = 12345;
    match recv_step(Ok(Some(s)), false) {
        Some(Ok(got)) => assert_eq!(got.tick, 12345),
        _ => panic!("a sample ends the receive"),
    }
    // a sample wins even after the deadline
    assert!(matches!(recv_step(Ok(Some(LowState::default())), true), Some(Ok(_))));
    assert!(recv_step::<LowState>(Ok(None), false).is_none());
    assert!(matches!(
        recv_step::<LowState>(Ok(None), true),
        Some(Err(DdsError::Timeout))
    ));
    assert!(matches!(
        recv_step::<LowState>(Err(DdsError::Native { op: "dds_take", code: -1 }), false),
        Some(Err(DdsError::Native { op: "dds_take", code: -1 }))
    ));
}

#[test]
fn interface_config_names_the_interface() {
    assert_eq!(
        unitree_sdk::dds::interface_config("eno1"),
        "<CycloneDDS><Domain><General><Interfaces><NetworkInterface name=\"eno1\" priority=\"default\" multicast=\"default\"/></Interfaces></General></Domain></CycloneDDS>"
    );
}
