//! The LIDAR switch decisions.

use std::time::Duration;
use unitree_sdk::utlidar::{check, check_payload, writer_qos, SwitchSetupCall, SwitchSetupStep, UTLIDAR_SWITCH_TOPIC};
use unitree_sdk::{Durability, History, Reliability};
use unitree_sdk::{UtlidarError, UtlidarSwitch};

#[test]
fn switch_payloads_and_waiting() {
    let sw = UtlidarSwitch::new(5, 7);
    assert_eq!((sw.participant(), sw.writer()), (5, 7));
    assert_eq!(sw.set_on(true, Ok(())).unwrap(), "ON");
    assert_eq!(sw.set_on(false, Ok(())).unwrap(), "OFF");
    // the wait comes first: its error, nothing to publish
    let t2 = Duration::from_secs(2);
    match sw.set_on(true, Err(UtlidarError::NoSubscriber(t2))) {
        Err(UtlidarError::NoSubscriber(d)) => assert_eq!(d, t2),
        _ => panic!("expected the wait's error"),
    }
    assert_eq!(UTLIDAR_SWITCH_TOPIC, "rt/utlidar/switch");
    let t = Duration::from_secs(2);
    assert!(matches!(UtlidarSwitch::wait_step(1, true, t), Some(Ok(()))));
    assert!(UtlidarSwitch::wait_step(0, false, t).is_none());
    match UtlidarSwitch::wait_step(0, true, t) {
        Some(Err(UtlidarError::NoSubscriber(d))) => assert_eq!(d, t),
        _ => panic!("expected NoSubscriber"),
    }
    assert!(matches!(
        check(-1, "dds_write"),
        Err(UtlidarError::Native { op: "dds_write", code: -1 })
    ));
    assert!(check(3, "dds_write").is_ok());
}

#[test]
fn nul_bytes_are_refused() {
    assert!(check_payload("ON").is_ok());
    assert!(matches!(check_payload("O\0N"), Err(UtlidarError::NulString)));
    assert!(unitree_sdk::dds::contains_nul("a\0"));
    assert!(!unitree_sdk::dds::contains_nul("héllo"));
    assert!(matches!(
        unitree_sdk::rpc::check_c_string("{\"name\":\"\0\"}"),
        Err(unitree_sdk::RpcError::NulString)
    ));
    assert!(unitree_sdk::rpc::check_c_string("{}").is_ok());
}

#[test]
fn switch_setup_steps() {
    let q = writer_qos();
    assert_eq!((q.reliability, q.history, q.durability), (Reliability::Reliable, History::KeepLast(4), Durability::Volatile));
    let call = match UtlidarSwitch::setup_step(SwitchSetupCall::CreateParticipant, 3) {
        SwitchSetupStep::Call(c) => c,
        _ => panic!("expected the topic"),
    };
    assert!(matches!(call, SwitchSetupCall::CreateTopic { participant: 3 }));
    let call = match UtlidarSwitch::setup_step(call, 4) {
        SwitchSetupStep::Call(c) => c,
        _ => panic!("expected the writer"),
    };
    match call {
        SwitchSetupCall::CreateWriter { participant, topic, qos } => {
            assert_eq!((participant, topic), (3, 4));
            assert_eq!(qos, writer_qos());
        }
        _ => panic!("expected the writer"),
    }
    match UtlidarSwitch::setup_step(call, 5) {
        SwitchSetupStep::Ready(sw) => assert_eq!((sw.participant(), sw.writer()), (3, 5)),
        _ => panic!("expected the switch"),
    }
    // a failed participant leaves nothing to delete
    assert!(matches!(
        UtlidarSwitch::setup_step(SwitchSetupCall::CreateParticipant, -1),
        SwitchSetupStep::Fail {
            error: UtlidarError::Native { op: "dds_create_participant", code: -1 },
            delete_participant: None
        }
    ));
    // a failed topic or writer: that call's error, and the participant is deleted
    assert!(matches!(
        UtlidarSwitch::setup_step(SwitchSetupCall::CreateTopic { participant: 3 }, -2),
        SwitchSetupStep::Fail {
            error: UtlidarError::Native { op: "dds_create_topic", code: -2 },
            delete_participant: Some(3)
        }
    ));
    assert!(matches!(
        UtlidarSwitch::setup_step(SwitchSetupCall::CreateWriter { participant: 3, topic: 4, qos: writer_qos() }, -9),
        SwitchSetupStep::Fail {
            error: UtlidarError::Native { op: "dds_create_writer", code: -9 },
            delete_participant: Some(3)
        }
    ));
}
