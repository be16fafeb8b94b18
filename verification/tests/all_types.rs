//! Default-value round trip across the message types.

use unitree_sdk::unitree_api::{
    Request, RequestHeader, RequestIdentity, RequestLease, RequestPolicy, Response, ResponseHeader,
    ResponseStatus,
};
use unitree_sdk::{unitree_go, unitree_hg, DdsPod, DdsType};

/// Assert `T::default()` survives a full CDR payload round-trip.
fn check<T: DdsType + PartialEq + std::fmt::Debug>() {
    let v = T::default();
    let payload = v.to_cdr();
    let back = T::from_cdr(&payload).expect("decode default");
    assert_eq!(back, v, "{} round-trip", T::TYPE_NAME);
}

#[test]
fn unitree_api_all() {
    check::<Request>();
    check::<RequestHeader>();
    check::<RequestIdentity>();
    check::<RequestLease>();
    check::<RequestPolicy>();
    check::<Response>();
    check::<ResponseHeader>();
    check::<ResponseStatus>();
}

#[test]
fn unitree_go_all() {
    check::<unitree_go::AudioData>();
    check::<unitree_go::BmsCmd>();
    check::<unitree_go::BmsState>();
    check::<unitree_go::Error>();
    check::<unitree_go::Go2FrontVideoData>();
    check::<unitree_go::HeightMap>();
    check::<unitree_go::IMUState>();
    check::<unitree_go::InterfaceConfig>();
    check::<unitree_go::LidarState>();
    check::<unitree_go::LowCmd>();
    check::<unitree_go::LowState>();
    check::<unitree_go::MotorCmd>();
    check::<unitree_go::MotorCmds>();
    check::<unitree_go::MotorState>();
    check::<unitree_go::MotorStates>();
    check::<unitree_go::PathPoint>();
    check::<unitree_go::Req>();
    check::<unitree_go::Res>();
    check::<unitree_go::SportModeCmd>();
    check::<unitree_go::SportModeState>();
    check::<unitree_go::TimeSpec>();
    check::<unitree_go::UwbState>();
    check::<unitree_go::UwbSwitch>();
    check::<unitree_go::WirelessController>();
}

#[test]
fn unitree_hg_all() {
    check::<unitree_hg::BmsCmd>();
    check::<unitree_hg::BmsState>();
    check::<unitree_hg::HandCmd>();
    check::<unitree_hg::HandState>();
    check::<unitree_hg::IMUState>();
    check::<unitree_hg::LowCmd>();
    check::<unitree_hg::LowState>();
    check::<unitree_hg::MainBoardState>();
    check::<unitree_hg::MotorCmd>();
    check::<unitree_hg::MotorState>();
    check::<unitree_hg::PressSensorState>();
}

#[test]
fn type_names() {
    assert_eq!(unitree_go::LowCmd::TYPE_NAME, "unitree_go::msg::dds_::LowCmd_");
    assert!(unitree_go::LowCmd::IS_KEYLESS);
    assert_eq!(unitree_go::LowCmd::DESCRIPTOR_SYMBOL, "unitree_go_msg_dds__LowCmd__desc");
    assert_eq!(
        unitree_sdk::unitree_hg::LowState::TYPE_NAME,
        "unitree_hg::msg::dds_::LowState_"
    );
    assert_eq!(
        unitree_sdk::unitree_hg::LowState::DESCRIPTOR_SYMBOL,
        "unitree_hg_msg_dds__LowState__desc"
    );
    assert_eq!(
        unitree_sdk::unitree_go::SportModeState::TYPE_NAME,
        "unitree_go::msg::dds_::SportModeState_"
    );
    assert_eq!(
        Request::TYPE_NAME,
        "unitree_api::msg::dds_::Request_"
    );
}
