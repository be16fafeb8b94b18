//! JSON field extraction and the motion_switcher protocol.

use unitree_sdk::rpc::{
    request_writer_qos, response_reader_qos, RpcSetupCall, RpcSetupStep, escape_json_string, json_string_field, request_topic, response_topic, seed_from_nanos,
    CallAttempts, ReleaseLoop, RpcRequest, API_ID_CHECK_MODE, CALL_ATTEMPTS, API_ID_RELEASE_MODE, API_ID_SELECT_MODE,
};
use unitree_sdk::unitree_api::Response;
use unitree_sdk::{Durability, History, MotionSwitcher, Reliability, Reply, RpcClient, RpcError};

#[test]
fn parses_json_string_fields() {
    let s = r#"{"name":"normal","form":"0"}"#;
    assert_eq!(json_string_field(s, "name").as_deref(), Some("normal"));
    assert_eq!(json_string_field(s, "form").as_deref(), Some("0"));
    assert_eq!(json_string_field(s, "missing"), None);
}

#[test]
fn empty_name_when_no_mode() {
    let s = r#"{"name":"","form":""}"#;
    assert_eq!(json_string_field(s, "name").as_deref(), Some(""));
}

#[test]
fn handles_escapes() {
    let s = r#"{"name":"a\"b"}"#;
    assert_eq!(json_string_field(s, "name").as_deref(), Some("a\"b"));
}

#[test]
fn json_whitespace_and_malformed_values() {
    assert_eq!(
        json_string_field("{\"name\" :\t \"x y\"}", "name").as_deref(),
        Some("x y")
    );
    // not a string value
    assert_eq!(json_string_field(r#"{"name":5}"#, "name"), None);
    // no closing quote
    assert_eq!(json_string_field(r#"{"name":"abc"#, "name"), None);
    // no colon after the key
    assert_eq!(json_string_field(r#"{"name""#, "name"), None);
    // non-ASCII content is kept
    assert_eq!(
        json_string_field(r#"{"name":"héllo"}"#, "name").as_deref(),
        Some("héllo")
    );
}

#[test]
fn escape_and_select_mode_parameter() {
    assert_eq!(escape_json_string(r#"a"b\c"#), r#"a\"b\\c"#);
    let sw = MotionSwitcher::new(Ok(RpcClient::new(1))).unwrap();
    let r = sw.select_mode(r#"a"b"#);
    assert_eq!(r.api_id, API_ID_SELECT_MODE);
    assert_eq!(r.parameter, r#"{"name":"a\"b"}"#);
    let r = sw.restore();
    assert_eq!(r.api_id, 1002);
    assert_eq!(r.parameter, r#"{"name":"normal"}"#);
    assert_eq!(sw.release_mode().api_id, API_ID_RELEASE_MODE);
    assert_eq!(sw.release_mode().parameter, "");
    assert_eq!(sw.check_mode_request().api_id, API_ID_CHECK_MODE);
}

#[test]
fn select_mode_parameter_parses_back_to_the_name() {
    let sw = MotionSwitcher::new(Ok(RpcClient::new(1))).unwrap();
    for name in ["normal", "", r#"a"b"#, r#"back\slash"#, r#"""#, r#"\"}"#, "héllo ✓", "ai"] {
        let r = sw.select_mode(name);
        assert_eq!(json_string_field(&r.parameter, "name"), Some(name.to_string()), "{name}");
    }
}

#[test]
fn check_mode_reads_form_and_name() {
    let sw = MotionSwitcher::new(Ok(RpcClient::new(1))).unwrap();
    let reply = Reply {
        code: 0,
        data: r#"{"form":"0","name":"normal"}"#.to_string(),
    };
    assert_eq!(
        sw.check_mode(&reply),
        ("0".to_string(), "normal".to_string())
    );
    let empty = Reply {
        code: 0,
        data: String::new(),
    };
    assert_eq!(sw.check_mode(&empty), (String::new(), String::new()));
}

#[test]
fn release_loop_decisions() {
    let mut l = ReleaseLoop::new();
    assert_eq!(l.next_round(), None);
    assert_eq!(l.on_active_mode("normal"), None);
    assert_eq!(l.next_round(), None);
    assert_eq!(l.on_active_mode(""), Some(1));
    // a service that never settles: five releases, then report
    let mut l = ReleaseLoop::new();
    for _ in 0..5 {
        assert_eq!(l.next_round(), None);
        assert_eq!(l.on_active_mode("ai"), None);
    }
    assert_eq!(l.next_round(), Some(5));
}

#[test]
fn request_ids_and_replies() {
    let mut c = RpcClient::new(41);
    assert_eq!(c.next_request_id(), 41);
    assert_eq!(c.next_request_id(), 42);
    let mut w = RpcClient::new(i64::MAX);
    assert_eq!(w.next_request_id(), i64::MAX);
    assert_eq!(w.next_request_id(), i64::MIN);
    let req = RpcRequest { api_id: 1002, parameter: r#"{"name":"normal"}"#.to_string() };
    let m = RpcClient::request_message(77, &req);
    assert_eq!((m.header.identity.id, m.header.identity.api_id), (77, 1002));
    assert_eq!((m.header.lease.id, m.header.policy.priority, m.header.policy.noreply), (0, 0, false));
    assert_eq!(m.parameter, req.parameter);
    assert!(m.binary.is_empty());
    let mut resp = Response::default();
    resp.header.identity.id = 7;
    resp.header.status.code = 5;
    resp.data = "{}".to_string();
    let rep = RpcClient::reply_for(true, &resp, 7).unwrap();
    assert_eq!((rep.code, rep.data.as_str()), (5, "{}"));
    assert!(RpcClient::reply_for(false, &resp, 7).is_none());
    assert!(RpcClient::reply_for(true, &resp, 6).is_none());
    let ok = RpcClient::reply_outcome(1001, Reply { code: 0, data: "{}".to_string() });
    assert_eq!(ok.unwrap().data, "{}");
    match RpcClient::reply_outcome(1003, Reply { code: 3104, data: String::new() }) {
        Err(RpcError::Status { api_id, code }) => assert_eq!((api_id, code), (1003, 3104)),
        other => panic!("unexpected {other:?}"),
    }
}

#[test]
fn topics_and_seed() {
    assert_eq!(request_topic("motion_switcher"), "rt/api/motion_switcher/request");
    assert_eq!(response_topic("motion_switcher"), "rt/api/motion_switcher/response");
    assert_eq!(seed_from_nanos(None), 1);
    assert_eq!(seed_from_nanos(Some(0)), 1);
    assert_eq!(seed_from_nanos(Some(0x1234_5678_9ABC_DEF0)), 0x5678_9ABC_DEF0);
    let s = unitree_sdk::rpc::seed_id();
    assert!(s >= 1 && s < (1i64 << 48));
    match unitree_sdk::rpc::check(-3, "dds_write") {
        Err(RpcError::Native { op, code }) => assert_eq!((op, code), ("dds_write", -3)),
        other => panic!("unexpected {other:?}"),
    }
    assert!(unitree_sdk::rpc::check(0, "dds_write").is_ok());
}

#[test]
fn call_attempts_run_out() {
    let mut a = CallAttempts::new(1001);
    let mut n = 0;
    while a.start_attempt() {
        n += 1;
    }
    assert_eq!(n, CALL_ATTEMPTS);
    assert_eq!(n, 10);
    assert!(!a.start_attempt());
    match a.timed_out(std::time::Duration::from_millis(8000)) {
        RpcError::Timeout { api_id, waited } => {
            assert_eq!(api_id, 1001);
            assert_eq!(waited.as_millis(), 8000);
        }
        other => panic!("unexpected {other:?}"),
    }
}

#[test]
fn client_qos_profiles() {
    let w = request_writer_qos();
    assert_eq!((w.reliability, w.history, w.durability), (Reliability::Reliable, History::KeepLast(8), Durability::Volatile));
    let r = response_reader_qos();
    assert_eq!((r.reliability, r.history, r.durability), (Reliability::Reliable, History::KeepLast(64), Durability::Volatile));
}

#[test]
fn client_setup_steps() {
    // the whole sequence when every call succeeds
    let s = RpcClient::setup_step("motion_switcher", &RpcSetupCall::CreateParticipant, 10);
    let call = match s {
        RpcSetupStep::Call(c) => c,
        _ => panic!("expected the request topic"),
    };
    match &call {
        RpcSetupCall::CreateRequestTopic { participant, name } => {
            assert_eq!((*participant, name.as_str()), (10, "rt/api/motion_switcher/request"))
        }
        _ => panic!("expected the request topic"),
    }
    let call = match RpcClient::setup_step("motion_switcher", &call, 11) {
        RpcSetupStep::Call(c) => c,
        _ => panic!("expected the response topic"),
    };
    match &call {
        RpcSetupCall::CreateResponseTopic { participant, request_topic, name } => {
            assert_eq!((*participant, *request_topic, name.as_str()), (10, 11, "rt/api/motion_switcher/response"))
        }
        _ => panic!("expected the response topic"),
    }
    let call = match RpcClient::setup_step("motion_switcher", &call, 12) {
        RpcSetupStep::Call(c) => c,
        _ => panic!("expected the writer"),
    };
    match &call {
        RpcSetupCall::CreateWriter { participant, topic, response_topic, qos } => {
            assert_eq!((*participant, *topic, *response_topic), (10, 11, 12));
            assert_eq!(*qos, request_writer_qos());
        }
        _ => panic!("expected the writer"),
    }
    let call = match RpcClient::setup_step("motion_switcher", &call, 13) {
        RpcSetupStep::Call(c) => c,
        _ => panic!("expected the reader"),
    };
    match &call {
        RpcSetupCall::CreateReader { participant, writer, topic, qos } => {
            assert_eq!((*participant, *writer, *topic), (10, 13, 12));
            assert_eq!(*qos, response_reader_qos());
        }
        _ => panic!("expected the reader"),
    }
    match RpcClient::setup_step("motion_switcher", &call, 14) {
        RpcSetupStep::Ready { participant, request_writer, response_reader } => {
            assert_eq!((participant, request_writer, response_reader), (10, 13, 14))
        }
        _ => panic!("expected the client to be ready"),
    }
    // failures: the call's error, and the participant is deleted once made
    match RpcClient::setup_step("motion_switcher", &RpcSetupCall::CreateParticipant, -1) {
        RpcSetupStep::Fail { error: RpcError::Native { op, code }, delete_participant } => {
            assert_eq!((op, code, delete_participant), ("dds_create_participant", -1, None))
        }
        _ => panic!("expected a failure"),
    }
    let writer = RpcSetupCall::CreateWriter { participant: 10, topic: 11, response_topic: 12, qos: request_writer_qos() };
    match RpcClient::setup_step("motion_switcher", &writer, -5) {
        RpcSetupStep::Fail { error: RpcError::Native { op, code }, delete_participant } => {
            assert_eq!((op, code, delete_participant), ("dds_create_writer", -5, Some(10)))
        }
        _ => panic!("expected a failure"),
    }
    // a service name holding a NUL cannot name a topic
    match RpcClient::setup_step("bad\0name", &RpcSetupCall::CreateParticipant, 10) {
        RpcSetupStep::Fail { error: RpcError::NulString, delete_participant } => assert_eq!(delete_participant, Some(10)),
        _ => panic!("expected a NUL failure"),
    }
}

#[test]
fn draining_responses() {
    assert!(matches!(RpcClient::take_step(-2), Some(Err(RpcError::Native { op: "dds_take", code: -2 }))));
    assert!(matches!(RpcClient::take_step(0), Some(Ok(None))));
    assert!(RpcClient::take_step(1).is_none());
    let mut resp = Response::default();
    resp.header.identity.id = 9;
    resp.data = "{\"name\":\"\"}".to_string();
    match RpcClient::drain_step(true, &resp, 0, 9) {
        Some(Ok(Some(rep))) => assert_eq!((rep.code, rep.data.as_str()), (0, resp.data.as_str())),
        _ => panic!("expected the reply"),
    }
    // another request's response is discarded
    assert!(RpcClient::drain_step(true, &resp, 0, 8).is_none());
    assert!(RpcClient::drain_step(false, &resp, 0, 9).is_none());
    // a failed loan return wins over a match
    assert!(matches!(
        RpcClient::drain_step(true, &resp, -7, 9),
        Some(Err(RpcError::Native { op: "dds_return_loan", code: -7 }))
    ));
}

#[test]
fn motion_switcher_client() {
    assert_eq!(MotionSwitcher::request_topic(), "rt/api/motion_switcher/request");
    assert_eq!(MotionSwitcher::response_topic(), "rt/api/motion_switcher/response");
    let mut sw = MotionSwitcher::new(Ok(RpcClient::new(5))).unwrap();
    assert_eq!(sw.client_mut().next_request_id(), 5);
    assert_eq!(sw.client_mut().next_request_id(), 6);
    match MotionSwitcher::new(Err(RpcError::Native { op: "dds_create_reader", code: -3 })) {
        Err(RpcError::Native { op, code }) => assert_eq!((op, code), ("dds_create_reader", -3)),
        _ => panic!("the error is passed on"),
    }
}
