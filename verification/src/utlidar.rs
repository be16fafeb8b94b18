//! The decisions of the publisher for **`rt/utlidar/switch`** — the Go2 L1
//! LIDAR on/off control topic.
//!
//! The topic type is `std_msgs::msg::dds_::String_` (a single `string data`).
//! Publishing the string `"ON"` / `"OFF"` toggles the LIDAR. The DDS writer
//! itself (participant, topic, reliable keep-last(4) volatile writer) is driven
//! by the caller; this module holds its entity handles and decides what to
//! publish and when waiting for the robot's subscriber is over, and steps
//! through the creation of the writer.

use vstd::prelude::*;
use core::time::Duration;
use crate::dds::contains_nul;
use crate::qos::{Durability, History, Reliability, WriterQos};

verus! {

/// The Go2 LIDAR switch topic name.
pub const UTLIDAR_SWITCH_TOPIC: &'static str = "rt/utlidar/switch";

/// QoS of the switch writer: reliable (the Go2 utlidar reader is reliable, so
/// the writer must be too or it won't match), keep-last(4), volatile.
pub fn writer_qos() -> (q: WriterQos)
    ensures
        q == (WriterQos {
            reliability: Reliability::Reliable,
            history: History::KeepLast(4),
            durability: Durability::Volatile,
        }),
{
    WriterQos {
        reliability: Reliability::Reliable,
        history: History::KeepLast(4),
        durability: Durability::Volatile,
    }
}

/// Errors from the LIDAR-switch publisher.
#[derive(Debug)]
pub enum UtlidarError {
    /// A Cyclone DDS C call returned a negative code.
    Native {
        /// The C function that failed.
        op: &'static str,
        /// The negative `dds_return_t`.
        code: i32,
    },
    /// The topic name or payload contained an interior NUL byte.
    NulString,
    /// No subscriber (the Go2 utlidar node) matched within the timeout —
    /// check the interface name and that the robot is reachable.
    NoSubscriber(Duration),
}

/// Map a `dds_return_t` to a result: a negative code is the failure of `op`.
pub fn check(code: i32, op: &'static str) -> (r: Result<(), UtlidarError>)
    ensures
        code < 0 ==> r == Err::<(), UtlidarError>(UtlidarError::Native { op, code }),
        code >= 0 ==> r is Ok,
{
    if code < 0 {
        Err(UtlidarError::Native { op, code })
    } else {
        Ok(())
    }
}

/// Whether `data` can be published as a `std_msgs/String` sample: a C string
/// cannot hold a NUL character.
pub fn check_payload(data: &str) -> (r: Result<(), UtlidarError>)
    ensures
        data@.contains('\0') ==> r matches Err(UtlidarError::NulString),
        !data@.contains('\0') ==> r is Ok,
{
    if contains_nul(data) {
        Err(UtlidarError::NulString)
    } else {
        Ok(())
    }
}

/// A DDS call in the creation of the switch publisher. The process-wide
/// interface configuration ([`crate::dds::interface_config`]) is set before
/// the first.
pub enum SwitchSetupCall {
    /// `dds_create_participant` on domain 0.
    CreateParticipant,
    /// `dds_create_topic` for `std_msgs/String`, named [`UTLIDAR_SWITCH_TOPIC`].
    CreateTopic { participant: i32 },
    /// `dds_create_writer` on `topic`, with `qos`.
    CreateWriter { participant: i32, topic: i32, qos: WriterQos },
}

/// What follows a DDS call in the creation of the switch publisher.
pub enum SwitchSetupStep {
    /// Make this call next.
    Call(SwitchSetupCall),
    /// The publisher is created.
    Ready(UtlidarSwitch),
    /// Creation failed with `error`; the participant, if one was created, is
    /// to be deleted first.
    Fail { error: UtlidarError, delete_participant: Option<i32> },
}

/// Publisher bound to `rt/utlidar/switch` on one interface: the participant
/// that owns it (deleting it tears down the topic and writer too) and the
/// writer.
pub struct UtlidarSwitch {
    participant: i32,
    writer: i32,
}

impl UtlidarSwitch {
    pub closed spec fn spec_participant(&self) -> i32 {
        self.participant
    }

    pub closed spec fn spec_writer(&self) -> i32 {
        self.writer
    }

    /// The switch over a created `participant` and `writer`.
    pub fn new(participant: i32, writer: i32) -> (s: Self)
        ensures
            s.spec_participant() == participant,
            s.spec_writer() == writer,
    {
        UtlidarSwitch { participant, writer }
    }

    /// One step of creating the publisher: given the setup call just made and
    /// the `dds_return_t` it returned, the next call, or the publisher, or the
    /// failure. A negative code fails with that call's
    /// [`UtlidarError::Native`], and the participant, once created, is to be
    /// deleted. The calls, in order: the participant, the topic, and the
    /// writer ([`writer_qos`]).
    pub fn setup_step(call: SwitchSetupCall, code: i32) -> (s: SwitchSetupStep)
        ensures
            code < 0 ==> match call {
                SwitchSetupCall::CreateParticipant => s matches SwitchSetupStep::Fail {
                    error: UtlidarError::Native { op, code: c },
                    delete_participant: None,
                } && op@ == "dds_create_participant"@ && c == code,
                SwitchSetupCall::CreateTopic { participant } => s matches SwitchSetupStep::Fail {
                    error: UtlidarError::Native { op, code: c },
                    delete_participant: Some(p),
                } && op@ == "dds_create_topic"@ && c == code && p == participant,
                SwitchSetupCall::CreateWriter { participant, .. } => s matches SwitchSetupStep::Fail {
                    error: UtlidarError::Native { op, code: c },
                    delete_participant: Some(p),
                } && op@ == "dds_create_writer"@ && c == code && p == participant,
            },
            code >= 0 ==> match call {
                SwitchSetupCall::CreateParticipant => s == SwitchSetupStep::Call(
                    SwitchSetupCall::CreateTopic { participant: code },
                ),
                SwitchSetupCall::CreateTopic { participant } => s == SwitchSetupStep::Call(
                    SwitchSetupCall::CreateWriter {
                        participant,
                        topic: code,
                        qos: WriterQos {
                            reliability: Reliability::Reliable,
                            history: History::KeepLast(4),
                            durability: Durability::Volatile,
                        },
                    },
                ),
                SwitchSetupCall::CreateWriter { participant, .. } => s matches SwitchSetupStep::Ready(sw)
                    && sw.spec_participant() == participant && sw.spec_writer() == code,
            },
    {
        match call {
            SwitchSetupCall::CreateParticipant => {
                if code < 0 {
                    return SwitchSetupStep::Fail {
                        error: UtlidarError::Native { op: "dds_create_participant", code },
                        delete_participant: None,
                    };
                }
                SwitchSetupStep::Call(SwitchSetupCall::CreateTopic { participant: code })
            },
            SwitchSetupCall::CreateTopic { participant } => {
                if code < 0 {
                    return SwitchSetupStep::Fail {
                        error: UtlidarError::Native { op: "dds_create_topic", code },
                        delete_participant: Some(participant),
                    };
                }
                SwitchSetupStep::Call(
                    SwitchSetupCall::CreateWriter { participant, topic: code, qos: writer_qos() },
                )
            },
            SwitchSetupCall::CreateWriter { participant, .. } => {
                if code < 0 {
                    return SwitchSetupStep::Fail {
                        error: UtlidarError::Native { op: "dds_create_writer", code },
                        delete_participant: Some(participant),
                    };
                }
                SwitchSetupStep::Ready(UtlidarSwitch::new(participant, code))
            },
        }
    }

    /// The participant entity.
    pub fn participant(&self) -> (p: i32)
        ensures
            p == self.spec_participant(),
    {
        self.participant
    }

    /// The writer entity.
    pub fn writer(&self) -> (w: i32)
        ensures
            w == self.spec_writer(),
    {
        self.writer
    }

    /// How long [`set_on`](Self::set_on) waits for the utlidar subscriber to
    /// match before publishing, in seconds.
    pub const SET_ON_WAIT_SECS: u64 = 2;

    /// One check of the wait for a subscriber, given the writer's current
    /// matched-subscriber count and whether the deadline has passed: `Ok` once
    /// a subscriber matched, [`UtlidarError::NoSubscriber`] when time is up,
    /// `None` to keep waiting.
    pub fn wait_step(current_count: i32, past_deadline: bool, timeout: Duration) -> (r: Option<
        Result<(), UtlidarError>,
    >)
        ensures
            current_count > 0 ==> r == Some(Ok::<(), UtlidarError>(())),
            current_count <= 0 && past_deadline ==> r == Some(
                Err::<(), UtlidarError>(UtlidarError::NoSubscriber(timeout)),
            ),
            current_count <= 0 && !past_deadline ==> r is None,
    {
        if current_count > 0 {
            return Some(Ok(()));
        }
        if past_deadline {
            return Some(Err(UtlidarError::NoSubscriber(timeout)));
        }
        None
    }

    /// Turn the L1 LIDAR on (`"ON"`) or off (`"OFF"`), given how the wait for
    /// the utlidar subscriber (up to [`Self::SET_ON_WAIT_SECS`]) ended, which
    /// comes first: its error, with nothing to publish, or the payload to
    /// publish (whose result is then the result of switching).
    pub fn set_on(&self, on: bool, waited: Result<(), UtlidarError>) -> (r: Result<&'static str, UtlidarError>)
        ensures
            waited matches Err(e) ==> (r matches Err(e2) && e2 == e),
            waited is Ok ==> (r matches Ok(payload) && payload@ == (if on {
                "ON"@
            } else {
                "OFF"@
            })),
    {
        match waited {
            Err(e) => Err(e),
            Ok(()) => {
                if on {
                    Ok("ON")
                } else {
                    Ok("OFF")
                }
            },
        }
    }
}

} // verus!
