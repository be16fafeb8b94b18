//! Verified core of a Unitree Go2 SDK: the XCDR2 wire encoding and the
//! `unitree_go` and `unitree_hg` message types, the `LowCmd` CRC and initialization, QoS
//! profiles, the I/O-free part of the DDS pub/sub API, and the protocol side of
//! the RPC (`motion_switcher`) and LIDAR-switch clients.

pub mod le;
pub mod cdr;
pub mod cdr_prim;
pub mod cdr_seq;
pub mod msgs;
pub mod unitree_go;
pub mod unitree_hg;
pub mod unitree_api;
pub mod wire;
pub mod lowcmd;
pub mod qos;
pub mod dds;
pub mod utlidar;
pub mod rpc;
pub mod topics;
pub mod joint;

pub use cdr::{CdrDeserialize, CdrDeserializer, CdrError, CdrRoundTrip, CdrSerialize, CdrSerializer};
pub use msgs::{DdsPod, DdsType};
pub use qos::{Durability, History, ReaderQos, Reliability, WriterQos};
pub use dds::{recv_step, DdsError, Message};
pub use lowcmd::{crc32_core, init_lowcmd, set_crc, POS_STOP_F_BITS, VEL_STOP_F_BITS};
pub use utlidar::{UtlidarError, UtlidarSwitch};
pub use rpc::{MotionSwitcher, Reply, RpcClient, RpcError};
pub use unitree_go::{BmsCmd, BmsState, IMUState, LowCmd, LowState, MotorCmd, MotorState, WirelessController};
