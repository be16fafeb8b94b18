//! The I/O-free part of the DDS pub/sub layer: its error type, the message
//! bound of topic types, the Cyclone DDS configuration that selects a network
//! interface, and the decision step of a blocking receive.
//!
//! Messages are the POD types of [`crate::msgs`] (the [`Message`] trait).
//! Variable-length types (with `string`/sequence fields) are not POD and cannot
//! be used as topic types. Participants, topics, readers and writers live with
//! the DDS implementation, outside this crate.

use vstd::prelude::*;
use crate::msgs::DdsPod;

verus! {

/// Errors surfaced by the safe DDS API.
#[derive(Debug)]
pub enum DdsError {
    /// A Cyclone DDS C call returned a negative `dds_return_t`.
    Native {
        /// The C function that failed.
        op: &'static str,
        /// The raw `dds_return_t` value (negative).
        code: i32,
    },
    /// Creating a topic failed.
    TopicCreate {
        /// Topic name.
        name: String,
    },
    /// A blocking receive exceeded its timeout.
    Timeout,
    /// The selected backend does not implement this operation yet.
    Unsupported(&'static str),
}

/// The Cyclone DDS configuration (the value of the process-wide
/// `CYCLONEDDS_URI` environment variable) that binds participants to the
/// network interface `iface`, e.g. `"eth0"`.
pub fn interface_config(iface: &str) -> (xml: String)
    ensures
        xml@ == "<CycloneDDS><Domain><General><Interfaces><NetworkInterface name=\""@ + iface@
            + "\" priority=\"default\" multicast=\"default\"/></Interfaces></General></Domain></CycloneDDS>"@,
{
    let mut xml = String::from_str(
        "<CycloneDDS><Domain><General><Interfaces><NetworkInterface name=\"",
    );
    xml.append(iface);
    xml.append(
        "\" priority=\"default\" multicast=\"default\"/></Interfaces></General></Domain></CycloneDDS>",
    );
    xml
}

/// Whether `s` holds a NUL character, which a C string (topic name, string
/// sample) cannot carry.
pub fn contains_nul(s: &str) -> (b: bool)
    ensures
        b == s@.contains('\0'),
{
    let n = s.unicode_len();
    let mut i: usize = 0;
    while i < n
        invariant
            n == s@.len(),
            i <= n,
            forall|k: int| 0 <= k < i ==> s@[k] != '\0',
        decreases n - i,
    {
        if s.get_char(i) == '\0' {
            return true;
        }
        i += 1;
    }
    false
}

/// A type usable as a DDS topic type: a POD message ([`DdsPod`]).
pub trait Message: DdsPod {}

impl<T: DdsPod> Message for T {}

/// One round of a blocking receive, given what a non-blocking poll of a reader
/// returned and whether the deadline has passed: a sample or an error ends the
/// receive; with no data, [`DdsError::Timeout`] once the deadline has passed,
/// else `None` (wait a little and poll again).
pub fn recv_step<T>(polled: Result<Option<T>, DdsError>, past_deadline: bool) -> (r: Option<
    Result<T, DdsError>,
>)
    ensures
        polled matches Ok(Some(s)) ==> r == Some(Ok::<T, DdsError>(s)),
        polled matches Err(e) ==> r == Some(Err::<T, DdsError>(e)),
        polled matches Ok(None) ==> (if past_deadline {
            r == Some(Err::<T, DdsError>(DdsError::Timeout))
        } else {
            r is None
        }),
{
    match polled {
        Ok(Some(sample)) => Some(Ok(sample)),
        Err(e) => Some(Err(e)),
        Ok(None) => {
            if past_deadline {
                Some(Err(DdsError::Timeout))
            } else {
                None
            }
        },
    }
}

} // verus!
