//! Session orchestration and decode-pipeline core of a screen-mirroring client.
//!
//! - [`async_state`]: one in-flight load at a time, with generational tickets that
//!   discard stale results.
//! - [`sender`]: the respawn-and-retry-once rule of a resilient worker endpoint.
//! - [`session_manager`]: the registry that keeps one session per device.
//! - [`session`]: a session worker's stream options, video pairing and exit result.
//! - [`stream_decoder`]: packet tagging and the per-packet steps of the decoder.
//! - [`hw`]: hardware device kinds and the pool of devices.
//! - [`frame_buffer`]: decoded frames and the latest-wins frame mailbox.
//! - [`model`], [`logs`], [`settings`], [`fps_counter`]: interface state and its update rule.
//! - [`adb`]: errors of the device-service worker and its connection health steps.
use vstd::prelude::*;

pub mod adb;
pub mod async_state;
pub mod clock;
pub mod fps_counter;
pub mod frame_buffer;
pub mod hw;
pub mod logs;
pub mod model;
pub mod sender;
pub mod session;
pub mod settings;
pub mod session_manager;
pub mod stream_decoder;

verus! {

/// Selects between a singular or a plural value: `1` is singular, `0` and `2+` are plural.
pub fn plural<T>(count: usize, singular: T, plural_val: T) -> (r: T)
    ensures
        r == (if count == 1 { singular } else { plural_val }),
{
    if count == 1 {
        singular
    } else {
        plural_val
    }
}

} // verus!
