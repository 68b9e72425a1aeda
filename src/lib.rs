//! Service-lifecycle supervision: write-once cells, service health state,
//! a typed service registry with start/stop orchestration, and the watchdog
//! that turns the end of a background task into a recorded failure.

pub mod set_lock;
pub mod status;
pub mod manager;
pub mod osu_mute;
