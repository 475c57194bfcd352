//! Monotonic uptime and software one-shot / periodic timers composed from a
//! minimal hardware countdown-timer capability.

pub mod capture;
pub mod error;
pub mod hw;
pub mod oneshot;
pub mod periodic;
pub mod sim;
pub mod uptime;

pub use capture::{compose_ticks, latched_read, CaptureCounter, LatchedRead};
pub use error::Error;
pub use hw::{Timer, TimerModel};
pub use oneshot::OneShotTimer;
pub use periodic::{PeriodicTimer, WouldBlock};
pub use sim::{SimCounter, SimTimer};
pub use uptime::{
    DirectUptime, SysUptime, TickInstant, WideCounter, APB_FREQUENCY, TICKS_PER_SECOND,
};
