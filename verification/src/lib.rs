//! Verified core of a two-pedal USB gamepad.
//!
//! Raw analog conversions of an accelerator and a brake pedal are averaged,
//! scaled to one 8-bit axis each and composed into a two-byte report. A
//! scheduler decides, one event at a time, which conversion, push or wait
//! comes next; the firmware around this crate performs those actions on the
//! hardware and hands the results back.

pub mod pedals;
pub mod sampler;
pub mod scaler;
pub mod scheduler;
pub mod transport;

pub use crate::pedals::{PedalReport, Pedals};
pub use crate::sampler::read_average_v;
pub use crate::scaler::{scale_down_accel, scale_down_brake};
pub use crate::scheduler::{Action, Channel, Event, Scheduler};
pub use crate::transport::{PushOutcome, TransportError};
