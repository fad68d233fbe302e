//! The pedal controller: from the conversions of both channels to one report.

use crate::sampler::{average_of, read_average_v, READ_V_COUNT};
use crate::scaler::{accel_axis, brake_axis, scale_down_accel, scale_down_brake};
use vstd::prelude::*;

verus! {

/// Bytes in the wire payload of one report.
pub const REPORT_LEN: usize = 2;

/// One gamepad report: `x` is the accelerator axis, `y` the brake axis.
#[derive(Clone, Copy, Debug, PartialEq, Eq, Structural)]
pub struct PedalReport {
    pub x: u8,
    pub y: u8,
}

impl PedalReport {
    /// The wire payload of the report: the accelerator byte, then the brake
    /// byte.
    pub open spec fn wire(self) -> Seq<u8> {
        seq![self.x, self.y]
    }

    /// The report as it goes over the wire.
    pub fn to_bytes(&self) -> (bytes: [u8; REPORT_LEN])
        ensures
            bytes@ == self.wire(),
    {
        [self.x, self.y]
    }
}

/// The report that one window of accelerator conversions and one window of
/// brake conversions give: each window is averaged, each average scaled by the
/// rule of its pedal.
pub open spec fn report_of(accel: Seq<u16>, brake: Seq<u16>) -> PedalReport {
    PedalReport {
        x: accel_axis(average_of(accel)) as u8,
        y: brake_axis(average_of(brake)) as u8,
    }
}

/// The state of both pedals as one sampling pass saw it: a window of raw
/// conversions per channel.
#[derive(Clone, Copy, Debug)]
pub struct Pedals {
    accel: [u16; READ_V_COUNT],
    brake: [u16; READ_V_COUNT],
}

impl Pedals {
    /// The conversions of the accelerator channel, oldest first.
    pub closed spec fn accel(&self) -> Seq<u16> {
        self.accel@
    }

    /// The conversions of the brake channel, oldest first.
    pub closed spec fn brake(&self) -> Seq<u16> {
        self.brake@
    }

    /// Takes the conversions of one sampling pass, the accelerator's and the
    /// brake's.
    pub fn new(accel: [u16; READ_V_COUNT], brake: [u16; READ_V_COUNT]) -> (pedals: Self)
        ensures
            pedals.accel() == accel@,
            pedals.brake() == brake@,
    {
        Self { accel, brake }
    }

    /// Averages the accelerator window, then the brake window, scales each
    /// average and composes the report. The pedals are left as they were, so
    /// that a second call gives the same report.
    pub fn report(&self) -> (report: PedalReport)
        ensures
            report == report_of(self.accel(), self.brake()),
            report.x as int == accel_axis(average_of(self.accel())),
            report.y as int == brake_axis(average_of(self.brake())),
    {
        let accel_avg_v: u16 = read_average_v(&self.accel);
        let brake_avg_v: u16 = read_average_v(&self.brake);
        PedalReport { x: scale_down_accel(accel_avg_v), y: scale_down_brake(brake_avg_v) }
    }
}

} // verus!
