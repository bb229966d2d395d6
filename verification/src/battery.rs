//! The battery report.

use crate::FromBytes;
use vstd::prelude::*;

verus! {

/// What the battery is doing.
#[derive(Clone, Copy, Debug, PartialEq, Eq, Structural)]
pub enum ChargingStatus {
    Discharging,
    /// Charging; the flag tells a descending from an ascending charge.
    Charging(bool),
    Full,
}

/// Charge and charging status as the device reports them.
#[derive(Clone, Copy, Debug, PartialEq, Eq, Structural)]
pub struct BatteryStatus {
    pub charging_status: ChargingStatus,
    /// Charge in percent.
    pub charge: u8,
}

/// The status that a status byte stands for.
pub open spec fn status_of(code: u8) -> ChargingStatus {
    if code == 3 {
        ChargingStatus::Charging(false)
    } else if code == 5 {
        ChargingStatus::Charging(true)
    } else if code == 7 {
        ChargingStatus::Full
    } else {
        ChargingStatus::Discharging
    }
}

impl FromBytes for BatteryStatus {
    /// The status is read from a whole response: header, charge, one
    /// byte passed over, status.
    open spec fn needed() -> nat {
        7
    }

    open spec fn decoded(bytes: Seq<u8>) -> BatteryStatus {
        BatteryStatus { charging_status: status_of(bytes[6]), charge: bytes[4] }
    }

    fn from_bytes(bytes: &[u8]) -> (out: BatteryStatus) {
        let code: u8 = bytes[6];
        let charging_status = if code == 3 {
            ChargingStatus::Charging(false)
        } else if code == 5 {
            ChargingStatus::Charging(true)
        } else if code == 7 {
            ChargingStatus::Full
        } else {
            ChargingStatus::Discharging
        };
        BatteryStatus { charging_status, charge: bytes[4] }
    }
}

} // verus!
