//! Enumerations of the `battery_state` messages of the schema.
use vstd::prelude::*;

use crate::text::str_eq;

verus! {

#[derive(Debug, Clone, Copy, PartialEq, Eq, Structural)]
pub enum PowerSupplyStatus {
    Unknown,
    Charging,
    Discharging,
    NotCharging,
    Full,
}

pub open spec fn power_supply_status_variant_name(v: PowerSupplyStatus) -> Seq<char> {
    match v {
        PowerSupplyStatus::Unknown => "UNKNOWN"@,
        PowerSupplyStatus::Charging => "CHARGING"@,
        PowerSupplyStatus::Discharging => "DISCHARGING"@,
        PowerSupplyStatus::NotCharging => "NOT_CHARGING"@,
        PowerSupplyStatus::Full => "FULL"@,
    }
}

pub open spec fn power_supply_status_from_variant_name(s: Seq<char>) -> Option<PowerSupplyStatus> {
    if s == "UNKNOWN"@ {
        Some(PowerSupplyStatus::Unknown)
    } else if s == "CHARGING"@ {
        Some(PowerSupplyStatus::Charging)
    } else if s == "DISCHARGING"@ {
        Some(PowerSupplyStatus::Discharging)
    } else if s == "NOT_CHARGING"@ {
        Some(PowerSupplyStatus::NotCharging)
    } else if s == "FULL"@ {
        Some(PowerSupplyStatus::Full)
    } else {
        None
    }
}

impl PowerSupplyStatus {
    /// The name of the variant in the message schema.
    pub fn as_str_name(&self) -> (r: &'static str)
        ensures
            r@ == power_supply_status_variant_name(*self),
    {
        match self {
            PowerSupplyStatus::Unknown => "UNKNOWN",
            PowerSupplyStatus::Charging => "CHARGING",
            PowerSupplyStatus::Discharging => "DISCHARGING",
            PowerSupplyStatus::NotCharging => "NOT_CHARGING",
            PowerSupplyStatus::Full => "FULL",
        }
    }

    /// The variant with the given schema name.
    pub fn from_str_name(value: &str) -> (r: Option<Self>)
        ensures
            r == power_supply_status_from_variant_name(value@),
    {
        if str_eq(value, "UNKNOWN") {
            Some(PowerSupplyStatus::Unknown)
        } else if str_eq(value, "CHARGING") {
            Some(PowerSupplyStatus::Charging)
        } else if str_eq(value, "DISCHARGING") {
            Some(PowerSupplyStatus::Discharging)
        } else if str_eq(value, "NOT_CHARGING") {
            Some(PowerSupplyStatus::NotCharging)
        } else if str_eq(value, "FULL") {
            Some(PowerSupplyStatus::Full)
        } else {
            None
        }
    }
}
} // verus!
