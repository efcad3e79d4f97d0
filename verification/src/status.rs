//! What a one-line status shows, which depends on the kind of sensor the
//! reading came from.

use vstd::prelude::*;

verus! {

/// The measurements that make up a status line.
#[derive(Clone, Copy, Debug, PartialEq, Eq, Structural)]
pub enum StatusLayout {
    /// Carbon dioxide, with temperature, humidity and pressure.
    CarbonDioxide,
    /// Radon, with temperature, humidity and pressure.
    Radon { radon: u32 },
    /// The radiation dose rate alone.
    Radiation,
    /// Temperature and humidity alone.
    Climate,
}

/// The layout for a reading: a carbon dioxide value above zero decides for
/// carbon dioxide; failing that a radon value, then a radiation rate; a
/// reading with none of the three shows the climate alone.
pub open spec fn layout_of(co2: u16, radon: Option<u32>, has_radiation_rate: bool) -> StatusLayout {
    if co2 > 0 {
        StatusLayout::CarbonDioxide
    } else if radon is Some {
        StatusLayout::Radon { radon: radon->0 }
    } else if has_radiation_rate {
        StatusLayout::Radiation
    } else {
        StatusLayout::Climate
    }
}

/// Chooses the layout of the status line for a reading.
pub fn status_layout(co2: u16, radon: Option<u32>, has_radiation_rate: bool) -> (layout:
    StatusLayout)
    ensures
        layout == layout_of(co2, radon, has_radiation_rate),
{
    if co2 > 0 {
        StatusLayout::CarbonDioxide
    } else if let Some(value) = radon {
        StatusLayout::Radon { radon: value }
    } else if has_radiation_rate {
        StatusLayout::Radiation
    } else {
        StatusLayout::Climate
    }
}

/// The name a status is shown under: the name the device gave itself, or
/// the identifier it was reached by.
pub fn display_name(name: Option<String>, identifier: &str) -> (shown: String)
    ensures
        shown@ == match name {
            Some(given) => given@,
            None => identifier@,
        },
{
    match name {
        Some(given) => given,
        None => String::from_str(identifier),
    }
}

/// The name of the temperature column of delimited output.
pub fn temperature_column(fahrenheit: bool) -> (column: &'static str)
    ensures
        column@ == if fahrenheit {
            "temperature_f"@
        } else {
            "temperature_c"@
        },
{
    if fahrenheit {
        "temperature_f"
    } else {
        "temperature_c"
    }
}

/// The unit named beside a temperature in structured output.
pub fn temperature_unit(fahrenheit: bool) -> (unit: &'static str)
    ensures
        unit@ == if fahrenheit {
            "F"@
        } else {
            "C"@
        },
{
    if fahrenheit {
        "F"
    } else {
        "C"
    }
}

} // verus!
