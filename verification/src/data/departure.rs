//! Departures from one station, and the lines that serve it.

use vstd::prelude::*;
use crate::data::connection::Product;
use crate::decode::{field, has, holds, Decode};
use crate::json::Json;

verus! {

/// The reply to a request for the departures of one station.
#[derive(Debug)]
pub struct DepartureInfo {
    pub serving_lines: Vec<ServingLine>,
    pub departures: Vec<Departure>,
}

impl Decode for DepartureInfo {
    open spec fn shape(json: Json) -> bool {
        &&& has::<Vec<ServingLine>>(json, "servingLines"@)
        &&& has::<Vec<Departure>>(json, "departures"@)
    }

    open spec fn reads(&self, json: Json) -> bool {
        &&& holds(self.serving_lines, json, "servingLines"@)
        &&& holds(self.departures, json, "departures"@)
    }

    fn decode(json: &Json) -> (r: Option<Self>) {
        Some(
            DepartureInfo {
                serving_lines: field(json, "servingLines")?,
                departures: field(json, "departures")?,
            },
        )
    }
}

/// A line that serves the station.
#[derive(Debug)]
pub struct ServingLine {
    pub destination: String,
    pub sev: bool,
    pub partial_net: String,
    pub product: Product,
    pub line_number: String,
    pub diva_id: String,
}

impl Decode for ServingLine {
    open spec fn shape(json: Json) -> bool {
        &&& has::<String>(json, "destination"@)
        &&& has::<bool>(json, "sev"@)
        &&& has::<String>(json, "partialNet"@)
        &&& has::<Product>(json, "product"@)
        &&& has::<String>(json, "lineNumber"@)
        &&& has::<String>(json, "divaId"@)
    }

    open spec fn reads(&self, json: Json) -> bool {
        &&& holds(self.destination, json, "destination"@)
        &&& holds(self.sev, json, "sev"@)
        &&& holds(self.partial_net, json, "partialNet"@)
        &&& holds(self.product, json, "product"@)
        &&& holds(self.line_number, json, "lineNumber"@)
        &&& holds(self.diva_id, json, "divaId"@)
    }

    fn decode(json: &Json) -> (r: Option<Self>) {
        Some(
            ServingLine {
                destination: field(json, "destination")?,
                sev: field(json, "sev")?,
                partial_net: field(json, "partialNet")?,
                product: field(json, "product")?,
                line_number: field(json, "lineNumber")?,
                diva_id: field(json, "divaId")?,
            },
        )
    }
}

/// One departure, scheduled or live. `departure_time` counts milliseconds since
/// the epoch.
#[derive(Debug)]
pub struct Departure {
    pub departure_time: u64,
    pub product: Product,
    pub label: String,
    pub destination: String,
    pub live: bool,
    pub cancelled: bool,
    pub line_background_color: String,
    pub departure_id: String,
    pub sev: bool,
    pub platform: String,
    pub stop_position_number: u8,
}

impl Decode for Departure {
    open spec fn shape(json: Json) -> bool {
        &&& has::<u64>(json, "departureTime"@)
        &&& has::<Product>(json, "product"@)
        &&& has::<String>(json, "label"@)
        &&& has::<String>(json, "destination"@)
        &&& has::<bool>(json, "live"@)
        &&& has::<bool>(json, "cancelled"@)
        &&& has::<String>(json, "lineBackgroundColor"@)
        &&& has::<String>(json, "departureId"@)
        &&& has::<bool>(json, "sev"@)
        &&& has::<String>(json, "platform"@)
        &&& has::<u8>(json, "stopPositionNumber"@)
    }

    open spec fn reads(&self, json: Json) -> bool {
        &&& holds(self.departure_time, json, "departureTime"@)
        &&& holds(self.product, json, "product"@)
        &&& holds(self.label, json, "label"@)
        &&& holds(self.destination, json, "destination"@)
        &&& holds(self.live, json, "live"@)
        &&& holds(self.cancelled, json, "cancelled"@)
        &&& holds(self.line_background_color, json, "lineBackgroundColor"@)
        &&& holds(self.departure_id, json, "departureId"@)
        &&& holds(self.sev, json, "sev"@)
        &&& holds(self.platform, json, "platform"@)
        &&& holds(self.stop_position_number, json, "stopPositionNumber"@)
    }

    fn decode(json: &Json) -> (r: Option<Self>) {
        Some(
            Departure {
                departure_time: field(json, "departureTime")?,
                product: field(json, "product")?,
                label: field(json, "label")?,
                destination: field(json, "destination")?,
                live: field(json, "live")?,
                cancelled: field(json, "cancelled")?,
                line_background_color: field(json, "lineBackgroundColor")?,
                departure_id: field(json, "departureId")?,
                sev: field(json, "sev")?,
                platform: field(json, "platform")?,
                stop_position_number: field(json, "stopPositionNumber")?,
            },
        )
    }
}

impl Departure {
    /// The time of departure, in milliseconds since the epoch.
    pub fn departure_time(&self) -> (r: u64)
        ensures
            r == self.departure_time,
    {
        self.departure_time
    }

    pub fn label(&self) -> (r: String)
        ensures
            r@ == self.label@,
    {
        self.label.clone()
    }

    pub fn destination(&self) -> (r: String)
        ensures
            r@ == self.destination@,
    {
        self.destination.clone()
    }

    /// The colour of the line's badge, as CSS text.
    pub fn line_background_color(&self) -> (r: String)
        ensures
            r@ == self.line_background_color@,
    {
        self.line_background_color.clone()
    }
}

} // verus!
