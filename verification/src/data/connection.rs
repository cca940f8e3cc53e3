//! Journeys and their legs.

use vstd::prelude::*;
use crate::data::location::Location;
use crate::decode::{field, has, holds, may_have, may_hold, optional_field, Decode};
use crate::json::{same_text, Json};

verus! {

/// The reply to a routing request.
#[derive(Debug)]
pub struct ConnectionList {
    pub connection_list: Vec<Connection>,
}

impl Decode for ConnectionList {
    open spec fn shape(json: Json) -> bool {
        &&& has::<Vec<Connection>>(json, "connectionList"@)
    }

    open spec fn reads(&self, json: Json) -> bool {
        &&& holds(self.connection_list, json, "connectionList"@)
    }

    fn decode(json: &Json) -> (r: Option<Self>) {
        Some(
            ConnectionList {
                connection_list: field(json, "connectionList")?,
            },
        )
    }
}

/// One journey at one time, leg by leg.
#[derive(Debug)]
pub struct Connection {
    pub zoom_notice_to: bool,
    pub zoom_notice_from: bool,
    pub from: Location,
    pub to: Location,
    pub departure: u64,
    pub arrival: u64,
    pub connection_part_list: Vec<ConnectionPart>,
    pub efa_ticket_ids: Vec<String>,
    pub server_id: u64,
    pub ring_from: u8,
    pub ring_to: u8,
    pub old_tarif: bool,
    pub banner_hash: String,
}

impl Decode for Connection {
    open spec fn shape(json: Json) -> bool {
        &&& has::<bool>(json, "zoomNoticeTo"@)
        &&& has::<bool>(json, "zoomNoticeFrom"@)
        &&& has::<Location>(json, "from"@)
        &&& has::<Location>(json, "to"@)
        &&& has::<u64>(json, "departure"@)
        &&& has::<u64>(json, "arrival"@)
        &&& has::<Vec<ConnectionPart>>(json, "connectionPartList"@)
        &&& has::<Vec<String>>(json, "efaTicketIds"@)
        &&& has::<u64>(json, "serverId"@)
        &&& has::<u8>(json, "ringFrom"@)
        &&& has::<u8>(json, "ringTo"@)
        &&& has::<bool>(json, "oldTarif"@)
        &&& has::<String>(json, "bannerHash"@)
    }

    open spec fn reads(&self, json: Json) -> bool {
        &&& holds(self.zoom_notice_to, json, "zoomNoticeTo"@)
        &&& holds(self.zoom_notice_from, json, "zoomNoticeFrom"@)
        &&& holds(self.from, json, "from"@)
        &&& holds(self.to, json, "to"@)
        &&& holds(self.departure, json, "departure"@)
        &&& holds(self.arrival, json, "arrival"@)
        &&& holds(self.connection_part_list, json, "connectionPartList"@)
        &&& holds(self.efa_ticket_ids, json, "efaTicketIds"@)
        &&& holds(self.server_id, json, "serverId"@)
        &&& holds(self.ring_from, json, "ringFrom"@)
        &&& holds(self.ring_to, json, "ringTo"@)
        &&& holds(self.old_tarif, json, "oldTarif"@)
        &&& holds(self.banner_hash, json, "bannerHash"@)
    }

    fn decode(json: &Json) -> (r: Option<Self>) {
        Some(
            Connection {
                zoom_notice_to: field(json, "zoomNoticeTo")?,
                zoom_notice_from: field(json, "zoomNoticeFrom")?,
                from: field(json, "from")?,
                to: field(json, "to")?,
                departure: field(json, "departure")?,
                arrival: field(json, "arrival")?,
                connection_part_list: field(json, "connectionPartList")?,
                efa_ticket_ids: field(json, "efaTicketIds")?,
                server_id: field(json, "serverId")?,
                ring_from: field(json, "ringFrom")?,
                ring_to: field(json, "ringTo")?,
                old_tarif: field(json, "oldTarif")?,
                banner_hash: field(json, "bannerHash")?,
            },
        )
    }
}

/// A ride from one place to another on one line.
#[derive(Debug)]
pub struct Transportation {
    pub stops: Vec<Stop>,
    pub from: Location,
    pub to: Location,
    pub path: Vec<Location>,
    pub path_description: Vec<PathDescriptor>,
    pub interchange_path: Vec<Location>,
    pub departure: u64,
    pub arrival: u64,
    pub delay: i32,
    pub arr_delay: i32,
    pub cancelled: bool,
    pub product: Product,
    pub label: String,
    pub server_id: String,
    pub destination: String,
    pub sev: bool,
    pub zoom_notice_departure: bool,
    pub zoom_notice_arrival: bool,
    pub departure_platform: String,
    pub departure_stop_position_number: u8,
    pub arrival_platform: String,
    pub arrival_stop_position_number: u8,
    pub no_changing_required: bool,
    pub from_id: String,
    pub departure_id: String,
    pub info_messages: Option<Vec<String>>,
}

impl Decode for Transportation {
    open spec fn shape(json: Json) -> bool {
        &&& has::<Vec<Stop>>(json, "stops"@)
        &&& has::<Location>(json, "from"@)
        &&& has::<Location>(json, "to"@)
        &&& has::<Vec<Location>>(json, "path"@)
        &&& has::<Vec<PathDescriptor>>(json, "pathDescription"@)
        &&& has::<Vec<Location>>(json, "interchangePath"@)
        &&& has::<u64>(json, "departure"@)
        &&& has::<u64>(json, "arrival"@)
        &&& has::<i32>(json, "delay"@)
        &&& has::<i32>(json, "arrDelay"@)
        &&& has::<bool>(json, "cancelled"@)
        &&& has::<Product>(json, "product"@)
        &&& has::<String>(json, "label"@)
        &&& has::<String>(json, "serverId"@)
        &&& has::<String>(json, "destination"@)
        &&& has::<bool>(json, "sev"@)
        &&& has::<bool>(json, "zoomNoticeDeparture"@)
        &&& has::<bool>(json, "zoomNoticeArrival"@)
        &&& has::<String>(json, "departurePlatform"@)
        &&& has::<u8>(json, "departureStopPositionNumber"@)
        &&& has::<String>(json, "arrivalPlatform"@)
        &&& has::<u8>(json, "arrivalStopPositionNumber"@)
        &&& has::<bool>(json, "noChangingRequired"@)
        &&& has::<String>(json, "fromId"@)
        &&& has::<String>(json, "departureId"@)
        &&& may_have::<Vec<String>>(json, "infoMessages"@)
    }

    open spec fn reads(&self, json: Json) -> bool {
        &&& holds(self.stops, json, "stops"@)
        &&& holds(self.from, json, "from"@)
        &&& holds(self.to, json, "to"@)
        &&& holds(self.path, json, "path"@)
        &&& holds(self.path_description, json, "pathDescription"@)
        &&& holds(self.interchange_path, json, "interchangePath"@)
        &&& holds(self.departure, json, "departure"@)
        &&& holds(self.arrival, json, "arrival"@)
        &&& holds(self.delay, json, "delay"@)
        &&& holds(self.arr_delay, json, "arrDelay"@)
        &&& holds(self.cancelled, json, "cancelled"@)
        &&& holds(self.product, json, "product"@)
        &&& holds(self.label, json, "label"@)
        &&& holds(self.server_id, json, "serverId"@)
        &&& holds(self.destination, json, "destination"@)
        &&& holds(self.sev, json, "sev"@)
        &&& holds(self.zoom_notice_departure, json, "zoomNoticeDeparture"@)
        &&& holds(self.zoom_notice_arrival, json, "zoomNoticeArrival"@)
        &&& holds(self.departure_platform, json, "departurePlatform"@)
        &&& holds(self.departure_stop_position_number, json, "departureStopPositionNumber"@)
        &&& holds(self.arrival_platform, json, "arrivalPlatform"@)
        &&& holds(self.arrival_stop_position_number, json, "arrivalStopPositionNumber"@)
        &&& holds(self.no_changing_required, json, "noChangingRequired"@)
        &&& holds(self.from_id, json, "fromId"@)
        &&& holds(self.departure_id, json, "departureId"@)
        &&& may_hold(self.info_messages, json, "infoMessages"@)
    }

    fn decode(json: &Json) -> (r: Option<Self>) {
        Some(
            Transportation {
                stops: field(json, "stops")?,
                from: field(json, "from")?,
                to: field(json, "to")?,
                path: field(json, "path")?,
                path_description: field(json, "pathDescription")?,
                interchange_path: field(json, "interchangePath")?,
                departure: field(json, "departure")?,
                arrival: field(json, "arrival")?,
                delay: field(json, "delay")?,
                arr_delay: field(json, "arrDelay")?,
                cancelled: field(json, "cancelled")?,
                product: field(json, "product")?,
                label: field(json, "label")?,
                server_id: field(json, "serverId")?,
                destination: field(json, "destination")?,
                sev: field(json, "sev")?,
                zoom_notice_departure: field(json, "zoomNoticeDeparture")?,
                zoom_notice_arrival: field(json, "zoomNoticeArrival")?,
                departure_platform: field(json, "departurePlatform")?,
                departure_stop_position_number: field(json, "departureStopPositionNumber")?,
                arrival_platform: field(json, "arrivalPlatform")?,
                arrival_stop_position_number: field(json, "arrivalStopPositionNumber")?,
                no_changing_required: field(json, "noChangingRequired")?,
                from_id: field(json, "fromId")?,
                departure_id: field(json, "departureId")?,
                info_messages: optional_field(json, "infoMessages")?,
            },
        )
    }
}

/// A stop on the way of a ride.
#[derive(Debug)]
pub struct Stop {
    pub location: Location,
    pub time: u64,
    pub delay: i32,
    pub arr_delay: i32,
}

impl Decode for Stop {
    open spec fn shape(json: Json) -> bool {
        &&& has::<Location>(json, "location"@)
        &&& has::<u64>(json, "time"@)
        &&& has::<i32>(json, "delay"@)
        &&& has::<i32>(json, "arrDelay"@)
    }

    open spec fn reads(&self, json: Json) -> bool {
        &&& holds(self.location, json, "location"@)
        &&& holds(self.time, json, "time"@)
        &&& holds(self.delay, json, "delay"@)
        &&& holds(self.arr_delay, json, "arrDelay"@)
    }

    fn decode(json: &Json) -> (r: Option<Self>) {
        Some(
            Stop {
                location: field(json, "location")?,
                time: field(json, "time")?,
                delay: field(json, "delay")?,
                arr_delay: field(json, "arrDelay")?,
            },
        )
    }
}

/// A leg that is walked.
#[derive(Debug)]
pub struct Footway {
    pub from: Location,
    pub to: Location,
    pub path: Vec<Location>,
    pub path_description: Vec<PathDescriptor>,
    pub interchange_path: Vec<()>,
    pub departure: u64,
    pub arrival: u64,
    pub cancelled: bool,
    pub zoom_notice_departure: bool,
    pub zoom_notice_arrival: bool,
    pub departure_stop_position_number: u8,
    pub arrival_stop_position_number: u8,
    pub no_changing_required: bool,
}

impl Decode for Footway {
    open spec fn shape(json: Json) -> bool {
        &&& has::<Location>(json, "from"@)
        &&& has::<Location>(json, "to"@)
        &&& has::<Vec<Location>>(json, "path"@)
        &&& has::<Vec<PathDescriptor>>(json, "pathDescription"@)
        &&& has::<Vec<()>>(json, "interchangePath"@)
        &&& has::<u64>(json, "departure"@)
        &&& has::<u64>(json, "arrival"@)
        &&& has::<bool>(json, "cancelled"@)
        &&& has::<bool>(json, "zoomNoticeDeparture"@)
        &&& has::<bool>(json, "zoomNoticeArrival"@)
        &&& has::<u8>(json, "departureStopPositionNumber"@)
        &&& has::<u8>(json, "arrivalStopPositionNumber"@)
        &&& has::<bool>(json, "noChangingRequired"@)
    }

    open spec fn reads(&self, json: Json) -> bool {
        &&& holds(self.from, json, "from"@)
        &&& holds(self.to, json, "to"@)
        &&& holds(self.path, json, "path"@)
        &&& holds(self.path_description, json, "pathDescription"@)
        &&& holds(self.interchange_path, json, "interchangePath"@)
        &&& holds(self.departure, json, "departure"@)
        &&& holds(self.arrival, json, "arrival"@)
        &&& holds(self.cancelled, json, "cancelled"@)
        &&& holds(self.zoom_notice_departure, json, "zoomNoticeDeparture"@)
        &&& holds(self.zoom_notice_arrival, json, "zoomNoticeArrival"@)
        &&& holds(self.departure_stop_position_number, json, "departureStopPositionNumber"@)
        &&& holds(self.arrival_stop_position_number, json, "arrivalStopPositionNumber"@)
        &&& holds(self.no_changing_required, json, "noChangingRequired"@)
    }

    fn decode(json: &Json) -> (r: Option<Self>) {
        Some(
            Footway {
                from: field(json, "from")?,
                to: field(json, "to")?,
                path: field(json, "path")?,
                path_description: field(json, "pathDescription")?,
                interchange_path: field(json, "interchangePath")?,
                departure: field(json, "departure")?,
                arrival: field(json, "arrival")?,
                cancelled: field(json, "cancelled")?,
                zoom_notice_departure: field(json, "zoomNoticeDeparture")?,
                zoom_notice_arrival: field(json, "zoomNoticeArrival")?,
                departure_stop_position_number: field(json, "departureStopPositionNumber")?,
                arrival_stop_position_number: field(json, "arrivalStopPositionNumber")?,
                no_changing_required: field(json, "noChangingRequired")?,
            },
        )
    }
}

/// The level on which a stretch of a path runs.
#[derive(Debug)]
pub struct PathDescriptor {
    pub from: u8,
    pub to: u8,
    pub level: i8,
}

impl Decode for PathDescriptor {
    open spec fn shape(json: Json) -> bool {
        &&& has::<u8>(json, "from"@)
        &&& has::<u8>(json, "to"@)
        &&& has::<i8>(json, "level"@)
    }

    open spec fn reads(&self, json: Json) -> bool {
        &&& holds(self.from, json, "from"@)
        &&& holds(self.to, json, "to"@)
        &&& holds(self.level, json, "level"@)
    }

    fn decode(json: &Json) -> (r: Option<Self>) {
        Some(
            PathDescriptor {
                from: field(json, "from")?,
                to: field(json, "to")?,
                level: field(json, "level")?,
            },
        )
    }
}

/// One leg of a journey, told apart by the member `connectionPartType` of its
/// document: `TRANSPORTATION` or `FOOTWAY`.
#[derive(Debug)]
pub enum ConnectionPart {
    Transportation(Transportation),
    Footway(Footway),
}

impl Decode for ConnectionPart {
    open spec fn shape(json: Json) -> bool {
        match json.at("connectionPartType"@) {
            Some(Json::Text(tag)) => if tag@ == "TRANSPORTATION"@ {
                Transportation::shape(json)
            } else if tag@ == "FOOTWAY"@ {
                Footway::shape(json)
            } else {
                false
            },
            _ => false,
        }
    }

    open spec fn reads(&self, json: Json) -> bool {
        json.at("connectionPartType"@) matches Some(Json::Text(tag)) && match self {
            ConnectionPart::Transportation(t) => tag@ == "TRANSPORTATION"@ && t.reads(json),
            ConnectionPart::Footway(f) => tag@ == "FOOTWAY"@ && f.reads(json),
        }
    }

    fn decode(json: &Json) -> (r: Option<Self>) {
        match json.member("connectionPartType") {
            Some(Json::Text(tag)) => {
                if same_text(tag, "TRANSPORTATION") {
                    Some(ConnectionPart::Transportation(Transportation::decode(json)?))
                } else if same_text(tag, "FOOTWAY") {
                    Some(ConnectionPart::Footway(Footway::decode(json)?))
                } else {
                    None
                }
            },
            _ => None,
        }
    }
}

/// A journey whose document lacks `departure` is not read, whatever else the
/// document holds.
pub proof fn lemma_journey_needs_departure(json: Json)
    requires
        json.at("departure"@) is None,
    ensures
        !Connection::shape(json),
{
}

/// A leg tagged `FOOTWAY` is read exactly when it has the shape of a footway:
/// nothing that only a ride has is asked of it.
pub proof fn lemma_footway_asks_no_ride_members(json: Json)
    requires
        json.at("connectionPartType"@) matches Some(Json::Text(tag)) && tag@ == "FOOTWAY"@,
    ensures
        ConnectionPart::shape(json) == Footway::shape(json),
{
    reveal_strlit("FOOTWAY");
    reveal_strlit("TRANSPORTATION");
    assert("FOOTWAY"@.len() != "TRANSPORTATION"@.len());
}

/// A leg tagged `TRANSPORTATION` is read exactly when it has the shape of a
/// ride.
pub proof fn lemma_ride_follows_tag(json: Json)
    requires
        json.at("connectionPartType"@) matches Some(Json::Text(tag)) && tag@ == "TRANSPORTATION"@,
    ensures
        ConnectionPart::shape(json) == Transportation::shape(json),
{
}

/// A leg whose `connectionPartType` is missing, no text, or neither
/// `TRANSPORTATION` nor `FOOTWAY` is not read.
pub proof fn lemma_unknown_tag_is_no_leg(json: Json)
    requires
        !(json.at("connectionPartType"@) matches Some(Json::Text(tag)) && (tag@
            == "TRANSPORTATION"@ || tag@ == "FOOTWAY"@)),
    ensures
        !ConnectionPart::shape(json),
{
}

/// The kind of vehicle that runs a line.
#[derive(Debug, Clone, Copy, PartialEq, Eq, Structural)]
pub enum Product {
    SBahn,
    UBahn,
    Bus,
    Bahn,
    Tram,
}

impl Product {
    /// The product that a token of the service names.
    pub open spec fn named(token: Seq<char>) -> Option<Product> {
        if token == "SBAHN"@ {
            Some(Product::SBahn)
        } else if token == "UBAHN"@ {
            Some(Product::UBahn)
        } else if token == "BUS"@ {
            Some(Product::Bus)
        } else if token == "BAHN"@ {
            Some(Product::Bahn)
        } else if token == "TRAM"@ {
            Some(Product::Tram)
        } else {
            None
        }
    }
}

impl Decode for Product {
    open spec fn shape(json: Json) -> bool {
        json matches Json::Text(token) && Product::named(token@) is Some
    }

    open spec fn reads(&self, json: Json) -> bool {
        json matches Json::Text(token) && Product::named(token@) == Some(*self)
    }

    fn decode(json: &Json) -> (r: Option<Self>) {
        match json {
            Json::Text(token) => {
                if same_text(token, "SBAHN") {
                    Some(Product::SBahn)
                } else if same_text(token, "UBAHN") {
                    Some(Product::UBahn)
                } else if same_text(token, "BUS") {
                    Some(Product::Bus)
                } else if same_text(token, "BAHN") {
                    Some(Product::Bahn)
                } else if same_text(token, "TRAM") {
                    Some(Product::Tram)
                } else {
                    None
                }
            },
            _ => None,
        }
    }
}

impl ConnectionPart {
    /// When the leg starts, in milliseconds since the epoch.
    pub open spec fn departs(self) -> u64 {
        match self {
            ConnectionPart::Transportation(t) => t.departure,
            ConnectionPart::Footway(f) => f.departure,
        }
    }

    /// When the leg ends, in milliseconds since the epoch.
    pub open spec fn arrives(self) -> u64 {
        match self {
            ConnectionPart::Transportation(t) => t.arrival,
            ConnectionPart::Footway(f) => f.arrival,
        }
    }

    pub fn departure(&self) -> (r: u64)
        ensures
            r == self.departs(),
    {
        match self {
            ConnectionPart::Transportation(t) => t.departure,
            ConnectionPart::Footway(f) => f.departure,
        }
    }

    pub fn arrival(&self) -> (r: u64)
        ensures
            r == self.arrives(),
    {
        match self {
            ConnectionPart::Transportation(t) => t.arrival,
            ConnectionPart::Footway(f) => f.arrival,
        }
    }
}

impl Connection {
    /// The legs follow each other in time: none starts before the one
    /// before it has ended. The service promises this of what it sends;
    /// reading a journey does not test it.
    pub open spec fn ordered(self) -> bool {
        forall|i: int|
            0 < i < self.connection_part_list@.len() ==> self.connection_part_list@[i - 1].arrives()
                <= (#[trigger] self.connection_part_list@[i]).departs()
    }

    /// Tests whether the legs follow each other in time.
    pub fn is_ordered(&self) -> (r: bool)
        ensures
            r == self.ordered(),
    {
        let parts = &self.connection_part_list;
        let mut i: usize = 1;
        while i < parts.len()
            invariant
                1 <= i,
                parts == &self.connection_part_list,
                forall|k: int|
                    0 < k < i && k < parts@.len() ==> parts@[k - 1].arrives() <= (
                    #[trigger] parts@[k]).departs(),
            decreases parts.len() - i,
        {
            if parts[i - 1].arrival() > parts[i].departure() {
                return false;
            }
            i += 1;
        }
        true
    }

    /// The starting location.
    pub fn from(&self) -> (r: &Location)
        ensures
            *r == self.from,
    {
        &self.from
    }

    /// The destination.
    pub fn to(&self) -> (r: &Location)
        ensures
            *r == self.to,
    {
        &self.to
    }

    /// The start of the journey, in milliseconds since the epoch.
    pub fn departure_time(&self) -> (r: u64)
        ensures
            r == self.departure,
    {
        self.departure
    }

    /// The end of the journey, in milliseconds since the epoch.
    pub fn arrival_time(&self) -> (r: u64)
        ensures
            r == self.arrival,
    {
        self.arrival
    }

    /// The legs of the journey, in their order.
    pub fn connection_parts(&self) -> (r: &Vec<ConnectionPart>)
        ensures
            *r == self.connection_part_list,
    {
        &self.connection_part_list
    }
}

impl Transportation {
    /// The starting location.
    pub fn from(&self) -> (r: &Location)
        ensures
            *r == self.from,
    {
        &self.from
    }

    /// The destination.
    pub fn to(&self) -> (r: &Location)
        ensures
            *r == self.to,
    {
        &self.to
    }

    /// The kind of vehicle.
    pub fn product(&self) -> (r: &Product)
        ensures
            *r == self.product,
    {
        &self.product
    }

    /// The label of the line, such as `U6`.
    pub fn label(&self) -> (r: &String)
        ensures
            *r == self.label,
    {
        &self.label
    }
}

} // verus!
