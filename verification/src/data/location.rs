//! Places: stations, street addresses and bare coordinates.

use vstd::prelude::*;
use crate::decode::{field, has, holds, may_have, may_hold, optional_field, Decode};
use crate::encode::{entry, optional_entry, Encode};
use crate::json::{find, same_text, Json, Member};

verus! {

/// A geographic coordinate: the JSON number that gave it, kept whole. `text`
/// is its decimal rendering; `unsigned` and `signed` hold its value where it is
/// an integer that fits.
#[derive(Debug)]
pub struct Coordinate {
    pub unsigned: Option<u64>,
    pub signed: Option<i64>,
    pub text: String,
}

/// Every JSON number is a coordinate.
impl Decode for Coordinate {
    open spec fn shape(json: Json) -> bool {
        json is Number
    }

    open spec fn reads(&self, json: Json) -> bool {
        json matches Json::Number { unsigned, signed, text } && unsigned == self.unsigned
            && signed == self.signed && text@ == self.text@
    }

    fn decode(json: &Json) -> (r: Option<Self>) {
        match json {
            Json::Number { unsigned, signed, text } => Some(
                Coordinate { unsigned: *unsigned, signed: *signed, text: text.clone() },
            ),
            _ => None,
        }
    }
}

/// A stop of the network. `lines` is kept as the service sent it and never
/// interpreted.
#[derive(Debug)]
pub struct Station {
    pub latitude: Coordinate,
    pub longitude: Coordinate,
    pub id: String,
    pub diva_id: usize,
    pub place: String,
    pub name: String,
    pub has_live_data: bool,
    pub has_zoom_data: bool,
    pub products: Vec<String>,
    pub aliases: Option<String>,
    pub link: Option<String>,
    pub tariff_zones: String,
    pub lines: Json,
}

impl Decode for Station {
    open spec fn shape(json: Json) -> bool {
        &&& has::<Coordinate>(json, "latitude"@)
        &&& has::<Coordinate>(json, "longitude"@)
        &&& has::<String>(json, "id"@)
        &&& has::<usize>(json, "divaId"@)
        &&& has::<String>(json, "place"@)
        &&& has::<String>(json, "name"@)
        &&& has::<bool>(json, "hasLiveData"@)
        &&& has::<bool>(json, "hasZoomData"@)
        &&& has::<Vec<String>>(json, "products"@)
        &&& may_have::<String>(json, "aliases"@)
        &&& may_have::<String>(json, "link"@)
        &&& has::<String>(json, "tariffZones"@)
        &&& has::<Json>(json, "lines"@)
    }

    open spec fn reads(&self, json: Json) -> bool {
        &&& holds(self.latitude, json, "latitude"@)
        &&& holds(self.longitude, json, "longitude"@)
        &&& holds(self.id, json, "id"@)
        &&& holds(self.diva_id, json, "divaId"@)
        &&& holds(self.place, json, "place"@)
        &&& holds(self.name, json, "name"@)
        &&& holds(self.has_live_data, json, "hasLiveData"@)
        &&& holds(self.has_zoom_data, json, "hasZoomData"@)
        &&& holds(self.products, json, "products"@)
        &&& may_hold(self.aliases, json, "aliases"@)
        &&& may_hold(self.link, json, "link"@)
        &&& holds(self.tariff_zones, json, "tariffZones"@)
        &&& holds(self.lines, json, "lines"@)
    }

    fn decode(json: &Json) -> (r: Option<Self>) {
        Some(
            Station {
                latitude: field(json, "latitude")?,
                longitude: field(json, "longitude")?,
                id: field(json, "id")?,
                diva_id: field(json, "divaId")?,
                place: field(json, "place")?,
                name: field(json, "name")?,
                has_live_data: field(json, "hasLiveData")?,
                has_zoom_data: field(json, "hasZoomData")?,
                products: field(json, "products")?,
                aliases: optional_field(json, "aliases")?,
                link: optional_field(json, "link")?,
                tariff_zones: field(json, "tariffZones")?,
                lines: field(json, "lines")?,
            },
        )
    }
}

/// A street address or a point of interest.
#[derive(Debug)]
pub struct Address {
    pub latitude: Coordinate,
    pub longitude: Coordinate,
    pub place: String,
    pub street: String,
    pub poi: bool,
}

impl Decode for Address {
    open spec fn shape(json: Json) -> bool {
        &&& has::<Coordinate>(json, "latitude"@)
        &&& has::<Coordinate>(json, "longitude"@)
        &&& has::<String>(json, "place"@)
        &&& has::<String>(json, "street"@)
        &&& has::<bool>(json, "poi"@)
    }

    open spec fn reads(&self, json: Json) -> bool {
        &&& holds(self.latitude, json, "latitude"@)
        &&& holds(self.longitude, json, "longitude"@)
        &&& holds(self.place, json, "place"@)
        &&& holds(self.street, json, "street"@)
        &&& holds(self.poi, json, "poi"@)
    }

    fn decode(json: &Json) -> (r: Option<Self>) {
        Some(
            Address {
                latitude: field(json, "latitude")?,
                longitude: field(json, "longitude")?,
                place: field(json, "place")?,
                street: field(json, "street")?,
                poi: field(json, "poi")?,
            },
        )
    }
}

/// A bare coordinate.
#[derive(Debug)]
pub struct Position {
    pub latitude: Coordinate,
    pub longitude: Coordinate,
}

impl Decode for Position {
    open spec fn shape(json: Json) -> bool {
        &&& has::<Coordinate>(json, "latitude"@)
        &&& has::<Coordinate>(json, "longitude"@)
    }

    open spec fn reads(&self, json: Json) -> bool {
        &&& holds(self.latitude, json, "latitude"@)
        &&& holds(self.longitude, json, "longitude"@)
    }

    fn decode(json: &Json) -> (r: Option<Self>) {
        Some(
            Position {
                latitude: field(json, "latitude")?,
                longitude: field(json, "longitude")?,
            },
        )
    }
}

/// A place, told apart by the member `type` of its document: `station`,
/// `address` or `location`.
#[derive(Debug)]
pub enum Location {
    Station(Station),
    Address(Address),
    Location(Position),
}

impl Decode for Location {
    open spec fn shape(json: Json) -> bool {
        match json.at("type"@) {
            Some(Json::Text(tag)) => if tag@ == "station"@ {
                Station::shape(json)
            } else if tag@ == "address"@ {
                Address::shape(json)
            } else if tag@ == "location"@ {
                Position::shape(json)
            } else {
                false
            },
            _ => false,
        }
    }

    open spec fn reads(&self, json: Json) -> bool {
        json.at("type"@) matches Some(Json::Text(tag)) && match self {
            Location::Station(s) => tag@ == "station"@ && s.reads(json),
            Location::Address(a) => tag@ == "address"@ && a.reads(json),
            Location::Location(p) => tag@ == "location"@ && p.reads(json),
        }
    }

    fn decode(json: &Json) -> (r: Option<Self>) {
        match json.member("type") {
            Some(Json::Text(tag)) => {
                if same_text(tag, "station") {
                    Some(Location::Station(Station::decode(json)?))
                } else if same_text(tag, "address") {
                    Some(Location::Address(Address::decode(json)?))
                } else if same_text(tag, "location") {
                    Some(Location::Location(Position::decode(json)?))
                } else {
                    None
                }
            },
            _ => None,
        }
    }
}

/// The reply to a search for places.
#[derive(Debug)]
pub struct Locations {
    pub locations: Vec<Location>,
}

impl Decode for Locations {
    open spec fn shape(json: Json) -> bool {
        &&& has::<Vec<Location>>(json, "locations"@)
    }

    open spec fn reads(&self, json: Json) -> bool {
        &&& holds(self.locations, json, "locations"@)
    }

    fn decode(json: &Json) -> (r: Option<Self>) {
        Some(
            Locations {
                locations: field(json, "locations")?,
            },
        )
    }
}

impl Encode for Coordinate {
    fn encode(&self) -> (json: Json) {
        Json::Number { unsigned: self.unsigned, signed: self.signed, text: self.text.clone() }
    }
}

/// The names of some members, in their order.
pub open spec fn names(members: Seq<Member>) -> Seq<Seq<char>> {
    Seq::new(members.len(), |i: int| members[i].key@)
}

impl Location {
    /// The names of the members that a place is written with, in their order.
    pub open spec fn member_names(self) -> Seq<Seq<char>> {
        match self {
            Location::Station(_) => seq![
                "type"@,
                "latitude"@,
                "longitude"@,
                "id"@,
                "divaId"@,
                "place"@,
                "name"@,
                "hasLiveData"@,
                "hasZoomData"@,
                "products"@,
                "aliases"@,
                "link"@,
                "tariffZones"@,
                "lines"@,
            ],
            Location::Address(_) => seq![
                "type"@,
                "latitude"@,
                "longitude"@,
                "place"@,
                "street"@,
                "poi"@,
            ],
            Location::Location(_) => seq!["type"@, "latitude"@, "longitude"@],
        }
    }
}

/// The member `type` with a tag as its text.
fn tag_entry(tag: &str) -> (m: Member)
    ensures
        m.key@ == "type"@,
        m.value matches Json::Text(t) && t@ == tag@,
{
    Member { key: String::from_str("type"), value: Json::Text(String::from_str(tag)) }
}

impl Station {
    /// The members of the station's document, without its tag.
    fn push_members(&self, members: &mut Vec<Member>)
        requires
            old(members)@.len() == 1,
            old(members)@[0].key@ == "type"@,
        ensures
            final(members)@[0] == old(members)@[0],
            names(final(members)@) == Location::Station(*self).member_names(),
            Station::shape(Json::Object(*final(members))),
            self.reads(Json::Object(*final(members))),
    {
        members.push(entry("latitude", &self.latitude));
        members.push(entry("longitude", &self.longitude));
        members.push(entry("id", &self.id));
        members.push(entry("divaId", &self.diva_id));
        members.push(entry("place", &self.place));
        members.push(entry("name", &self.name));
        members.push(entry("hasLiveData", &self.has_live_data));
        members.push(entry("hasZoomData", &self.has_zoom_data));
        members.push(entry("products", &self.products));
        members.push(optional_entry("aliases", &self.aliases));
        members.push(optional_entry("link", &self.link));
        members.push(entry("tariffZones", &self.tariff_zones));
        members.push(entry("lines", &self.lines));
        proof {
            reveal_strlit("type");
            reveal_strlit("latitude");
            reveal_strlit("longitude");
            reveal_strlit("id");
            reveal_strlit("divaId");
            reveal_strlit("place");
            reveal_strlit("name");
            reveal_strlit("hasLiveData");
            reveal_strlit("hasZoomData");
            reveal_strlit("products");
            reveal_strlit("aliases");
            reveal_strlit("link");
            reveal_strlit("tariffZones");
            reveal_strlit("lines");
            reveal_with_fuel(find, 15);
            assert(members@[1].key@ == "latitude"@);
            assert(members@[2].key@ == "longitude"@);
            assert(members@[3].key@ == "id"@);
            assert(members@[4].key@ == "divaId"@);
            assert(members@[5].key@ == "place"@);
            assert(members@[6].key@ == "name"@);
            assert(members@[7].key@ == "hasLiveData"@);
            assert(members@[8].key@ == "hasZoomData"@);
            assert(members@[9].key@ == "products"@);
            assert(members@[10].key@ == "aliases"@);
            assert(members@[11].key@ == "link"@);
            assert(members@[12].key@ == "tariffZones"@);
            assert(members@[13].key@ == "lines"@);
            assert("name"@[0] != "type"@[0]);
            assert("link"@[0] != "type"@[0]);
            assert("link"@[0] != "name"@[0]);
            assert("products"@[0] != "latitude"@[0]);
            assert("hasZoomData"@[3] != "hasLiveData"@[3]);
            assert("tariffZones"@[0] != "hasLiveData"@[0]);
            assert("tariffZones"@[0] != "hasZoomData"@[0]);
            assert("lines"@[0] != "place"@[0]);
            assert(find(members@, "latitude"@, 0) == Some(members@[1].value));
            assert(find(members@, "longitude"@, 0) == Some(members@[2].value));
            assert(find(members@, "id"@, 0) == Some(members@[3].value));
            assert(find(members@, "divaId"@, 0) == Some(members@[4].value));
            assert(find(members@, "place"@, 0) == Some(members@[5].value));
            assert(find(members@, "name"@, 0) == Some(members@[6].value));
            assert(find(members@, "hasLiveData"@, 0) == Some(members@[7].value));
            assert(find(members@, "hasZoomData"@, 0) == Some(members@[8].value));
            assert(find(members@, "products"@, 0) == Some(members@[9].value));
            assert(find(members@, "aliases"@, 0) == Some(members@[10].value));
            assert(find(members@, "link"@, 0) == Some(members@[11].value));
            assert(find(members@, "tariffZones"@, 0) == Some(members@[12].value));
            assert(find(members@, "lines"@, 0) == Some(members@[13].value));
            assert(names(members@) =~= Location::Station(*self).member_names());
        }
    }
}

impl Address {
    /// The members of the address's document, without its tag.
    fn push_members(&self, members: &mut Vec<Member>)
        requires
            old(members)@.len() == 1,
            old(members)@[0].key@ == "type"@,
        ensures
            final(members)@[0] == old(members)@[0],
            names(final(members)@) == Location::Address(*self).member_names(),
            Address::shape(Json::Object(*final(members))),
            self.reads(Json::Object(*final(members))),
    {
        members.push(entry("latitude", &self.latitude));
        members.push(entry("longitude", &self.longitude));
        members.push(entry("place", &self.place));
        members.push(entry("street", &self.street));
        members.push(entry("poi", &self.poi));
        proof {
            reveal_strlit("type");
            reveal_strlit("latitude");
            reveal_strlit("longitude");
            reveal_strlit("place");
            reveal_strlit("street");
            reveal_strlit("poi");
            reveal_with_fuel(find, 7);
            assert(members@[1].key@ == "latitude"@);
            assert(members@[2].key@ == "longitude"@);
            assert(members@[3].key@ == "place"@);
            assert(members@[4].key@ == "street"@);
            assert(members@[5].key@ == "poi"@);
            assert(find(members@, "latitude"@, 0) == Some(members@[1].value));
            assert(find(members@, "longitude"@, 0) == Some(members@[2].value));
            assert(find(members@, "place"@, 0) == Some(members@[3].value));
            assert(find(members@, "street"@, 0) == Some(members@[4].value));
            assert(find(members@, "poi"@, 0) == Some(members@[5].value));
            assert(names(members@) =~= Location::Address(*self).member_names());
        }
    }
}

impl Position {
    /// The members of the position's document, without its tag.
    fn push_members(&self, members: &mut Vec<Member>)
        requires
            old(members)@.len() == 1,
            old(members)@[0].key@ == "type"@,
        ensures
            final(members)@[0] == old(members)@[0],
            names(final(members)@) == Location::Location(*self).member_names(),
            Position::shape(Json::Object(*final(members))),
            self.reads(Json::Object(*final(members))),
    {
        members.push(entry("latitude", &self.latitude));
        members.push(entry("longitude", &self.longitude));
        proof {
            reveal_strlit("type");
            reveal_strlit("latitude");
            reveal_strlit("longitude");
            reveal_with_fuel(find, 4);
            assert(members@[1].key@ == "latitude"@);
            assert(members@[2].key@ == "longitude"@);
            assert(find(members@, "latitude"@, 0) == Some(members@[1].value));
            assert(find(members@, "longitude"@, 0) == Some(members@[2].value));
            assert(names(members@) =~= Location::Location(*self).member_names());
        }
    }
}

/// A place is written as an object that starts with its tag; what is written
/// reads back as the same place, under the same tag.
impl Encode for Location {
    fn encode(&self) -> (json: Json)
        ensures
            json matches Json::Object(members) && names(members@) == self.member_names(),
    {
        let mut members: Vec<Member> = Vec::new();
        proof {
            reveal_strlit("station");
            reveal_strlit("address");
            reveal_strlit("location");
            assert("address"@[0] != "station"@[0]);
        }
        match self {
            Location::Station(s) => {
                members.push(tag_entry("station"));
                s.push_members(&mut members);
            },
            Location::Address(a) => {
                members.push(tag_entry("address"));
                a.push_members(&mut members);
            },
            Location::Location(p) => {
                members.push(tag_entry("location"));
                p.push_members(&mut members);
            },
        }
        assert(find(members@, "type"@, 0) == Some(members@[0].value));
        Json::Object(members)
    }
}

/// A document whose `type` is missing, no text, or none of `station`,
/// `address` and `location` is no place.
pub proof fn lemma_unknown_tag_is_no_location(json: Json)
    requires
        !(json.at("type"@) matches Some(Json::Text(tag)) && (tag@ == "station"@ || tag@
            == "address"@ || tag@ == "location"@)),
    ensures
        !Location::shape(json),
{
}

/// The tag alone decides which shape is asked of a place.
pub proof fn lemma_tag_decides_location(json: Json)
    requires
        json.at("type"@) is Some,
    ensures
        json.at("type"@) matches Some(Json::Text(tag)) && tag@ == "station"@ ==> Location::shape(
            json,
        ) == Station::shape(json),
        json.at("type"@) matches Some(Json::Text(tag)) && tag@ == "address"@ ==> Location::shape(
            json,
        ) == Address::shape(json),
        json.at("type"@) matches Some(Json::Text(tag)) && tag@ == "location"@ ==> Location::shape(
            json,
        ) == Position::shape(json),
{
    reveal_strlit("station");
    reveal_strlit("address");
    reveal_strlit("location");
    assert("address"@[0] != "station"@[0]);
    assert("location"@.len() != "station"@.len());
}

/// The reading of a place is of the variant that its `type` names.
pub proof fn lemma_location_follows_tag(json: Json, value: Location)
    requires
        value.reads(json),
    ensures
        json.at("type"@) matches Some(Json::Text(tag)) && match value {
            Location::Station(_) => tag@ == "station"@,
            Location::Address(_) => tag@ == "address"@,
            Location::Location(_) => tag@ == "location"@,
        },
{
}

/// Reading a place and writing it again keeps the tag: a document that
/// reads as a place and a document written from that place carry the same
/// text under `type`, and both read as that place.
pub proof fn lemma_rewriting_keeps_tag(json: Json, value: Location, written: Json)
    requires
        value.reads(json),
        value.reads(written),
    ensures
        json.at("type"@) matches Some(Json::Text(before)) && written.at("type"@) matches Some(
            Json::Text(after),
        ) && before@ == after@,
{
}

impl Station {
    pub fn id(&self) -> (r: String)
        ensures
            r@ == self.id@,
    {
        self.id.clone()
    }

    pub fn name(&self) -> (r: String)
        ensures
            r@ == self.name@,
    {
        self.name.clone()
    }

    pub fn place(&self) -> (r: String)
        ensures
            r@ == self.place@,
    {
        self.place.clone()
    }
}

} // verus!
