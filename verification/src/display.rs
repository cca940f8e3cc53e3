//! The lines that a terminal front end shows.

use vstd::prelude::*;
use crate::data::connection::ConnectionPart;
use crate::data::location::{Location, Station};
use crate::data::MVGError;
use crate::encode::{decimal_text, numeral};

verus! {

/// A run of `n` blanks.
pub open spec fn blanks(n: nat) -> Seq<char> {
    Seq::new(n, |i: int| ' ')
}

/// A name in forty columns: a longer one is cut to thirty-seven characters
/// and three dots, a shorter one is filled with blanks.
pub open spec fn fitted(name: Seq<char>) -> Seq<char> {
    if name.len() > 40 {
        name.subrange(0, 37) + "..."@
    } else {
        name + blanks((40 - name.len()) as nat)
    }
}

/// Fits the name of a destination into its column.
pub fn fit_destination(destination: &str) -> (r: String)
    ensures
        r@ == fitted(destination@),
{
    let len = destination.unicode_len();
    if len > 40 {
        let mut r = String::from_str(destination.substring_char(0, 37));
        r.append("...");
        r
    } else {
        let mut r = String::from_str(destination);
        let mut i: usize = len;
        proof {
            assert(r@ =~= destination@ + blanks(0));
        }
        while i < 40
            invariant
                len <= i <= 40,
                len == destination@.len(),
                r@ == destination@ + blanks((i - len) as nat),
            decreases 40 - i,
        {
            r.append(" ");
            proof {
                reveal_strlit(" ");
                assert(r@ =~= destination@ + blanks((i + 1 - len) as nat));
            }
            i += 1;
        }
        r
    }
}

/// One channel of a colour on the six-step scale of the ANSI palette, which
/// this never takes to its last step.
pub open spec fn level(channel: u8) -> u8 {
    if (channel + 32) / 64 < 4 {
        ((channel + 32) / 64) as u8
    } else {
        4
    }
}

pub fn ansi_level(channel: u8) -> (r: u8)
    ensures
        r == level(channel),
        r <= 4,
{
    let scaled: u16 = (channel as u16 + 32) / 64;
    if scaled < 4 {
        scaled as u8
    } else {
        4
    }
}

/// The red, green and blue of a CSS colour, or `None` for a text that names
/// none.
pub uninterp spec fn css_color(text: Seq<char>) -> Option<(u8, u8, u8)>;

/// `str::parse::<css_color_parser::Color>`, of whose result the three colour
/// channels are kept: they depend on the text alone.
#[verifier::external_body]
fn parse_css_color(text: &str) -> (r: Option<(u8, u8, u8)>)
    ensures
        r == css_color(text@),
{
    match text.parse::<css_color_parser::Color>() {
        Ok(color) => Some((color.r, color.g, color.b)),
        Err(_) => None,
    }
}

/// The palette steps of a line's badge; a colour that could not be read
/// counts as white.
pub open spec fn badge_levels(color: Option<(u8, u8, u8)>) -> (u8, u8, u8) {
    match color {
        Some((r, g, b)) => (level(r), level(g), level(b)),
        None => (4, 4, 4),
    }
}

pub fn badge_of(color: Option<(u8, u8, u8)>) -> (r: (u8, u8, u8))
    ensures
        r == badge_levels(color),
        r.0 <= 4 && r.1 <= 4 && r.2 <= 4,
{
    match color {
        Some((r, g, b)) => (ansi_level(r), ansi_level(g), ansi_level(b)),
        None => (ansi_level(255), ansi_level(255), ansi_level(255)),
    }
}

/// The palette steps of the badge of a line whose colour is given as CSS
/// text.
pub fn badge(line_background_color: &str) -> (r: (u8, u8, u8))
    ensures
        r == badge_levels(css_color(line_background_color@)),
        r.0 <= 4 && r.1 <= 4 && r.2 <= 4,
{
    badge_of(parse_css_color(line_background_color))
}

/// The first station among some places, if there is one.
pub open spec fn first_station_at(locations: Seq<Location>, from: int) -> Option<int>
    decreases locations.len() - from,
{
    if from < 0 || from >= locations.len() {
        None
    } else if locations[from] is Station {
        Some(from)
    } else {
        first_station_at(locations, from + 1)
    }
}

pub fn first_station(locations: &Vec<Location>) -> (r: Option<&Station>)
    ensures
        match first_station_at(locations@, 0) {
            Some(i) => r matches Some(s) && locations@[i] == Location::Station(*s),
            None => r is None,
        },
{
    let mut i: usize = 0;
    while i < locations.len()
        invariant
            i <= locations.len(),
            first_station_at(locations@, 0) == first_station_at(locations@, i as int),
        decreases locations.len() - i,
    {
        match &locations[i] {
            Location::Station(s) => {
                return Some(s);
            },
            _ => {},
        }
        i += 1;
    }
    None
}

/// The stations among some places, in their order.
pub open spec fn stations_in(locations: Seq<Location>) -> Seq<Station>
    decreases locations.len(),
{
    if locations.len() == 0 {
        Seq::empty()
    } else {
        let before = stations_in(locations.drop_last());
        match locations.last() {
            Location::Station(s) => before.push(s),
            _ => before,
        }
    }
}

/// The line that lists a station: name, place and id.
pub open spec fn listed(station: Station) -> Seq<char> {
    station.name@ + ", "@ + station.place@ + ", "@ + station.id@
}

pub fn station_line(station: &Station) -> (r: String)
    ensures
        r@ == listed(*station),
{
    let mut r = station.name.clone();
    r.append(", ");
    r.append(station.place.as_str());
    r.append(", ");
    r.append(station.id.as_str());
    r
}

/// The lines that list the stations among some places, in their order; what
/// is no station is passed over.
pub fn station_lines(locations: &Vec<Location>) -> (r: Vec<String>)
    ensures
        r@.len() == stations_in(locations@).len(),
        forall|k: int| 0 <= k < r@.len() ==> (#[trigger] r@[k])@ == listed(stations_in(locations@)[k]),
{
    let mut r: Vec<String> = Vec::new();
    let mut i: usize = 0;
    while i < locations.len()
        invariant
            i <= locations.len(),
            r@.len() == stations_in(locations@.take(i as int)).len(),
            forall|k: int|
                0 <= k < r@.len() ==> (#[trigger] r@[k])@ == listed(
                    stations_in(locations@.take(i as int))[k],
                ),
        decreases locations.len() - i,
    {
        proof {
            let now = locations@.take(i as int + 1);
            assert(now.drop_last() =~= locations@.take(i as int));
            assert(now.last() == locations@[i as int]);
        }
        match &locations[i] {
            Location::Station(s) => {
                r.push(station_line(s));
            },
            _ => {},
        }
        i += 1;
    }
    proof {
        assert(locations@.take(locations.len() as int) =~= locations@);
    }
    r
}

/// The heading above the departures of a station.
pub fn departures_heading(station: &Station) -> (r: String)
    ensures
        r@ == "Departures at station "@ + station.name@ + ", "@ + station.place@ + ":"@,
{
    let mut r = String::from_str("Departures at station ");
    r.append(station.name.as_str());
    r.append(", ");
    r.append(station.place.as_str());
    r.append(":");
    r
}

/// The heading above a journey, which are counted from zero.
pub fn connection_heading(index: usize) -> (r: String)
    ensures
        r@ == "Connection "@ + numeral(index as nat),
{
    let mut r = String::from_str("Connection ");
    let number = decimal_text(index as u64);
    r.append(number.as_str());
    r
}

/// What is said of a leg: a walk is `Run!`, a ride between two stations names
/// its line and both stations, and of any other ride nothing is said.
pub open spec fn leg_said(part: ConnectionPart, r: Option<String>) -> bool {
    match part {
        ConnectionPart::Footway(_) => r matches Some(line) && line@ == "Run!"@,
        ConnectionPart::Transportation(t) => match (t.from, t.to) {
            (Location::Station(from), Location::Station(to)) => r matches Some(line) && line@
                == "Take "@ + t.label@ + " from "@ + from.name@ + " to "@ + to.name@,
            _ => r is None,
        },
    }
}

pub fn leg_line(part: &ConnectionPart) -> (r: Option<String>)
    ensures
        leg_said(*part, r),
{
    match part {
        ConnectionPart::Footway(_) => Some(String::from_str("Run!")),
        ConnectionPart::Transportation(t) => match &t.from {
            Location::Station(from) => match &t.to {
                Location::Station(to) => {
                    let mut r = String::from_str("Take ");
                    r.append(t.label.as_str());
                    r.append(" from ");
                    r.append(from.name.as_str());
                    r.append(" to ");
                    r.append(to.name.as_str());
                    Some(r)
                },
                _ => None,
            },
            _ => None,
        },
    }
}

/// What the user is told of an error.
pub fn error_text(error: &MVGError) -> (r: &'static str)
    ensures
        r@ == match error {
            MVGError::HyperError(_) => "Couldn't connect to the MVG API."@,
            MVGError::JsonError(_) => "Couldn't parse API response."@,
            MVGError::InvalidUri(_) => "Couldn't create valid URI."@,
            MVGError::ArgumentError(_) => "Unknown Error"@,
        },
{
    match error {
        MVGError::HyperError(_) => "Couldn't connect to the MVG API.",
        MVGError::JsonError(_) => "Couldn't parse API response.",
        MVGError::InvalidUri(_) => "Couldn't create valid URI.",
        MVGError::ArgumentError(_) => "Unknown Error",
    }
}

} // verus!
