use mvg_lib::data::connection::{Connection, ConnectionList, ConnectionPart, Product};
use mvg_lib::data::departure::{Departure, DepartureInfo};
use mvg_lib::data::location::{Location, Locations};
use mvg_lib::data::{decode_reply, read_reply, DecodeFault, MVGError};
use mvg_lib::decode::{field, optional_field, Decode};
use mvg_lib::json::{Json, Member};

const STATION: &str = "{
        \"type\": \"station\",
        \"latitude\": 48.03621598164,
        \"longitude\": 11.21876313932,
        \"id\": \"de:09188:5516\",
        \"divaId\": 5516,
        \"place\": \"Oberalting\",
        \"name\": \"Marienplatz\",
        \"hasLiveData\": false,
        \"hasZoomData\": false,
        \"products\": [
            \"BUS\"
        ],
        \"aliases\": \"\",
        \"tariffZones\": \"3|4\",
        \"lines\": {
          \"tram\": [
          ],
          \"nachttram\": [
          ],
          \"sbahn\": [
          ],
          \"ubahn\": [
          ],
          \"bus\": [
          ],
          \"nachtbus\": [
          ],
          \"otherlines\": [
          ]
        }
      }";

const ADDRESS: &str = "{\"type\":\"address\",\"latitude\":48.1,\"longitude\":11,\"place\":\"München\",\"street\":\"Marienplatz 1\",\"poi\":true}";

const POSITION: &str = "{\"type\":\"location\",\"latitude\":-48.5,\"longitude\":11.25}";

fn footway_text() -> String {
    format!(
        "{{\"connectionPartType\":\"FOOTWAY\",\"from\":{},\"to\":{},\"path\":[{}],\"pathDescription\":[{{\"from\":0,\"to\":1,\"level\":-1}}],\"interchangePath\":[],\"departure\":1600000000000,\"arrival\":1600000060000,\"cancelled\":false,\"zoomNoticeDeparture\":false,\"zoomNoticeArrival\":true,\"departureStopPositionNumber\":0,\"arrivalStopPositionNumber\":2,\"noChangingRequired\":false}}",
        ADDRESS, STATION, POSITION
    )
}

fn transportation_text(tag: &str) -> String {
    format!(
        "{{\"connectionPartType\":\"{}\",\"stops\":[{{\"location\":{},\"time\":1600000090000,\"delay\":-1,\"arrDelay\":2}}],\"from\":{},\"to\":{},\"path\":[],\"pathDescription\":[],\"interchangePath\":[],\"departure\":1600000060000,\"arrival\":1600000120000,\"delay\":3,\"arrDelay\":-2,\"cancelled\":false,\"product\":\"UBAHN\",\"label\":\"U6\",\"serverId\":\"42\",\"destination\":\"Garching\",\"sev\":false,\"zoomNoticeDeparture\":false,\"zoomNoticeArrival\":false,\"departurePlatform\":\"1\",\"departureStopPositionNumber\":1,\"arrivalPlatform\":\"2\",\"arrivalStopPositionNumber\":255,\"noChangingRequired\":true,\"fromId\":\"a\",\"departureId\":\"b\",\"infoMessages\":[\"late\"]}}",
        tag, STATION, STATION, STATION
    )
}

fn connection_text(parts: &str, with_departure: bool) -> String {
    format!(
        "{{\"zoomNoticeTo\":false,\"zoomNoticeFrom\":true,\"from\":{},\"to\":{},{}\"arrival\":1600000120000,\"connectionPartList\":[{}],\"efaTicketIds\":[\"t1\",\"t2\"],\"serverId\":7,\"ringFrom\":1,\"ringTo\":3,\"oldTarif\":false,\"bannerHash\":\"h\"}}",
        STATION,
        STATION,
        if with_departure { "\"departure\":1600000000000," } else { "" },
        parts
    )
}

fn departure_text(stop_position: &str) -> String {
    format!(
        "{{\"departureTime\":1600000000123,\"product\":\"SBAHN\",\"label\":\"S7\",\"destination\":\"Wolfratshausen\",\"live\":true,\"cancelled\":false,\"lineBackgroundColor\":\"#ff0000\",\"departureId\":\"d1\",\"sev\":false,\"platform\":\"3\",\"stopPositionNumber\":{}}}",
        stop_position
    )
}

fn shape_fault<T>(r: Result<T, MVGError>) -> bool {
    matches!(r, Err(MVGError::JsonError(DecodeFault::Shape)))
}

#[test]
fn test_into_location() {
    let location: Location = decode_reply(STATION).unwrap();
    let station = match location {
        Location::Station(s) => s,
        _ => panic!("a station was expected"),
    };
    assert_eq!(station.id(), "de:09188:5516");
    assert_eq!(station.name(), "Marienplatz");
    assert_eq!(station.place(), "Oberalting");
    assert_eq!(station.products, vec!["BUS".to_string()]);
    assert_eq!(station.diva_id, 5516);
    assert_eq!(station.latitude.text, "48.03621598164");
    assert_eq!(station.longitude.text, "11.21876313932");
    assert_eq!(station.latitude.unsigned, None);
    assert!(!station.has_live_data);
    assert!(!station.has_zoom_data);
    assert_eq!(station.aliases, Some(String::new()));
    assert_eq!(station.link, None);
    assert_eq!(station.tariff_zones, "3|4");
    match station.lines {
        Json::Object(members) => {
            assert_eq!(members.len(), 7);
            assert!(members.iter().all(|m| matches!(&m.value, Json::Array(a) if a.is_empty())));
            assert!(members.iter().any(|m| m.key == "nachttram"));
        }
        _ => panic!("an object was expected"),
    }
}

#[test]
fn address_is_read() {
    match decode_reply::<Location>(ADDRESS).unwrap() {
        Location::Address(a) => {
            assert_eq!(a.place, "München");
            assert_eq!(a.street, "Marienplatz 1");
            assert!(a.poi);
            assert_eq!(a.latitude.text, "48.1");
            assert_eq!(a.longitude.unsigned, Some(11));
            assert_eq!(a.longitude.signed, Some(11));
            assert_eq!(a.longitude.text, "11");
        }
        _ => panic!("an address was expected"),
    }
}

#[test]
fn position_is_read() {
    match decode_reply::<Location>(POSITION).unwrap() {
        Location::Location(p) => {
            assert_eq!(p.latitude.text, "-48.5");
            assert_eq!(p.longitude.text, "11.25");
        }
        _ => panic!("a position was expected"),
    }
}

#[test]
fn unknown_location_tag_is_refused() {
    let text = STATION.replace("\"station\"", "\"harbour\"");
    assert!(shape_fault(decode_reply::<Location>(&text)));
    let upper = STATION.replace("\"station\"", "\"STATION\"");
    assert!(shape_fault(decode_reply::<Location>(&upper)));
}

#[test]
fn missing_location_tag_is_refused() {
    assert!(shape_fault(decode_reply::<Location>("{\"latitude\":1,\"longitude\":2}")));
    assert!(shape_fault(decode_reply::<Location>("{\"type\":3,\"latitude\":1,\"longitude\":2}")));
    assert!(shape_fault(decode_reply::<Location>("[]")));
}

#[test]
fn tag_decides_the_shape() {
    let as_address = STATION.replace("\"station\"", "\"address\"");
    assert!(shape_fault(decode_reply::<Location>(&as_address)));
    let as_position = STATION.replace("\"station\"", "\"location\"");
    assert!(matches!(decode_reply::<Location>(&as_position), Ok(Location::Location(_))));
}

#[test]
fn missing_member_is_a_shape_fault() {
    let text = STATION.replace("\"divaId\": 5516,", "");
    assert!(shape_fault(decode_reply::<Location>(&text)));
    let text = STATION.replace("\"tariffZones\": \"3|4\",", "");
    assert!(shape_fault(decode_reply::<Location>(&text)));
}

#[test]
fn wrong_scalar_is_a_shape_fault() {
    let text = STATION.replace("\"divaId\": 5516", "\"divaId\": \"5516\"");
    assert!(shape_fault(decode_reply::<Location>(&text)));
    let text = STATION.replace("\"divaId\": 5516", "\"divaId\": -1");
    assert!(shape_fault(decode_reply::<Location>(&text)));
    let text = STATION.replace("\"divaId\": 5516", "\"divaId\": 5516.5");
    assert!(shape_fault(decode_reply::<Location>(&text)));
    let text = STATION.replace("\"hasLiveData\": false", "\"hasLiveData\": 0");
    assert!(shape_fault(decode_reply::<Location>(&text)));
    let text = STATION.replace("\"BUS\"", "7");
    assert!(shape_fault(decode_reply::<Location>(&text)));
}

#[test]
fn optional_members_may_be_null_or_missing() {
    let text = STATION.replace("\"aliases\": \"\",", "\"aliases\": null, \"link\": \"MP\",");
    match decode_reply::<Location>(&text).unwrap() {
        Location::Station(s) => {
            assert_eq!(s.aliases, None);
            assert_eq!(s.link, Some("MP".to_string()));
        }
        _ => panic!("a station was expected"),
    }
    let text = STATION.replace("\"aliases\": \"\",", "\"aliases\": 4,");
    assert!(shape_fault(decode_reply::<Location>(&text)));
}

#[test]
fn text_that_is_no_json_is_a_syntax_fault() {
    assert!(matches!(
        decode_reply::<Location>("{\"type\": "),
        Err(MVGError::JsonError(DecodeFault::Syntax(_)))
    ));
    assert!(matches!(
        decode_reply::<Locations>(""),
        Err(MVGError::JsonError(DecodeFault::Syntax(_)))
    ));
}

#[test]
fn location_list_is_read_in_order() {
    let text = format!("{{\"locations\":[{},{},{}]}}", POSITION, STATION, ADDRESS);
    let list: Locations = decode_reply(&text).unwrap();
    assert_eq!(list.locations.len(), 3);
    assert!(matches!(list.locations[0], Location::Location(_)));
    assert!(matches!(list.locations[1], Location::Station(_)));
    assert!(matches!(list.locations[2], Location::Address(_)));
    let empty: Locations = decode_reply("{\"locations\":[]}").unwrap();
    assert!(empty.locations.is_empty());
    let bad = format!("{{\"locations\":[{},{{}}]}}", POSITION);
    assert!(shape_fault(decode_reply::<Locations>(&bad)));
}

#[test]
fn footway_is_read_without_ride_members() {
    match decode_reply::<ConnectionPart>(&footway_text()).unwrap() {
        ConnectionPart::Footway(f) => {
            assert!(matches!(f.from, Location::Address(_)));
            assert!(matches!(f.to, Location::Station(_)));
            assert_eq!(f.path.len(), 1);
            assert_eq!(f.path_description.len(), 1);
            assert_eq!(f.path_description[0].from, 0);
            assert_eq!(f.path_description[0].to, 1);
            assert_eq!(f.path_description[0].level, -1);
            assert!(f.interchange_path.is_empty());
            assert_eq!(f.departure, 1600000000000);
            assert_eq!(f.arrival, 1600000060000);
            assert!(!f.cancelled);
            assert!(f.zoom_notice_arrival);
            assert_eq!(f.arrival_stop_position_number, 2);
        }
        _ => panic!("a footway was expected"),
    }
}

#[test]
fn transportation_is_read() {
    match decode_reply::<ConnectionPart>(&transportation_text("TRANSPORTATION")).unwrap() {
        ConnectionPart::Transportation(t) => {
            assert_eq!(*t.product(), Product::UBahn);
            assert_eq!(t.label(), "U6");
            assert!(matches!(t.from(), Location::Station(_)));
            assert!(matches!(t.to(), Location::Station(_)));
            assert_eq!(t.stops.len(), 1);
            assert_eq!(t.stops[0].time, 1600000090000);
            assert_eq!(t.stops[0].delay, -1);
            assert_eq!(t.stops[0].arr_delay, 2);
            assert_eq!(t.delay, 3);
            assert_eq!(t.arr_delay, -2);
            assert_eq!(t.arrival_stop_position_number, 255);
            assert_eq!(t.destination, "Garching");
            assert_eq!(t.info_messages, Some(vec!["late".to_string()]));
            assert!(t.no_changing_required);
        }
        _ => panic!("a ride was expected"),
    }
}

#[test]
fn leg_tags_are_upper_case_and_closed() {
    assert!(shape_fault(decode_reply::<ConnectionPart>(&transportation_text("transportation"))));
    assert!(shape_fault(decode_reply::<ConnectionPart>(&transportation_text("FLIGHT"))));
    let untagged = footway_text().replace("\"connectionPartType\":\"FOOTWAY\",", "");
    assert!(shape_fault(decode_reply::<ConnectionPart>(&untagged)));
    let ride_as_walk = footway_text().replace("FOOTWAY", "TRANSPORTATION");
    assert!(shape_fault(decode_reply::<ConnectionPart>(&ride_as_walk)));
}

#[test]
fn connection_is_read() {
    let parts = format!("{},{}", footway_text(), transportation_text("TRANSPORTATION"));
    let c: Connection = decode_reply(&connection_text(&parts, true)).unwrap();
    assert_eq!(c.departure_time(), 1600000000000);
    assert_eq!(c.arrival_time(), 1600000120000);
    assert_eq!(c.connection_parts().len(), 2);
    assert!(matches!(c.connection_parts()[0], ConnectionPart::Footway(_)));
    assert!(matches!(c.connection_parts()[1], ConnectionPart::Transportation(_)));
    assert!(matches!(c.from(), Location::Station(_)));
    assert!(matches!(c.to(), Location::Station(_)));
    assert_eq!(c.efa_ticket_ids, vec!["t1".to_string(), "t2".to_string()]);
    assert_eq!(c.server_id, 7);
    assert_eq!(c.ring_from, 1);
    assert_eq!(c.ring_to, 3);
    assert!(c.zoom_notice_from);
    assert_eq!(c.banner_hash, "h");
}

#[test]
fn connection_without_departure_is_a_shape_fault() {
    assert!(shape_fault(decode_reply::<Connection>(&connection_text("", false))));
    let list = format!("{{\"connectionList\":[{}]}}", connection_text("", false));
    assert!(shape_fault(decode_reply::<ConnectionList>(&list)));
}

#[test]
fn empty_connection_list_is_a_success() {
    let list: ConnectionList = decode_reply("{\"connectionList\":[]}").unwrap();
    assert!(list.connection_list.is_empty());
}

#[test]
fn products_are_upper_case_tokens() {
    assert_eq!(decode_reply::<Product>("\"SBAHN\"").unwrap(), Product::SBahn);
    assert_eq!(decode_reply::<Product>("\"UBAHN\"").unwrap(), Product::UBahn);
    assert_eq!(decode_reply::<Product>("\"BUS\"").unwrap(), Product::Bus);
    assert_eq!(decode_reply::<Product>("\"BAHN\"").unwrap(), Product::Bahn);
    assert_eq!(decode_reply::<Product>("\"TRAM\"").unwrap(), Product::Tram);
    assert!(shape_fault(decode_reply::<Product>("\"Bus\"")));
    assert!(shape_fault(decode_reply::<Product>("\"FERRY\"")));
    assert!(shape_fault(decode_reply::<Product>("1")));
}

#[test]
fn departure_is_read() {
    let d: Departure = decode_reply(&departure_text("4")).unwrap();
    assert_eq!(d.departure_time(), 1600000000123);
    assert_eq!(d.product, Product::SBahn);
    assert_eq!(d.label(), "S7");
    assert_eq!(d.destination(), "Wolfratshausen");
    assert_eq!(d.line_background_color(), "#ff0000");
    assert!(d.live);
    assert!(!d.cancelled);
    assert_eq!(d.departure_id, "d1");
    assert_eq!(d.platform, "3");
    assert_eq!(d.stop_position_number, 4);
}

#[test]
fn small_integers_are_held_to_their_range() {
    assert_eq!(decode_reply::<Departure>(&departure_text("255")).unwrap().stop_position_number, 255);
    assert!(shape_fault(decode_reply::<Departure>(&departure_text("256"))));
    assert!(shape_fault(decode_reply::<Departure>(&departure_text("-1"))));
    assert_eq!(decode_reply::<i32>("-2147483648").unwrap(), i32::MIN);
    assert!(shape_fault(decode_reply::<i32>("2147483648")));
    assert_eq!(decode_reply::<i8>("-128").unwrap(), -128);
    assert!(shape_fault(decode_reply::<i8>("128")));
    assert_eq!(decode_reply::<u64>("18446744073709551615").unwrap(), u64::MAX);
    assert!(shape_fault(decode_reply::<u64>("1.0")));
}

#[test]
fn departure_info_needs_both_lists() {
    let line = "{\"destination\":\"Garching\",\"sev\":false,\"partialNet\":\"swm\",\"product\":\"UBAHN\",\"lineNumber\":\"U6\",\"divaId\":\"010U6\"}";
    let text = format!(
        "{{\"servingLines\":[{}],\"departures\":[{},{}]}}",
        line,
        departure_text("1"),
        departure_text("2")
    );
    let info: DepartureInfo = decode_reply(&text).unwrap();
    assert_eq!(info.serving_lines.len(), 1);
    assert_eq!(info.serving_lines[0].destination, "Garching");
    assert_eq!(info.serving_lines[0].partial_net, "swm");
    assert_eq!(info.serving_lines[0].product, Product::UBahn);
    assert_eq!(info.serving_lines[0].line_number, "U6");
    assert_eq!(info.serving_lines[0].diva_id, "010U6");
    assert_eq!(info.departures.len(), 2);
    assert_eq!(info.departures[1].stop_position_number, 2);
    let text = format!("{{\"departures\":[{}]}}", departure_text("1"));
    assert!(shape_fault(decode_reply::<DepartureInfo>(&text)));
}

#[test]
fn first_member_of_a_name_wins() {
    let json = Json::Object(vec![
        Member { key: "a".to_string(), value: Json::Bool(true) },
        Member { key: "b".to_string(), value: Json::Null },
        Member { key: "a".to_string(), value: Json::Bool(false) },
    ]);
    assert!(matches!(json.member("a"), Some(Json::Bool(true))));
    assert!(matches!(json.member("b"), Some(Json::Null)));
    assert!(json.member("c").is_none());
    assert!(Json::Array(vec![]).member("a").is_none());
    assert_eq!(field::<bool>(&json, "a"), Some(true));
    assert_eq!(field::<bool>(&json, "b"), None);
    assert_eq!(optional_field::<bool>(&json, "b"), Some(None));
    assert_eq!(optional_field::<bool>(&json, "c"), Some(None));
    assert_eq!(optional_field::<bool>(&json, "a"), Some(Some(true)));
    assert_eq!(optional_field::<String>(&json, "a"), None);
}

#[test]
fn a_document_is_copied_whole() {
    let json: Json = decode_reply("{\"a\":[1,-2,3.5,\"x\",null,true],\"b\":{}}").unwrap();
    let copy = json.duplicate();
    assert_eq!(format!("{:?}", copy), format!("{:?}", json));
    match copy.member("a") {
        Some(Json::Array(items)) => {
            assert!(matches!(&items[0], Json::Number { unsigned: Some(1), signed: Some(1), text } if text == "1"));
            assert!(matches!(&items[1], Json::Number { unsigned: None, signed: Some(-2), text } if text == "-2"));
            assert!(matches!(&items[2], Json::Number { unsigned: None, signed: None, text } if text == "3.5"));
            assert!(matches!(&items[3], Json::Text(t) if t == "x"));
            assert!(matches!(&items[4], Json::Null));
            assert!(matches!(&items[5], Json::Bool(true)));
        }
        _ => panic!("an array was expected"),
    }
}

#[test]
fn unit_is_read_from_null_only() {
    assert_eq!(<()>::decode(&Json::Null), Some(()));
    assert_eq!(<()>::decode(&Json::Bool(false)), None);
    assert_eq!(decode_reply::<Vec<()>>("[null,null]").unwrap().len(), 2);
    assert!(shape_fault(decode_reply::<Vec<()>>("[null,0]")));
}

#[test]
fn a_parsed_reply_keeps_its_syntax_error() {
    let e = serde_json::from_str::<serde_json::Value>("{").unwrap_err();
    let shown = e.to_string();
    match read_reply::<Location>(Err(e)) {
        Err(MVGError::JsonError(DecodeFault::Syntax(kept))) => assert_eq!(kept.to_string(), shown),
        _ => panic!("the syntax error was expected"),
    }
    assert!(shape_fault(read_reply::<Location>(Ok(Json::Null))));
}
