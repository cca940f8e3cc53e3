use mvg_lib::data::location::Location;
use mvg_lib::data::{DecodeFault, MVGError};
use mvg_lib::exchange::{Action, Event, Exchange, Phase, Query, Reply, MVG};

const POSITION: &str = "{\"type\":\"location\",\"latitude\":1.5,\"longitude\":2.5}";

fn started(mut exchange: Exchange, expected_url: &str) -> Exchange {
    assert!(exchange.accepts(&Event::Start));
    match exchange.step(Event::Start) {
        Action::Get { url, target } => {
            assert_eq!(url, expected_url);
            assert_eq!(target.to_string(), expected_url);
        }
        other => panic!("a request was expected, not {:?}", other),
    }
    assert_eq!(exchange.phase, Phase::Requested);
    exchange
}

fn answered(mut exchange: Exchange, chunks: &[&[u8]]) -> Result<Reply, MVGError> {
    assert!(matches!(exchange.step(Event::Response(200)), Action::Read));
    assert_eq!(exchange.phase, Phase::Receiving);
    for chunk in chunks {
        assert!(exchange.accepts(&Event::Chunk(chunk.to_vec())));
        assert!(matches!(exchange.step(Event::Chunk(chunk.to_vec())), Action::Read));
    }
    match exchange.step(Event::End) {
        Action::Finish(r) => {
            assert!(exchange.is_done());
            r
        }
        other => panic!("the result was expected, not {:?}", other),
    }
}

#[test]
fn name_search_runs_to_its_list() {
    let exchange = started(
        MVG::new().stations_by_name("Münchner Freiheit"),
        "https://www.mvg.de/api/fahrinfo/location/queryWeb?q=M%C3%BCnchner%20Freiheit",
    );
    let body = format!("{{\"locations\":[{}]}}", POSITION);
    let (head, tail) = body.as_bytes().split_at(9);
    match answered(exchange, &[head, tail]) {
        Ok(Reply::Locations(list)) => {
            assert_eq!(list.len(), 1);
            assert!(matches!(list[0], Location::Location(_)));
        }
        other => panic!("locations were expected, not {:?}", other),
    }
}

#[test]
fn empty_search_term_is_asked() {
    started(
        MVG::new().stations_by_name(""),
        "https://www.mvg.de/api/fahrinfo/location/queryWeb?q=",
    );
}

#[test]
fn id_lookup_reads_locations() {
    let exchange = started(
        MVG::new().stations_by_id("de:09162:2"),
        "https://www.mvg.de/api/fahrinfo/departure/de:09162:2?footway=0",
    );
    assert!(matches!(
        answered(exchange, &[b"{\"servingLines\":[],\"departures\":[]}"]),
        Err(MVGError::JsonError(DecodeFault::Shape))
    ));
}

#[test]
fn departures_are_the_departures_of_the_envelope() {
    let exchange = started(
        MVG::new().departures_by_id("de:09162:2"),
        "https://www.mvg.de/api/fahrinfo/departure/de:09162:2?footway=0",
    );
    let departure = "{\"departureTime\":5,\"product\":\"TRAM\",\"label\":\"19\",\"destination\":\"Pasing\",\"live\":false,\"cancelled\":true,\"lineBackgroundColor\":\"red\",\"departureId\":\"x\",\"sev\":false,\"platform\":\"\",\"stopPositionNumber\":0}";
    let body = format!("{{\"servingLines\":[],\"departures\":[{}]}}", departure);
    match answered(exchange, &[body.as_bytes()]) {
        Ok(Reply::Departures(list)) => {
            assert_eq!(list.len(), 1);
            assert_eq!(list[0].label(), "19");
            assert_eq!(list[0].departure_time(), 5);
        }
        other => panic!("departures were expected, not {:?}", other),
    }
}

#[test]
fn no_route_is_an_empty_success() {
    let exchange = started(
        MVG::new().connections("a", "b"),
        "https://www.mvg.de/api/fahrinfo/routing/?fromStation=a&toStation=b",
    );
    match answered(exchange, &[b"{\"connection", b"List\":[]}"]) {
        Ok(Reply::Connections(list)) => assert!(list.is_empty()),
        other => panic!("connections were expected, not {:?}", other),
    }
}

#[test]
fn other_status_ends_with_the_context() {
    let cases: Vec<(Exchange, &str)> = vec![
        (MVG::new().stations_by_name("x"), "No response"),
        (MVG::new().stations_by_id("x"), "No response"),
        (MVG::new().departures_by_id("de:1"), "No valid station id: de:1"),
        (MVG::new().connections("de:1", "de:2"), "No valid station ids: de:1 - de:2"),
    ];
    for (mut exchange, context) in cases {
        let url = exchange.query.url();
        assert!(matches!(exchange.step(Event::Start), Action::Get { .. }));
        for status in [404u16, 500, 201, 301] {
            let mut copy = Exchange {
                query: match &exchange.query {
                    Query::StationsByName(a) => Query::StationsByName(a.clone()),
                    Query::StationsById(a) => Query::StationsById(a.clone()),
                    Query::DeparturesById(a) => Query::DeparturesById(a.clone()),
                    Query::Connections(a, b) => Query::Connections(a.clone(), b.clone()),
                },
                phase: exchange.phase,
                body: exchange.body.clone(),
            };
            match copy.step(Event::Response(status)) {
                Action::Finish(Err(MVGError::ArgumentError(text))) => assert_eq!(text, context),
                other => panic!("an error was expected for {}, not {:?}", url, other),
            }
            assert!(copy.is_done());
            assert!(!copy.accepts(&Event::Chunk(vec![])));
            assert!(!copy.accepts(&Event::End));
            assert!(!copy.accepts(&Event::Start));
            assert_eq!(copy.body, "");
        }
    }
}

#[test]
fn failed_connection_keeps_its_cause() {
    let mut exchange = started(
        MVG::new().stations_by_id("a"),
        "https://www.mvg.de/api/fahrinfo/departure/a?footway=0",
    );
    match exchange.step(Event::Failure("dns".to_string())) {
        Action::Finish(Err(MVGError::HyperError(cause))) => assert_eq!(cause, "dns"),
        other => panic!("a failure was expected, not {:?}", other),
    }
    assert!(exchange.is_done());

    let mut exchange = started(
        MVG::new().stations_by_id("a"),
        "https://www.mvg.de/api/fahrinfo/departure/a?footway=0",
    );
    assert!(matches!(exchange.step(Event::Response(200)), Action::Read));
    assert!(matches!(exchange.step(Event::Chunk(b"{\"loc".to_vec())), Action::Read));
    match exchange.step(Event::Failure("reset".to_string())) {
        Action::Finish(Err(MVGError::HyperError(cause))) => assert_eq!(cause, "reset"),
        other => panic!("a failure was expected, not {:?}", other),
    }
}

#[test]
fn unparsable_target_ends_before_any_request() {
    let mut exchange = MVG::new().departures_by_id("no such id");
    assert!(matches!(
        exchange.step(Event::Start),
        Action::Finish(Err(MVGError::InvalidUri(_)))
    ));
    assert!(exchange.is_done());
    assert!(!exchange.accepts(&Event::Response(200)));
}

#[test]
fn events_out_of_turn_are_not_accepted() {
    let exchange = Exchange::new(Query::StationsByName("a".to_string()));
    assert!(exchange.accepts(&Event::Start));
    assert!(!exchange.accepts(&Event::Response(200)));
    assert!(!exchange.accepts(&Event::End));
    assert!(!exchange.accepts(&Event::Failure(String::new())));
    let exchange = started(exchange, "https://www.mvg.de/api/fahrinfo/location/queryWeb?q=a");
    assert!(!exchange.accepts(&Event::Start));
    assert!(!exchange.accepts(&Event::Chunk(vec![1])));
    assert!(exchange.accepts(&Event::Response(500)));
    assert!(exchange.accepts(&Event::Failure(String::new())));
}

#[test]
fn body_is_the_chunks_in_order() {
    let mut exchange = started(
        MVG::new().stations_by_name("a"),
        "https://www.mvg.de/api/fahrinfo/location/queryWeb?q=a",
    );
    assert!(matches!(exchange.step(Event::Response(200)), Action::Read));
    exchange.step(Event::Chunk("{\"loca".as_bytes().to_vec()));
    exchange.step(Event::Chunk("tions\":".as_bytes().to_vec()));
    exchange.step(Event::Chunk(vec![]));
    exchange.step(Event::Chunk("[]}".as_bytes().to_vec()));
    assert_eq!(exchange.body, "{\"locations\":[]}");
    exchange.step(Event::Chunk(vec![0xff, b'a']));
    assert_eq!(exchange.body, "{\"locations\":[]}\u{fffd}a");
}

#[test]
fn body_that_is_no_json_is_a_syntax_fault() {
    let exchange = started(
        MVG::new().stations_by_name("a"),
        "https://www.mvg.de/api/fahrinfo/location/queryWeb?q=a",
    );
    assert!(matches!(
        answered(exchange, &[b"<html>"]),
        Err(MVGError::JsonError(DecodeFault::Syntax(_)))
    ));
}

#[test]
fn two_exchanges_do_not_touch_each_other() {
    let mut first = started(
        MVG::new().stations_by_name("one"),
        "https://www.mvg.de/api/fahrinfo/location/queryWeb?q=one",
    );
    let mut second = started(
        MVG::new().stations_by_name("two"),
        "https://www.mvg.de/api/fahrinfo/location/queryWeb?q=two",
    );
    first.step(Event::Response(200));
    second.step(Event::Response(200));
    first.step(Event::Chunk(b"{\"locations\":[".to_vec()));
    second.step(Event::Chunk(b"{\"locations\":[{\"type\":\"location\",".to_vec()));
    first.step(Event::Chunk(b"]}".to_vec()));
    second.step(Event::Chunk(b"\"latitude\":1,\"longitude\":2}]}".to_vec()));
    match first.step(Event::End) {
        Action::Finish(Ok(Reply::Locations(list))) => assert!(list.is_empty()),
        other => panic!("locations were expected, not {:?}", other),
    }
    match second.step(Event::End) {
        Action::Finish(Ok(Reply::Locations(list))) => assert_eq!(list.len(), 1),
        other => panic!("locations were expected, not {:?}", other),
    }
}
