//! One exchange with the service, as a machine that is told what happened and
//! says what to do next. It sends nothing itself: whoever drives it fetches
//! the address it hands out and reports the status, the body and any failure.

use vstd::prelude::*;
use vstd::utf8::{decode_utf8, encode_utf8, valid_utf8};
use crate::data::connection::{Connection, ConnectionList};
use crate::data::departure::{Departure, DepartureInfo};
use crate::data::location::{Location, Locations};
use crate::data::{decode_reply, reply_read, DecodeFault, MVGError};
use crate::decode::{holds, Decode};
use crate::json::json_document;
use crate::query::{
    departure_url,
    encode_search_term,
    percent_encoded,
    query_url_id,
    query_url_name,
    routing_url,
};

verus! {

/// A request target as `http` holds it.
#[verifier::external_type_specification]
#[verifier::external_body]
pub struct ExUri(http::Uri);

/// Whether `http` takes a text as a request target.
pub uninterp spec fn target_accepted(url: Seq<char>) -> bool;

/// `str::parse::<http::Uri>`, which is `Uri::from_str`: whether a text is
/// taken depends on the text alone; no more is claimed of the value.
#[verifier::external_body]
fn parse_target(url: &str) -> (r: Result<http::Uri, http::uri::InvalidUri>)
    ensures
        r is Ok <==> target_accepted(url@),
{
    url.parse::<http::Uri>()
}

/// The text that a run of bytes is taken for.
pub uninterp spec fn lossy_text(bytes: Seq<u8>) -> Seq<char>;

/// `String::from_utf8_lossy`, made an owned `String`: valid UTF-8 is decoded
/// as it is; what it makes of other bytes is only named.
#[verifier::external_body]
fn text_of(bytes: &[u8]) -> (r: String)
    ensures
        r@ == lossy_text(bytes@),
        valid_utf8(bytes@) ==> r@ == decode_utf8(bytes@),
{
    String::from_utf8_lossy(bytes).into_owned()
}

/// What is asked of the service.
#[derive(Debug)]
pub enum Query {
    /// The stations whose name matches a search term.
    StationsByName(String),
    /// The station with an id.
    StationsById(String),
    /// The departures from the station with an id.
    DeparturesById(String),
    /// The journeys from one station to another, both by id.
    Connections(String, String),
}

/// What the service answered.
#[derive(Debug)]
pub enum Reply {
    Locations(Vec<Location>),
    Departures(Vec<Departure>),
    Connections(Vec<Connection>),
}

impl Query {
    /// The address that the query is sent to.
    pub open spec fn address(self) -> Seq<char> {
        match self {
            Query::StationsByName(term) => "https://www.mvg.de/api/fahrinfo/location/queryWeb?q="@
                + percent_encoded(encode_utf8(term@)),
            Query::StationsById(id) => "https://www.mvg.de/api/fahrinfo/departure/"@ + id@
                + "?footway=0"@,
            Query::DeparturesById(id) => "https://www.mvg.de/api/fahrinfo/departure/"@ + id@
                + "?footway=0"@,
            Query::Connections(from, to) => "https://www.mvg.de/api/fahrinfo/routing/?"@ + (
            "fromStation"@ + "="@ + from@) + "&"@ + ("toStation"@ + "="@ + to@),
        }
    }

    /// The text that says what was asked for, for the error of a status other
    /// than 200.
    pub open spec fn context(self) -> Seq<char> {
        match self {
            Query::StationsByName(_) => "No response"@,
            Query::StationsById(_) => "No response"@,
            Query::DeparturesById(id) => "No valid station id: "@ + id@,
            Query::Connections(from, to) => "No valid station ids: "@ + from@ + " - "@ + to@,
        }
    }

    /// Whether `r` is what the body of a reply to this query gives: the error
    /// of a text that is no JSON, a `Shape` fault for a document that does not
    /// fit, and else the list that the document holds.
    pub open spec fn answers(self, body: Seq<char>, r: Result<Reply, MVGError>) -> bool {
        match json_document(body) {
            None => r matches Err(MVGError::JsonError(DecodeFault::Syntax(_))),
            Some(json) => {
                &&& r matches Err(e) ==> e == MVGError::JsonError(DecodeFault::Shape)
                &&& match self {
                    Query::StationsByName(_) | Query::StationsById(_) => {
                        &&& r is Ok <==> Locations::shape(json)
                        &&& r matches Ok(reply) ==> reply matches Reply::Locations(v) && holds(
                            v,
                            json,
                            "locations"@,
                        )
                    },
                    Query::DeparturesById(_) => {
                        &&& r is Ok <==> DepartureInfo::shape(json)
                        &&& r matches Ok(reply) ==> reply matches Reply::Departures(v) && holds(
                            v,
                            json,
                            "departures"@,
                        )
                    },
                    Query::Connections(_, _) => {
                        &&& r is Ok <==> ConnectionList::shape(json)
                        &&& r matches Ok(reply) ==> reply matches Reply::Connections(v) && holds(
                            v,
                            json,
                            "connectionList"@,
                        )
                    },
                }
            },
        }
    }

    /// Builds the address that the query is sent to.
    pub fn url(&self) -> (r: String)
        ensures
            r@ == self.address(),
    {
        match self {
            Query::StationsByName(term) => {
                let encoded = encode_search_term(term.as_str());
                query_url_name(encoded.as_str())
            },
            Query::StationsById(id) => query_url_id(id.as_str()),
            Query::DeparturesById(id) => departure_url(id.as_str()),
            Query::Connections(from, to) => routing_url(from.as_str(), to.as_str()),
        }
    }

    /// Builds the text that says what was asked for.
    pub fn describe(&self) -> (r: String)
        ensures
            r@ == self.context(),
    {
        match self {
            Query::StationsByName(_) => String::from_str("No response"),
            Query::StationsById(_) => String::from_str("No response"),
            Query::DeparturesById(id) => {
                let mut r = String::from_str("No valid station id: ");
                r.append(id.as_str());
                r
            },
            Query::Connections(from, to) => {
                let mut r = String::from_str("No valid station ids: ");
                r.append(from.as_str());
                r.append(" - ");
                r.append(to.as_str());
                r
            },
        }
    }

    /// Reads the body of a reply to this query.
    pub fn decode(&self, body: &str) -> (r: Result<Reply, MVGError>)
        ensures
            self.answers(body@, r),
    {
        match self {
            Query::StationsByName(_) | Query::StationsById(_) => {
                match decode_reply::<Locations>(body) {
                    Ok(envelope) => Ok(Reply::Locations(envelope.locations)),
                    Err(e) => Err(e),
                }
            },
            Query::DeparturesById(_) => {
                match decode_reply::<DepartureInfo>(body) {
                    Ok(envelope) => Ok(Reply::Departures(envelope.departures)),
                    Err(e) => Err(e),
                }
            },
            Query::Connections(_, _) => {
                match decode_reply::<ConnectionList>(body) {
                    Ok(envelope) => Ok(Reply::Connections(envelope.connection_list)),
                    Err(e) => Err(e),
                }
            },
        }
    }
}

/// Where an exchange stands.
#[derive(Debug, Clone, Copy, PartialEq, Eq, Structural)]
pub enum Phase {
    /// Nothing was sent yet.
    Ready,
    /// The request is on its way.
    Requested,
    /// The status was 200 and the body is coming in.
    Receiving,
    /// The result was handed out.
    Done,
}

/// What the driver reports.
#[derive(Debug)]
pub enum Event {
    /// The exchange is to begin.
    Start,
    /// The service answered with this status.
    Response(u16),
    /// The next piece of the body.
    Chunk(Vec<u8>),
    /// The body is complete.
    End,
    /// The connection failed; the text says how.
    Failure(String),
}

/// What the driver is to do next.
#[derive(Debug)]
pub enum Action {
    /// Send one GET to `target`, which is `url` parsed, and report the status.
    Get { url: String, target: http::Uri },
    /// Read on, and report the next piece of the body or its end.
    Read,
    /// Hand the result to the caller; the exchange is over.
    Finish(Result<Reply, MVGError>),
}

/// One request and its reply.
#[derive(Debug)]
pub struct Exchange {
    pub query: Query,
    pub phase: Phase,
    /// The body as far as it has come in.
    pub body: String,
}

impl Exchange {
    /// Whether `event` can happen where the exchange stands.
    pub open spec fn expects(self, event: Event) -> bool {
        match (self.phase, event) {
            (Phase::Ready, Event::Start) => true,
            (Phase::Requested, Event::Response(_)) => true,
            (Phase::Requested, Event::Failure(_)) => true,
            (Phase::Receiving, Event::Chunk(_)) => true,
            (Phase::Receiving, Event::End) => true,
            (Phase::Receiving, Event::Failure(_)) => true,
            _ => false,
        }
    }

    /// The step from `self` on `event` to `next` with `action`.
    pub open spec fn leads(self, event: Event, next: Exchange, action: Action) -> bool {
        match (self.phase, event) {
            (Phase::Ready, Event::Start) => next.body@ == self.body@ && if target_accepted(
                self.query.address(),
            ) {
                &&& next.phase == Phase::Requested
                &&& action matches Action::Get { url, .. } && url@ == self.query.address()
            } else {
                &&& next.phase == Phase::Done
                &&& action matches Action::Finish(Err(MVGError::InvalidUri(_)))
            },
            (Phase::Requested, Event::Response(status)) => next.body@ == self.body@ && if status
                == 200 {
                &&& next.phase == Phase::Receiving
                &&& action is Read
            } else {
                &&& next.phase == Phase::Done
                &&& action matches Action::Finish(Err(MVGError::ArgumentError(context)))
                    && context@ == self.query.context()
            },
            (Phase::Receiving, Event::Chunk(bytes)) => {
                &&& next.phase == Phase::Receiving
                &&& next.body@ == self.body@ + lossy_text(bytes@)
                &&& valid_utf8(bytes@) ==> next.body@ == self.body@ + decode_utf8(bytes@)
                &&& action is Read
            },
            (Phase::Receiving, Event::End) => {
                &&& next.phase == Phase::Done
                &&& next.body@ == self.body@
                &&& action matches Action::Finish(r) && self.query.answers(self.body@, r)
            },
            (_, Event::Failure(cause)) => {
                &&& next.phase == Phase::Done
                &&& next.body@ == self.body@
                &&& action == Action::Finish(Err(MVGError::HyperError(cause)))
            },
            _ => false,
        }
    }

    /// An exchange that has not begun.
    pub fn new(query: Query) -> (r: Exchange)
        ensures
            r.query == query,
            r.phase == Phase::Ready,
            r.body@ == Seq::<char>::empty(),
    {
        Exchange { query, phase: Phase::Ready, body: String::new() }
    }

    /// Whether `event` can happen where the exchange stands.
    pub fn accepts(&self, event: &Event) -> (r: bool)
        ensures
            r == self.expects(*event),
    {
        match self.phase {
            Phase::Ready => match event {
                Event::Start => true,
                _ => false,
            },
            Phase::Requested => match event {
                Event::Response(_) => true,
                Event::Failure(_) => true,
                _ => false,
            },
            Phase::Receiving => match event {
                Event::Chunk(_) => true,
                Event::End => true,
                Event::Failure(_) => true,
                _ => false,
            },
            Phase::Done => false,
        }
    }

    /// Whether the result was handed out.
    pub fn is_done(&self) -> (r: bool)
        ensures
            r == (self.phase == Phase::Done),
    {
        match self.phase {
            Phase::Done => true,
            _ => false,
        }
    }

    /// Takes one event and says what to do next.
    pub fn step(&mut self, event: Event) -> (action: Action)
        requires
            old(self).expects(event),
        ensures
            final(self).query == old(self).query,
            old(self).leads(event, *final(self), action),
    {
        match event {
            Event::Start => {
                let url = self.query.url();
                match parse_target(url.as_str()) {
                    Ok(target) => {
                        self.phase = Phase::Requested;
                        Action::Get { url, target }
                    },
                    Err(e) => {
                        self.phase = Phase::Done;
                        Action::Finish(Err(MVGError::from(e)))
                    },
                }
            },
            Event::Response(status) => {
                if status == 200 {
                    self.phase = Phase::Receiving;
                    Action::Read
                } else {
                    self.phase = Phase::Done;
                    Action::Finish(Err(MVGError::ArgumentError(self.query.describe())))
                }
            },
            Event::Chunk(bytes) => {
                let text = text_of(bytes.as_slice());
                self.body.append(text.as_str());
                Action::Read
            },
            Event::End => {
                self.phase = Phase::Done;
                Action::Finish(self.query.decode(self.body.as_str()))
            },
            Event::Failure(cause) => {
                self.phase = Phase::Done;
                Action::Finish(Err(MVGError::HyperError(cause)))
            },
        }
    }
}

/// A status other than 200 ends the exchange with `ArgumentError` and the
/// text that says what was asked for; the body is never read, since an
/// exchange that is done expects no further event.
pub proof fn lemma_unexpected_status(
    before: Exchange,
    status: u16,
    after: Exchange,
    action: Action,
    later: Event,
)
    requires
        before.phase == Phase::Requested,
        status != 200,
        before.leads(Event::Response(status), after, action),
    ensures
        action matches Action::Finish(Err(MVGError::ArgumentError(context))) && context@
            == before.query.context(),
        !after.expects(later),
{
}

/// The service's journey planner. It hands out the exchange for each of its
/// four requests.
#[derive(Debug)]
pub struct MVG {}

impl MVG {
    pub fn new() -> (r: MVG) {
        MVG {  }
    }

    /// The search for stations by name. An empty term is asked like any other.
    pub fn stations_by_name(&self, search: &str) -> (r: Exchange)
        ensures
            r.query matches Query::StationsByName(term) && term@ == search@,
            r.phase == Phase::Ready,
            r.body@ == Seq::<char>::empty(),
    {
        Exchange::new(Query::StationsByName(String::from_str(search)))
    }

    /// The lookup of a station by its id.
    pub fn stations_by_id(&self, id: &str) -> (r: Exchange)
        ensures
            r.query matches Query::StationsById(asked) && asked@ == id@,
            r.phase == Phase::Ready,
            r.body@ == Seq::<char>::empty(),
    {
        Exchange::new(Query::StationsById(String::from_str(id)))
    }

    /// The departures from the station with an id.
    pub fn departures_by_id(&self, station_id: &str) -> (r: Exchange)
        ensures
            r.query matches Query::DeparturesById(asked) && asked@ == station_id@,
            r.phase == Phase::Ready,
            r.body@ == Seq::<char>::empty(),
    {
        Exchange::new(Query::DeparturesById(String::from_str(station_id)))
    }

    /// The journeys from one station to another.
    pub fn connections(&self, from_id: &str, to_id: &str) -> (r: Exchange)
        ensures
            r.query matches Query::Connections(from, to) && from@ == from_id@ && to@ == to_id@,
            r.phase == Phase::Ready,
            r.body@ == Seq::<char>::empty(),
    {
        Exchange::new(Query::Connections(String::from_str(from_id), String::from_str(to_id)))
    }
}

} // verus!
