//! The mirror hosts of the commune's feed: what they are asked, and the
//! records that they answer with.

use vstd::prelude::*;
use vstd::string::*;
use crate::fanout::{aggregate, fetched_failures, fetched_items, FetchOutcome};
use crate::error::TransportError;
use crate::fields::{
    field, filled_field, optional_field, read_field, read_filled, read_optional_field,
    read_trimmed, trimmed_field, Record,
};
use crate::json::{object_model, Json, JsonModel, JsonNumber};
use crate::request::{Param, RequestDescriptor};
use crate::timestamp::Instant;

verus! {

/// A vehicle, as a mirror reports it.
#[derive(Clone, Debug, PartialEq, Eq)]
pub struct Bus {
    pub side_number: String,
    /// When the report was received.
    pub receive_time: Instant,
    pub is_connected: bool,
    /// The latitude in degrees, as the mirror writes the number.
    pub latitude: JsonNumber,
    /// The longitude in degrees, as the mirror writes the number.
    pub longitude: JsonNumber,
    pub previous_latitude: JsonNumber,
    pub previous_longitude: JsonNumber,
    pub brigade: Option<String>,
    pub direction: Option<String>,
    /// The line that the vehicle serves; it is there while `is_connected` holds.
    pub line: Option<String>,
    pub delay: Option<i32>,
}

/// The mathematical value of a [`Bus`].
pub struct BusModel {
    pub side_number: Seq<char>,
    pub receive_time: i64,
    pub is_connected: bool,
    pub latitude: JsonNumber,
    pub longitude: JsonNumber,
    pub previous_latitude: JsonNumber,
    pub previous_longitude: JsonNumber,
    pub brigade: Option<Seq<char>>,
    pub direction: Option<Seq<char>>,
    pub line: Option<Seq<char>>,
    pub delay: Option<i32>,
}

impl DeepView for Bus {
    type V = BusModel;

    open spec fn deep_view(&self) -> BusModel {
        BusModel {
            side_number: self.side_number.deep_view(),
            receive_time: self.receive_time.deep_view(),
            is_connected: self.is_connected.deep_view(),
            latitude: self.latitude.deep_view(),
            longitude: self.longitude.deep_view(),
            previous_latitude: self.previous_latitude.deep_view(),
            previous_longitude: self.previous_longitude.deep_view(),
            brigade: self.brigade.deep_view(),
            direction: self.direction.deep_view(),
            line: self.line.deep_view(),
            delay: self.delay.deep_view(),
        }
    }
}

impl Record for Bus {
    /// An object that holds every field of the record, each once, under
    /// its name; `brigade`, `direction`, `line` and `delay` may be left out
    /// or be `null`, and an empty text reads as none. Members under other
    /// names are passed over.
    open spec fn spec_from(j: JsonModel) -> Option<BusModel> {
        match j {
            JsonModel::Object(members) => {
                let side_number = field::<String>(members, "sideNumber"@);
                let receive_time = field::<Instant>(members, "recieveTime"@);
                let is_connected = field::<bool>(members, "isConnected"@);
                let latitude = field::<JsonNumber>(members, "latitude"@);
                let longitude = field::<JsonNumber>(members, "longitude"@);
                let previous_latitude = field::<JsonNumber>(members, "previousLatitude"@);
                let previous_longitude = field::<JsonNumber>(members, "previousLongitude"@);
                let brigade = filled_field(members, "brigade"@);
                let direction = filled_field(members, "direction"@);
                let line = filled_field(members, "line"@);
                let delay = optional_field::<i32>(members, "delay"@);
                if side_number is Some
                    && receive_time is Some
                    && is_connected is Some
                    && latitude is Some
                    && longitude is Some
                    && previous_latitude is Some
                    && previous_longitude is Some
                    && brigade is Some
                    && direction is Some
                    && line is Some
                    && delay is Some {
                    Some(
                        BusModel {
                            side_number: side_number->0,
                            receive_time: receive_time->0,
                            is_connected: is_connected->0,
                            latitude: latitude->0,
                            longitude: longitude->0,
                            previous_latitude: previous_latitude->0,
                            previous_longitude: previous_longitude->0,
                            brigade: brigade->0,
                            direction: direction->0,
                            line: line->0,
                            delay: delay->0,
                        },
                    )
                } else {
                    None
                }
            },
            _ => None,
        }
    }

    fn from_json(j: &Json) -> (r: Option<Bus>) {
        let out = match j {
            Json::Object(members) => {
                proof {
                    object_model(*members);
                }
                let side_number = read_field::<String>(members, "sideNumber");
                let receive_time = read_field::<Instant>(members, "recieveTime");
                let is_connected = read_field::<bool>(members, "isConnected");
                let latitude = read_field::<JsonNumber>(members, "latitude");
                let longitude = read_field::<JsonNumber>(members, "longitude");
                let previous_latitude = read_field::<JsonNumber>(members, "previousLatitude");
                let previous_longitude = read_field::<JsonNumber>(members, "previousLongitude");
                let brigade = read_filled(members, "brigade");
                let direction = read_filled(members, "direction");
                let line = read_filled(members, "line");
                let delay = read_optional_field::<i32>(members, "delay");
                match (
                    side_number, receive_time, is_connected, latitude, longitude,
                    previous_latitude, previous_longitude, brigade, direction, line, delay,
                ) {
                    (
                        Some(side_number), Some(receive_time), Some(is_connected), Some(latitude),
                        Some(longitude), Some(previous_latitude), Some(previous_longitude),
                        Some(brigade), Some(direction), Some(line), Some(delay),
                    ) => Some(
                        Bus {
                            side_number, receive_time, is_connected, latitude, longitude,
                            previous_latitude, previous_longitude, brigade, direction, line, delay,
                        },
                    ),
                    _ => None,
                }
            },
            _ => None,
        };
        assert(out.deep_view() == Self::spec_from(j@));
        out
    }
}

/// A stop.
#[derive(Clone, Debug, PartialEq, Eq)]
pub struct BusStop {
    pub code: String,
    pub name: String,
    /// The latitude in degrees, as the mirror writes the number.
    pub latitude: JsonNumber,
    /// The longitude in degrees, as the mirror writes the number.
    pub longitude: JsonNumber,
}

/// The mathematical value of a [`BusStop`].
pub struct BusStopModel {
    pub code: Seq<char>,
    pub name: Seq<char>,
    pub latitude: JsonNumber,
    pub longitude: JsonNumber,
}

impl DeepView for BusStop {
    type V = BusStopModel;

    open spec fn deep_view(&self) -> BusStopModel {
        BusStopModel {
            code: self.code.deep_view(),
            name: self.name.deep_view(),
            latitude: self.latitude.deep_view(),
            longitude: self.longitude.deep_view(),
        }
    }
}

impl Record for BusStop {
    /// An object that holds every field of the record, each once, under
    /// its name. Members under other names are passed over.
    open spec fn spec_from(j: JsonModel) -> Option<BusStopModel> {
        match j {
            JsonModel::Object(members) => {
                let code = field::<String>(members, "busStopCode"@);
                let name = field::<String>(members, "busStopName"@);
                let latitude = field::<JsonNumber>(members, "busStopLatitude"@);
                let longitude = field::<JsonNumber>(members, "busStopLongitude"@);
                if code is Some
                    && name is Some
                    && latitude is Some
                    && longitude is Some {
                    Some(
                        BusStopModel {
                            code: code->0,
                            name: name->0,
                            latitude: latitude->0,
                            longitude: longitude->0,
                        },
                    )
                } else {
                    None
                }
            },
            _ => None,
        }
    }

    fn from_json(j: &Json) -> (r: Option<BusStop>) {
        let out = match j {
            Json::Object(members) => {
                proof {
                    object_model(*members);
                }
                let code = read_field::<String>(members, "busStopCode");
                let name = read_field::<String>(members, "busStopName");
                let latitude = read_field::<JsonNumber>(members, "busStopLatitude");
                let longitude = read_field::<JsonNumber>(members, "busStopLongitude");
                match (code, name, latitude, longitude) {
                    (Some(code), Some(name), Some(latitude), Some(longitude)) => Some(
                        BusStop { code, name, latitude, longitude },
                    ),
                    _ => None,
                }
            },
            _ => None,
        };
        assert(out.deep_view() == Self::spec_from(j@));
        out
    }
}

/// The line of a departure.
#[derive(Clone, Debug, PartialEq, Eq)]
pub struct TimetableLine {
    pub id: u32,
    pub name: String,
    /// The number of the line, without the white space that the mirror pads it with.
    pub number: String,
}

/// The mathematical value of a [`TimetableLine`].
pub struct TimetableLineModel {
    pub id: u32,
    pub name: Seq<char>,
    pub number: Seq<char>,
}

impl DeepView for TimetableLine {
    type V = TimetableLineModel;

    open spec fn deep_view(&self) -> TimetableLineModel {
        TimetableLineModel {
            id: self.id.deep_view(),
            name: self.name.deep_view(),
            number: self.number.deep_view(),
        }
    }
}

impl Record for TimetableLine {
    /// An object that holds every field of the record, each once, under
    /// its name. Members under other names are passed over.
    open spec fn spec_from(j: JsonModel) -> Option<TimetableLineModel> {
        match j {
            JsonModel::Object(members) => {
                let id = field::<u32>(members, "id"@);
                let name = field::<String>(members, "name"@);
                let number = trimmed_field(members, "number"@);
                if id is Some
                    && name is Some
                    && number is Some {
                    Some(
                        TimetableLineModel {
                            id: id->0,
                            name: name->0,
                            number: number->0,
                        },
                    )
                } else {
                    None
                }
            },
            _ => None,
        }
    }

    fn from_json(j: &Json) -> (r: Option<TimetableLine>) {
        let out = match j {
            Json::Object(members) => {
                proof {
                    object_model(*members);
                }
                let id = read_field::<u32>(members, "id");
                let name = read_field::<String>(members, "name");
                let number = read_trimmed(members, "number");
                match (id, name, number) {
                    (Some(id), Some(name), Some(number)) => Some(
                        TimetableLine { id, name, number },
                    ),
                    _ => None,
                }
            },
            _ => None,
        };
        assert(out.deep_view() == Self::spec_from(j@));
        out
    }
}

/// The direction of a departure.
#[derive(Clone, Debug, PartialEq, Eq)]
pub struct TimetableDirection {
    pub id: u32,
    pub name: String,
}

/// The mathematical value of a [`TimetableDirection`].
pub struct TimetableDirectionModel {
    pub id: u32,
    pub name: Seq<char>,
}

impl DeepView for TimetableDirection {
    type V = TimetableDirectionModel;

    open spec fn deep_view(&self) -> TimetableDirectionModel {
        TimetableDirectionModel {
            id: self.id.deep_view(),
            name: self.name.deep_view(),
        }
    }
}

impl Record for TimetableDirection {
    /// An object that holds every field of the record, each once, under
    /// its name. Members under other names are passed over.
    open spec fn spec_from(j: JsonModel) -> Option<TimetableDirectionModel> {
        match j {
            JsonModel::Object(members) => {
                let id = field::<u32>(members, "id"@);
                let name = field::<String>(members, "name"@);
                if id is Some
                    && name is Some {
                    Some(
                        TimetableDirectionModel {
                            id: id->0,
                            name: name->0,
                        },
                    )
                } else {
                    None
                }
            },
            _ => None,
        }
    }

    fn from_json(j: &Json) -> (r: Option<TimetableDirection>) {
        let out = match j {
            Json::Object(members) => {
                proof {
                    object_model(*members);
                }
                let id = read_field::<u32>(members, "id");
                let name = read_field::<String>(members, "name");
                match (id, name) {
                    (Some(id), Some(name)) => Some(
                        TimetableDirection { id, name },
                    ),
                    _ => None,
                }
            },
            _ => None,
        };
        assert(out.deep_view() == Self::spec_from(j@));
        out
    }
}

/// A departure from a stop.
#[derive(Clone, Debug, PartialEq, Eq)]
pub struct Timetable {
    pub line: TimetableLine,
    pub direction: TimetableDirection,
    pub timetable_departure_time: Instant,
    pub show_type: i32,
    pub departure_hide: bool,
}

/// The mathematical value of a [`Timetable`].
pub struct TimetableModel {
    pub line: TimetableLineModel,
    pub direction: TimetableDirectionModel,
    pub timetable_departure_time: i64,
    pub show_type: i32,
    pub departure_hide: bool,
}

impl DeepView for Timetable {
    type V = TimetableModel;

    open spec fn deep_view(&self) -> TimetableModel {
        TimetableModel {
            line: self.line.deep_view(),
            direction: self.direction.deep_view(),
            timetable_departure_time: self.timetable_departure_time.deep_view(),
            show_type: self.show_type.deep_view(),
            departure_hide: self.departure_hide.deep_view(),
        }
    }
}

impl Record for Timetable {
    /// An object that holds every field of the record, each once, under
    /// its name. Members under other names are passed over.
    open spec fn spec_from(j: JsonModel) -> Option<TimetableModel> {
        match j {
            JsonModel::Object(members) => {
                let line = field::<TimetableLine>(members, "line"@);
                let direction = field::<TimetableDirection>(members, "direction"@);
                let timetable_departure_time = field::<Instant>(members, "timetableDepartureTime"@);
                let show_type = field::<i32>(members, "showType"@);
                let departure_hide = field::<bool>(members, "departureHide"@);
                if line is Some
                    && direction is Some
                    && timetable_departure_time is Some
                    && show_type is Some
                    && departure_hide is Some {
                    Some(
                        TimetableModel {
                            line: line->0,
                            direction: direction->0,
                            timetable_departure_time: timetable_departure_time->0,
                            show_type: show_type->0,
                            departure_hide: departure_hide->0,
                        },
                    )
                } else {
                    None
                }
            },
            _ => None,
        }
    }

    fn from_json(j: &Json) -> (r: Option<Timetable>) {
        let out = match j {
            Json::Object(members) => {
                proof {
                    object_model(*members);
                }
                let line = read_field::<TimetableLine>(members, "line");
                let direction = read_field::<TimetableDirection>(members, "direction");
                let timetable_departure_time = read_field::<Instant>(
                    members,
                    "timetableDepartureTime",
                );
                let show_type = read_field::<i32>(members, "showType");
                let departure_hide = read_field::<bool>(members, "departureHide");
                match (line, direction, timetable_departure_time, show_type, departure_hide) {
                    (
                        Some(line), Some(direction), Some(timetable_departure_time),
                        Some(show_type), Some(departure_hide),
                    ) => Some(
                        Timetable {
                            line, direction, timetable_departure_time, show_type, departure_hide,
                        },
                    ),
                    _ => None,
                }
            },
            _ => None,
        };
        assert(out.deep_view() == Self::spec_from(j@));
        out
    }
}

/// The path of the vehicles of all lines.
pub const VEHICLES: &'static str = "vehicles";

/// The path of all stops, and, followed by a slash and a stop's code, of
/// the departures from that stop.
pub const BUS_STOPS: &'static str = "timetables/busStops";

/// The mirror hosts that serve the feed.
pub fn mirrors() -> (r: Vec<String>)
    ensures
        r.deep_view() == seq![
            "https://api.dla.sims.pl"@,
            "https://api.dlugoleka.sims.pl"@,
            "https://api.dlugoleka.mp.sims.pl"@,
        ],
{
    let mut hosts: Vec<String> = Vec::new();
    hosts.push(String::from_str("https://api.dla.sims.pl"));
    hosts.push(String::from_str("https://api.dlugoleka.sims.pl"));
    hosts.push(String::from_str("https://api.dlugoleka.mp.sims.pl"));
    assert(hosts.deep_view() =~= seq![
        "https://api.dla.sims.pl"@,
        "https://api.dlugoleka.sims.pl"@,
        "https://api.dlugoleka.mp.sims.pl"@,
    ]);
    hosts
}

/// A client of the mirrors: the hosts that it asks, in the order in which it
/// asks them.
#[derive(Clone, Debug)]
pub struct Client {
    hosts: Vec<String>,
}

impl Client {
    /// The hosts, in the order in which they are asked.
    pub closed spec fn hosts(self) -> Seq<Seq<char>> {
        self.hosts.deep_view()
    }

    /// What a request of this client for `path` looks like: every host is
    /// asked for the path, without parameters.
    pub open spec fn asks(self, r: RequestDescriptor, path: Seq<char>) -> bool {
        &&& r.hosts.deep_view() == self.hosts()
        &&& r.path@ == path
        &&& r.params@.len() == 0
    }

    /// A client of the hosts `hosts`.
    pub fn new(hosts: Vec<String>) -> (r: Client)
        ensures
            r.hosts() == hosts.deep_view(),
    {
        Client { hosts }
    }

    fn request(&self, path: String) -> (r: RequestDescriptor)
        ensures
            self.asks(r, path@),
    {
        let mut hosts: Vec<String> = Vec::new();
        let mut i: usize = 0;
        while i < self.hosts.len()
            invariant
                i <= self.hosts@.len(),
                hosts@.len() == i,
                forall|k: int| 0 <= k < i ==> (#[trigger] hosts@[k])@ == self.hosts@[k]@,
            decreases self.hosts@.len() - i,
        {
            hosts.push(self.hosts[i].clone());
            i += 1;
        }
        assert(hosts.deep_view() =~= self.hosts.deep_view());
        RequestDescriptor { hosts, path, params: Vec::new() }
    }

    /// The request for the vehicles.
    pub fn buses_request(&self) -> (r: RequestDescriptor)
        ensures
            self.asks(r, VEHICLES@),
    {
        self.request(String::from_str(VEHICLES))
    }

    /// The request for the stops.
    pub fn bus_stops_request(&self) -> (r: RequestDescriptor)
        ensures
            self.asks(r, BUS_STOPS@),
    {
        self.request(String::from_str(BUS_STOPS))
    }

    /// The request for the departures from the stop with the code
    /// `bus_stop_code`.
    pub fn timetable_request(&self, bus_stop_code: &str) -> (r: RequestDescriptor)
        ensures
            self.asks(r, BUS_STOPS@ + "/"@ + bus_stop_code@),
    {
        let mut path = String::from_str(BUS_STOPS);
        path.append("/");
        path.append(bus_stop_code);
        self.request(path)
    }

    /// Ends a call for vehicles: `responses[i]` is what the transport
    /// brought from host `i`.
    pub fn read_buses(responses: Vec<Result<Vec<u8>, TransportError>>) -> (r: FetchOutcome<Bus>)
        ensures
            r.items.deep_view() == fetched_items::<Bus>(responses@),
            r.failures.deep_view() == fetched_failures::<Bus>(responses@),
    {
        aggregate::<Bus>(responses)
    }

    /// Ends a call for stops.
    pub fn read_bus_stops(responses: Vec<Result<Vec<u8>, TransportError>>) -> (r: FetchOutcome<
        BusStop,
    >)
        ensures
            r.items.deep_view() == fetched_items::<BusStop>(responses@),
            r.failures.deep_view() == fetched_failures::<BusStop>(responses@),
    {
        aggregate::<BusStop>(responses)
    }

    /// Ends a call for the departures from a stop.
    pub fn read_timetable(responses: Vec<Result<Vec<u8>, TransportError>>) -> (r: FetchOutcome<
        Timetable,
    >)
        ensures
            r.items.deep_view() == fetched_items::<Timetable>(responses@),
            r.failures.deep_view() == fetched_failures::<Timetable>(responses@),
    {
        aggregate::<Timetable>(responses)
    }
}

} // verus!
