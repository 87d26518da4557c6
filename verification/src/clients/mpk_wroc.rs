//! The authenticated host of the city's feed: what it is asked, and the
//! records that it answers with.

use vstd::prelude::*;
use vstd::string::*;
use crate::decode::PositionalBatch;
use crate::digest::DigestCredentials;
use crate::fields::{
    accepted_names, aliased, field, lookup, read_aliased, read_field, spelling_is_transparent,
    Record,
};
use crate::json::{object_model, Json, JsonModel, JsonNumber, MemberModel};
use crate::request::{Param, RequestDescriptor};
use crate::text::{join, joined, same_text, texts};
use crate::timestamp::{write_zoned, zoned_text};

pub use crate::error::{ClientError, MpkError};

verus! {

/// The kind of a vehicle.
#[derive(Clone, Copy, Debug, PartialEq, Eq)]
pub enum VehicleType {
    Bus,
    Tram,
}

impl DeepView for VehicleType {
    type V = VehicleType;

    open spec fn deep_view(&self) -> VehicleType {
        *self
    }
}

impl Record for VehicleType {
    /// The text `BUS` or `b` for a bus, `TRAM` or `t` for a tram.
    open spec fn spec_from(j: JsonModel) -> Option<VehicleType> {
        match j {
            JsonModel::Text(s) => if s == "BUS"@ || s == "b"@ {
                Some(VehicleType::Bus)
            } else if s == "TRAM"@ || s == "t"@ {
                Some(VehicleType::Tram)
            } else {
                None
            },
            _ => None,
        }
    }

    fn from_json(j: &Json) -> (r: Option<VehicleType>) {
        let out = match j {
            Json::Text(s) => if same_text(s.as_str(), "BUS") || same_text(s.as_str(), "b") {
                Some(VehicleType::Bus)
            } else if same_text(s.as_str(), "TRAM") || same_text(s.as_str(), "t") {
                Some(VehicleType::Tram)
            } else {
                None
            },
            _ => None,
        };
        assert(out.deep_view() == Self::spec_from(j@));
        out
    }
}

/// A vehicle on its course, as the positions feed reports it.
#[derive(Clone, Debug, PartialEq, Eq)]
pub struct Bus {
    /// The number on the side of the vehicle.
    pub code: i32,
    pub course: i32,
    /// The latitude in degrees, as the feed writes the number.
    pub latitude: JsonNumber,
    /// The longitude in degrees, as the feed writes the number.
    pub longitude: JsonNumber,
    pub line: String,
    pub vehicle_type: VehicleType,
    pub symbol: String,
    pub direction: String,
    /// The delay in milliseconds.
    pub delay: i32,
}

/// The mathematical value of a [`Bus`].
pub struct BusModel {
    pub code: i32,
    pub course: i32,
    pub latitude: JsonNumber,
    pub longitude: JsonNumber,
    pub line: Seq<char>,
    pub vehicle_type: VehicleType,
    pub symbol: Seq<char>,
    pub direction: Seq<char>,
    pub delay: i32,
}

impl DeepView for Bus {
    type V = BusModel;

    open spec fn deep_view(&self) -> BusModel {
        BusModel {
            code: self.code.deep_view(),
            course: self.course.deep_view(),
            latitude: self.latitude.deep_view(),
            longitude: self.longitude.deep_view(),
            line: self.line.deep_view(),
            vehicle_type: self.vehicle_type.deep_view(),
            symbol: self.symbol.deep_view(),
            direction: self.direction.deep_view(),
            delay: self.delay.deep_view(),
        }
    }
}

impl Record for Bus {
    /// An object that holds every field of the record, each once, under
    /// one of its two spellings where it has two. Members under other names
    /// are passed over.
    open spec fn spec_from(j: JsonModel) -> Option<BusModel> {
        match j {
            JsonModel::Object(members) => {
                let code = aliased::<i32>(members, "code"@, "v"@);
                let course = aliased::<i32>(members, "course"@, "c"@);
                let latitude = field::<JsonNumber>(members, "x"@);
                let longitude = field::<JsonNumber>(members, "y"@);
                let line = aliased::<String>(members, "line"@, "l"@);
                let vehicle_type = aliased::<VehicleType>(members, "type"@, "t"@);
                let symbol = aliased::<String>(members, "symbol"@, "s"@);
                let direction = aliased::<String>(members, "direction"@, "d"@);
                let delay = aliased::<i32>(members, "delay"@, "e"@);
                if code is Some
                    && course is Some
                    && latitude is Some
                    && longitude is Some
                    && line is Some
                    && vehicle_type is Some
                    && symbol is Some
                    && direction is Some
                    && delay is Some {
                    Some(
                        BusModel {
                            code: code->0,
                            course: course->0,
                            latitude: latitude->0,
                            longitude: longitude->0,
                            line: line->0,
                            vehicle_type: vehicle_type->0,
                            symbol: symbol->0,
                            direction: direction->0,
                            delay: delay->0,
                        },
                    )
                } else {
                    None
                }
            },
            _ => None,
        }
    }

    fn from_json(j: &Json) -> (r: Option<Bus>) {
        let out = match j {
            Json::Object(members) => {
                proof {
                    object_model(*members);
                }
                let code = read_aliased::<i32>(members, "code", "v");
                let course = read_aliased::<i32>(members, "course", "c");
                let latitude = read_field::<JsonNumber>(members, "x");
                let longitude = read_field::<JsonNumber>(members, "y");
                let line = read_aliased::<String>(members, "line", "l");
                let vehicle_type = read_aliased::<VehicleType>(members, "type", "t");
                let symbol = read_aliased::<String>(members, "symbol", "s");
                let direction = read_aliased::<String>(members, "direction", "d");
                let delay = read_aliased::<i32>(members, "delay", "e");
                match (
                    code, course, latitude, longitude, line, vehicle_type, symbol, direction,
                    delay,
                ) {
                    (
                        Some(code), Some(course), Some(latitude), Some(longitude), Some(line),
                        Some(vehicle_type), Some(symbol), Some(direction), Some(delay),
                    ) => Some(
                        Bus {
                            code, course, latitude, longitude, line, vehicle_type, symbol,
                            direction, delay,
                        },
                    ),
                    _ => None,
                }
            },
            _ => None,
        };
        assert(out.deep_view() == Self::spec_from(j@));
        out
    }
}

/// A departure from a stop.
#[derive(Clone, Debug, PartialEq, Eq)]
pub struct BusStop {
    pub label: String,
    pub direction: String,
    pub time: String,
    pub course: u32,
}

/// The mathematical value of a [`BusStop`].
pub struct BusStopModel {
    pub label: Seq<char>,
    pub direction: Seq<char>,
    pub time: Seq<char>,
    pub course: u32,
}

impl DeepView for BusStop {
    type V = BusStopModel;

    open spec fn deep_view(&self) -> BusStopModel {
        BusStopModel {
            label: self.label.deep_view(),
            direction: self.direction.deep_view(),
            time: self.time.deep_view(),
            course: self.course.deep_view(),
        }
    }
}

impl Record for BusStop {
    /// An object that holds every field of the record, each once, under
    /// its name. Members under other names are passed over.
    open spec fn spec_from(j: JsonModel) -> Option<BusStopModel> {
        match j {
            JsonModel::Object(members) => {
                let label = field::<String>(members, "l"@);
                let direction = field::<String>(members, "d"@);
                let time = field::<String>(members, "t"@);
                let course = field::<u32>(members, "c"@);
                if label is Some
                    && direction is Some
                    && time is Some
                    && course is Some {
                    Some(
                        BusStopModel {
                            label: label->0,
                            direction: direction->0,
                            time: time->0,
                            course: course->0,
                        },
                    )
                } else {
                    None
                }
            },
            _ => None,
        }
    }

    fn from_json(j: &Json) -> (r: Option<BusStop>) {
        let out = match j {
            Json::Object(members) => {
                proof {
                    object_model(*members);
                }
                let label = read_field::<String>(members, "l");
                let direction = read_field::<String>(members, "d");
                let time = read_field::<String>(members, "t");
                let course = read_field::<u32>(members, "c");
                match (label, direction, time, course) {
                    (Some(label), Some(direction), Some(time), Some(course)) => Some(
                        BusStop { label, direction, time, course },
                    ),
                    _ => None,
                }
            },
            _ => None,
        };
        assert(out.deep_view() == Self::spec_from(j@));
        out
    }
}

/// A stop on a course, and when the course calls there.
#[derive(Clone, Debug, PartialEq, Eq)]
pub struct Course {
    pub symbol: String,
    pub time: String,
}

/// The mathematical value of a [`Course`].
pub struct CourseModel {
    pub symbol: Seq<char>,
    pub time: Seq<char>,
}

impl DeepView for Course {
    type V = CourseModel;

    open spec fn deep_view(&self) -> CourseModel {
        CourseModel {
            symbol: self.symbol.deep_view(),
            time: self.time.deep_view(),
        }
    }
}

impl Record for Course {
    /// An object that holds every field of the record, each once, under
    /// its name. Members under other names are passed over.
    open spec fn spec_from(j: JsonModel) -> Option<CourseModel> {
        match j {
            JsonModel::Object(members) => {
                let symbol = field::<String>(members, "s"@);
                let time = field::<String>(members, "t"@);
                if symbol is Some
                    && time is Some {
                    Some(
                        CourseModel {
                            symbol: symbol->0,
                            time: time->0,
                        },
                    )
                } else {
                    None
                }
            },
            _ => None,
        }
    }

    fn from_json(j: &Json) -> (r: Option<Course>) {
        let out = match j {
            Json::Object(members) => {
                proof {
                    object_model(*members);
                }
                let symbol = read_field::<String>(members, "s");
                let time = read_field::<String>(members, "t");
                match (symbol, time) {
                    (Some(symbol), Some(time)) => Some(
                        Course { symbol, time },
                    ),
                    _ => None,
                }
            },
            _ => None,
        };
        assert(out.deep_view() == Self::spec_from(j@));
        out
    }
}

/// A course: its number, its path as an encoded polyline, and its stops.
#[derive(Clone, Debug, PartialEq, Eq)]
pub struct CourseInfo {
    pub course: u32,
    pub encoded: String,
    pub r: Vec<Course>,
}

/// The mathematical value of a [`CourseInfo`].
pub struct CourseInfoModel {
    pub course: u32,
    pub encoded: Seq<char>,
    pub r: Seq<CourseModel>,
}

impl DeepView for CourseInfo {
    type V = CourseInfoModel;

    open spec fn deep_view(&self) -> CourseInfoModel {
        CourseInfoModel {
            course: self.course.deep_view(),
            encoded: self.encoded.deep_view(),
            r: self.r.deep_view(),
        }
    }
}

impl Record for CourseInfo {
    /// An object that holds every field of the record, each once, under
    /// its name. Members under other names are passed over.
    open spec fn spec_from(j: JsonModel) -> Option<CourseInfoModel> {
        match j {
            JsonModel::Object(members) => {
                let course = field::<u32>(members, "c"@);
                let encoded = field::<String>(members, "p"@);
                let r = field::<Vec<Course>>(members, "r"@);
                if course is Some
                    && encoded is Some
                    && r is Some {
                    Some(
                        CourseInfoModel {
                            course: course->0,
                            encoded: encoded->0,
                            r: r->0,
                        },
                    )
                } else {
                    None
                }
            },
            _ => None,
        }
    }

    fn from_json(j: &Json) -> (r: Option<CourseInfo>) {
        let out = match j {
            Json::Object(members) => {
                proof {
                    object_model(*members);
                }
                let course = read_field::<u32>(members, "c");
                let encoded = read_field::<String>(members, "p");
                let r = read_field::<Vec<Course>>(members, "r");
                match (course, encoded, r) {
                    (Some(course), Some(encoded), Some(r)) => Some(
                        CourseInfo { course, encoded, r },
                    ),
                    _ => None,
                }
            },
            _ => None,
        };
        assert(out.deep_view() == Self::spec_from(j@));
        out
    }
}

/// The departures within one hour.
#[derive(Clone, Debug, PartialEq, Eq)]
pub struct PostPlateHour {
    pub hour: i16,
    /// Each minute as a number followed by its abbreviations.
    pub minutes: Vec<String>,
}

/// The mathematical value of a [`PostPlateHour`].
pub struct PostPlateHourModel {
    pub hour: i16,
    pub minutes: Seq<Seq<char>>,
}

impl DeepView for PostPlateHour {
    type V = PostPlateHourModel;

    open spec fn deep_view(&self) -> PostPlateHourModel {
        PostPlateHourModel {
            hour: self.hour.deep_view(),
            minutes: self.minutes.deep_view(),
        }
    }
}

impl Record for PostPlateHour {
    /// An object that holds every field of the record, each once, under
    /// its name. Members under other names are passed over.
    open spec fn spec_from(j: JsonModel) -> Option<PostPlateHourModel> {
        match j {
            JsonModel::Object(members) => {
                let hour = field::<i16>(members, "h"@);
                let minutes = field::<Vec<String>>(members, "m"@);
                if hour is Some
                    && minutes is Some {
                    Some(
                        PostPlateHourModel {
                            hour: hour->0,
                            minutes: minutes->0,
                        },
                    )
                } else {
                    None
                }
            },
            _ => None,
        }
    }

    fn from_json(j: &Json) -> (r: Option<PostPlateHour>) {
        let out = match j {
            Json::Object(members) => {
                proof {
                    object_model(*members);
                }
                let hour = read_field::<i16>(members, "h");
                let minutes = read_field::<Vec<String>>(members, "m");
                match (hour, minutes) {
                    (Some(hour), Some(minutes)) => Some(
                        PostPlateHour { hour, minutes },
                    ),
                    _ => None,
                }
            },
            _ => None,
        };
        assert(out.deep_view() == Self::spec_from(j@));
        out
    }
}

/// The departures on one kind of day.
#[derive(Clone, Debug, PartialEq, Eq)]
pub struct PostPlateDay {
    pub day_name: String,
    pub order: u32,
    pub hours: Vec<PostPlateHour>,
}

/// The mathematical value of a [`PostPlateDay`].
pub struct PostPlateDayModel {
    pub day_name: Seq<char>,
    pub order: u32,
    pub hours: Seq<PostPlateHourModel>,
}

impl DeepView for PostPlateDay {
    type V = PostPlateDayModel;

    open spec fn deep_view(&self) -> PostPlateDayModel {
        PostPlateDayModel {
            day_name: self.day_name.deep_view(),
            order: self.order.deep_view(),
            hours: self.hours.deep_view(),
        }
    }
}

impl Record for PostPlateDay {
    /// An object that holds every field of the record, each once, under
    /// its name. Members under other names are passed over.
    open spec fn spec_from(j: JsonModel) -> Option<PostPlateDayModel> {
        match j {
            JsonModel::Object(members) => {
                let day_name = field::<String>(members, "d"@);
                let order = field::<u32>(members, "o"@);
                let hours = field::<Vec<PostPlateHour>>(members, "h"@);
                if day_name is Some
                    && order is Some
                    && hours is Some {
                    Some(
                        PostPlateDayModel {
                            day_name: day_name->0,
                            order: order->0,
                            hours: hours->0,
                        },
                    )
                } else {
                    None
                }
            },
            _ => None,
        }
    }

    fn from_json(j: &Json) -> (r: Option<PostPlateDay>) {
        let out = match j {
            Json::Object(members) => {
                proof {
                    object_model(*members);
                }
                let day_name = read_field::<String>(members, "d");
                let order = read_field::<u32>(members, "o");
                let hours = read_field::<Vec<PostPlateHour>>(members, "h");
                match (day_name, order, hours) {
                    (Some(day_name), Some(order), Some(hours)) => Some(
                        PostPlateDay { day_name, order, hours },
                    ),
                    _ => None,
                }
            },
            _ => None,
        };
        assert(out.deep_view() == Self::spec_from(j@));
        out
    }
}

/// The departures in one direction.
#[derive(Clone, Debug, PartialEq, Eq)]
pub struct PostPlateTableByDirection {
    pub direction: String,
    pub days: Vec<PostPlateDay>,
}

/// The mathematical value of a [`PostPlateTableByDirection`].
pub struct PostPlateTableByDirectionModel {
    pub direction: Seq<char>,
    pub days: Seq<PostPlateDayModel>,
}

impl DeepView for PostPlateTableByDirection {
    type V = PostPlateTableByDirectionModel;

    open spec fn deep_view(&self) -> PostPlateTableByDirectionModel {
        PostPlateTableByDirectionModel {
            direction: self.direction.deep_view(),
            days: self.days.deep_view(),
        }
    }
}

impl Record for PostPlateTableByDirection {
    /// An object that holds every field of the record, each once, under
    /// its name. Members under other names are passed over.
    open spec fn spec_from(j: JsonModel) -> Option<PostPlateTableByDirectionModel> {
        match j {
            JsonModel::Object(members) => {
                let direction = field::<String>(members, "n"@);
                let days = field::<Vec<PostPlateDay>>(members, "d"@);
                if direction is Some
                    && days is Some {
                    Some(
                        PostPlateTableByDirectionModel {
                            direction: direction->0,
                            days: days->0,
                        },
                    )
                } else {
                    None
                }
            },
            _ => None,
        }
    }

    fn from_json(j: &Json) -> (r: Option<PostPlateTableByDirection>) {
        let out = match j {
            Json::Object(members) => {
                proof {
                    object_model(*members);
                }
                let direction = read_field::<String>(members, "n");
                let days = read_field::<Vec<PostPlateDay>>(members, "d");
                match (direction, days) {
                    (Some(direction), Some(days)) => Some(
                        PostPlateTableByDirection { direction, days },
                    ),
                    _ => None,
                }
            },
            _ => None,
        };
        assert(out.deep_view() == Self::spec_from(j@));
        out
    }
}

/// A timetable and the day from which it holds.
#[derive(Clone, Debug, PartialEq, Eq)]
pub struct PostPlateTimeTable {
    pub vaild_from: String,
    pub values: Vec<PostPlateTableByDirection>,
}

/// The mathematical value of a [`PostPlateTimeTable`].
pub struct PostPlateTimeTableModel {
    pub vaild_from: Seq<char>,
    pub values: Seq<PostPlateTableByDirectionModel>,
}

impl DeepView for PostPlateTimeTable {
    type V = PostPlateTimeTableModel;

    open spec fn deep_view(&self) -> PostPlateTimeTableModel {
        PostPlateTimeTableModel {
            vaild_from: self.vaild_from.deep_view(),
            values: self.values.deep_view(),
        }
    }
}

impl Record for PostPlateTimeTable {
    /// An object that holds every field of the record, each once, under
    /// its name. Members under other names are passed over.
    open spec fn spec_from(j: JsonModel) -> Option<PostPlateTimeTableModel> {
        match j {
            JsonModel::Object(members) => {
                let vaild_from = field::<String>(members, "t"@);
                let values = field::<Vec<PostPlateTableByDirection>>(members, "v"@);
                if vaild_from is Some
                    && values is Some {
                    Some(
                        PostPlateTimeTableModel {
                            vaild_from: vaild_from->0,
                            values: values->0,
                        },
                    )
                } else {
                    None
                }
            },
            _ => None,
        }
    }

    fn from_json(j: &Json) -> (r: Option<PostPlateTimeTable>) {
        let out = match j {
            Json::Object(members) => {
                proof {
                    object_model(*members);
                }
                let vaild_from = read_field::<String>(members, "t");
                let values = read_field::<Vec<PostPlateTableByDirection>>(members, "v");
                match (vaild_from, values) {
                    (Some(vaild_from), Some(values)) => Some(
                        PostPlateTimeTable { vaild_from, values },
                    ),
                    _ => None,
                }
            },
            _ => None,
        };
        assert(out.deep_view() == Self::spec_from(j@));
        out
    }
}

/// The timetable plate of one line at one stop.
#[derive(Clone, Debug, PartialEq, Eq)]
pub struct PostPlate {
    pub line: String,
    pub post: String,
    pub abbreviations: Vec<String>,
    pub time_table: Vec<PostPlateTimeTable>,
}

/// The mathematical value of a [`PostPlate`].
pub struct PostPlateModel {
    pub line: Seq<char>,
    pub post: Seq<char>,
    pub abbreviations: Seq<Seq<char>>,
    pub time_table: Seq<PostPlateTimeTableModel>,
}

impl DeepView for PostPlate {
    type V = PostPlateModel;

    open spec fn deep_view(&self) -> PostPlateModel {
        PostPlateModel {
            line: self.line.deep_view(),
            post: self.post.deep_view(),
            abbreviations: self.abbreviations.deep_view(),
            time_table: self.time_table.deep_view(),
        }
    }
}

impl Record for PostPlate {
    /// An object that holds every field of the record, each once, under
    /// its name. Members under other names are passed over.
    open spec fn spec_from(j: JsonModel) -> Option<PostPlateModel> {
        match j {
            JsonModel::Object(members) => {
                let line = field::<String>(members, "l"@);
                let post = field::<String>(members, "p"@);
                let abbreviations = field::<Vec<String>>(members, "s"@);
                let time_table = field::<Vec<PostPlateTimeTable>>(members, "t"@);
                if line is Some
                    && post is Some
                    && abbreviations is Some
                    && time_table is Some {
                    Some(
                        PostPlateModel {
                            line: line->0,
                            post: post->0,
                            abbreviations: abbreviations->0,
                            time_table: time_table->0,
                        },
                    )
                } else {
                    None
                }
            },
            _ => None,
        }
    }

    fn from_json(j: &Json) -> (r: Option<PostPlate>) {
        let out = match j {
            Json::Object(members) => {
                proof {
                    object_model(*members);
                }
                let line = read_field::<String>(members, "l");
                let post = read_field::<String>(members, "p");
                let abbreviations = read_field::<Vec<String>>(members, "s");
                let time_table = read_field::<Vec<PostPlateTimeTable>>(members, "t");
                match (line, post, abbreviations, time_table) {
                    (Some(line), Some(post), Some(abbreviations), Some(time_table)) => Some(
                        PostPlate { line, post, abbreviations, time_table },
                    ),
                    _ => None,
                }
            },
            _ => None,
        };
        assert(out.deep_view() == Self::spec_from(j@));
        out
    }
}

/// The two spellings of a kind read alike: `b` as `BUS`, and `t` as `TRAM`.
pub proof fn kinds_read_alike()
    ensures
        VehicleType::spec_from(JsonModel::Text("b"@)) == Some(VehicleType::Bus),
        VehicleType::spec_from(JsonModel::Text("BUS"@)) == Some(VehicleType::Bus),
        VehicleType::spec_from(JsonModel::Text("t"@)) == Some(VehicleType::Tram),
        VehicleType::spec_from(JsonModel::Text("TRAM"@)) == Some(VehicleType::Tram),
{
    reveal_strlit("BUS");
    reveal_strlit("b");
    reveal_strlit("TRAM");
    reveal_strlit("t");
    assert("BUS"@.len() == 3 && "b"@.len() == 1 && "TRAM"@.len() == 4 && "t"@.len() == 1);
    assert("b"@[0] == 'b' && "t"@[0] == 't');
}

/// The compact spelling of a name of a field of a [`Bus`]; a name that has
/// none stands for itself.
pub open spec fn compact_key(name: Seq<char>) -> Seq<char> {
    if name == "code"@ {
        "v"@
    } else if name == "course"@ {
        "c"@
    } else if name == "line"@ {
        "l"@
    } else if name == "type"@ {
        "t"@
    } else if name == "symbol"@ {
        "s"@
    } else if name == "direction"@ {
        "d"@
    } else if name == "delay"@ {
        "e"@
    } else {
        name
    }
}

/// What `compact_key` does to the names of one field: a name is accepted
/// for the field exactly if its compact spelling is.
proof fn compact_key_keeps_the_field(names: Seq<Seq<char>>, name: Seq<char>)
    requires
        names == seq!["code"@, "v"@] || names == seq!["course"@, "c"@] || names == seq!["x"@]
            || names == seq!["y"@] || names == seq!["line"@, "l"@] || names == seq![
            "type"@,
            "t"@,
        ] || names == seq!["symbol"@, "s"@] || names == seq!["direction"@, "d"@] || names
            == seq!["delay"@, "e"@],
    ensures
        names.contains(name) == names.contains(compact_key(name)),
{
    reveal_strlit("code");
    reveal_strlit("v");
    reveal_strlit("course");
    reveal_strlit("c");
    reveal_strlit("x");
    reveal_strlit("y");
    reveal_strlit("line");
    reveal_strlit("l");
    reveal_strlit("type");
    reveal_strlit("t");
    reveal_strlit("symbol");
    reveal_strlit("s");
    reveal_strlit("direction");
    reveal_strlit("d");
    reveal_strlit("delay");
    reveal_strlit("e");
    assert("code"@.len() == 4 && "code"@[0] == 'c');
    assert("v"@.len() == 1 && "v"@[0] == 'v');
    assert("course"@.len() == 6 && "course"@[0] == 'c');
    assert("c"@.len() == 1 && "c"@[0] == 'c');
    assert("x"@.len() == 1 && "x"@[0] == 'x');
    assert("y"@.len() == 1 && "y"@[0] == 'y');
    assert("line"@.len() == 4 && "line"@[0] == 'l');
    assert("l"@.len() == 1 && "l"@[0] == 'l');
    assert("type"@.len() == 4 && "type"@[0] == 't');
    assert("t"@.len() == 1 && "t"@[0] == 't');
    assert("symbol"@.len() == 6 && "symbol"@[0] == 's');
    assert("s"@.len() == 1 && "s"@[0] == 's');
    assert("direction"@.len() == 9 && "direction"@[0] == 'd');
    assert("d"@.len() == 1 && "d"@[0] == 'd');
    assert("delay"@.len() == 5 && "delay"@[0] == 'd');
    assert("e"@.len() == 1 && "e"@[0] == 'e');
    accepted_names("code"@, "v"@, name);
    accepted_names("code"@, "v"@, compact_key(name));
    accepted_names("course"@, "c"@, name);
    accepted_names("course"@, "c"@, compact_key(name));
    accepted_names("x"@, "x"@, name);
    accepted_names("x"@, "x"@, compact_key(name));
    accepted_names("y"@, "y"@, name);
    accepted_names("y"@, "y"@, compact_key(name));
    accepted_names("line"@, "l"@, name);
    accepted_names("line"@, "l"@, compact_key(name));
    accepted_names("type"@, "t"@, name);
    accepted_names("type"@, "t"@, compact_key(name));
    accepted_names("symbol"@, "s"@, name);
    accepted_names("symbol"@, "s"@, compact_key(name));
    accepted_names("direction"@, "d"@, name);
    accepted_names("direction"@, "d"@, compact_key(name));
    accepted_names("delay"@, "e"@, name);
    accepted_names("delay"@, "e"@, compact_key(name));
}

/// The two spellings of a [`Bus`] read alike: an object and the object with
/// every name replaced by its compact spelling spell the same vehicle, or
/// both spell none.
pub proof fn compact_keys_read_alike(members: Seq<MemberModel>, compact: Seq<MemberModel>)
    requires
        compact.len() == members.len(),
        forall|i: int|
            0 <= i < members.len() ==> (#[trigger] compact[i]).value == members[i].value
                && compact[i].name == compact_key(members[i].name),
    ensures
        Bus::spec_from(JsonModel::Object(compact)) == Bus::spec_from(JsonModel::Object(members)),
{
    let fields = seq![
        seq!["code"@, "v"@],
        seq!["course"@, "c"@],
        seq!["x"@],
        seq!["y"@],
        seq!["line"@, "l"@],
        seq!["type"@, "t"@],
        seq!["symbol"@, "s"@],
        seq!["direction"@, "d"@],
        seq!["delay"@, "e"@],
    ];
    assert forall|k: int| 0 <= k < fields.len() implies lookup(members, #[trigger] fields[k])
        == lookup(compact, fields[k]) by {
        let names = fields[k];
        assert forall|i: int| 0 <= i < members.len() implies names.contains(
            (#[trigger] members[i]).name,
        ) == names.contains(compact[i].name) by {
            compact_key_keeps_the_field(names, members[i].name);
        }
        spelling_is_transparent(members, compact, names);
    }
    assert(lookup(members, fields[0]) == lookup(compact, fields[0]));
    assert(lookup(members, fields[1]) == lookup(compact, fields[1]));
    assert(lookup(members, fields[2]) == lookup(compact, fields[2]));
    assert(lookup(members, fields[3]) == lookup(compact, fields[3]));
    assert(lookup(members, fields[4]) == lookup(compact, fields[4]));
    assert(lookup(members, fields[5]) == lookup(compact, fields[5]));
    assert(lookup(members, fields[6]) == lookup(compact, fields[6]));
    assert(lookup(members, fields[7]) == lookup(compact, fields[7]));
    assert(lookup(members, fields[8]) == lookup(compact, fields[8]));
}

/// The vehicles on their courses, and the time of the report.
#[derive(Clone, Debug, PartialEq, Eq)]
pub struct BusList {
    pub timestamp: String,
    pub buses: Vec<Bus>,
}

/// The mathematical value of a [`BusList`].
pub struct BusListModel {
    pub timestamp: Seq<char>,
    pub buses: Seq<BusModel>,
}

impl DeepView for BusList {
    type V = BusListModel;

    open spec fn deep_view(&self) -> BusListModel {
        BusListModel { timestamp: self.timestamp@, buses: self.buses.deep_view() }
    }
}

impl BusList {
    /// The positions that a positional batch of vehicles holds: its leading
    /// text is the time of the report.
    pub fn from_batch(batch: PositionalBatch<Bus>) -> (r: BusList)
        ensures
            r.timestamp == batch.metadata,
            r.buses == batch.records,
    {
        BusList { timestamp: batch.metadata, buses: batch.records }
    }
}

/// The path of the service below its host.
pub const ENDPOINT: &'static str = "mobile";

/// The pattern in which the service takes a date and a time.
pub const SQL_DATE_FORMAT: &'static str = "%Y-%m-%d %H:%M:%S";

/// The time zone in which the service takes a date and a time.
pub const TIME_ZONE: &'static str = "Europe/Warsaw";

/// How far behind the clock positions are asked for, in seconds.
pub const REPORT_LAG: i64 = 10;

/// A client of the authenticated host: the host, and the name and secret
/// that it answers the host's challenges with.
pub struct Client {
    host: String,
    credentials: DigestCredentials,
}

impl Client {
    /// The host.
    pub closed spec fn host(self) -> Seq<char> {
        self.host@
    }

    /// The name and the secret.
    pub closed spec fn spec_credentials(self) -> DigestCredentials {
        self.credentials
    }

    /// What a request of this client with the parameters `params` looks
    /// like: the one host is asked for the service's path.
    pub open spec fn asks(self, r: RequestDescriptor, params: Seq<(Seq<char>, Seq<char>)>) -> bool {
        &&& r.hosts.deep_view() == seq![self.host()]
        &&& r.path@ == ENDPOINT@
        &&& r.params.deep_view() == params
    }

    /// A client of `host` with the given name and secret.
    pub fn new(host: String, credentials: DigestCredentials) -> (r: Client)
        ensures
            r.host() == host@,
            r.spec_credentials() == credentials,
    {
        Client { host, credentials }
    }

    /// The name and the secret.
    pub fn credentials(&self) -> (r: &DigestCredentials)
        ensures
            *r == self.spec_credentials(),
    {
        &self.credentials
    }

    fn request(&self, function: &str, rest: Vec<Param>) -> (r: RequestDescriptor)
        ensures
            self.asks(r, seq![("function"@, function@)] + rest.deep_view()),
    {
        let ghost given = rest.deep_view();
        let mut rest = rest;
        let mut params: Vec<Param> = Vec::new();
        params.push(Param { key: String::from_str("function"), value: String::from_str(function) });
        params.append(&mut rest);
        let mut hosts: Vec<String> = Vec::new();
        hosts.push(self.host.clone());
        let r = RequestDescriptor { hosts, path: String::from_str(ENDPOINT), params };
        assert(r.hosts.deep_view() =~= seq![self.host()]);
        assert(r.params.deep_view() =~= seq![("function"@, function@)] + given);
        r
    }

    /// The request for the positions of the vehicles at `date`, a date and a
    /// time as the service takes them.
    pub fn positions_request(&self, date: String) -> (r: RequestDescriptor)
        ensures
            self.asks(r, seq![("function"@, "getPositions"@), ("date"@, date@)]),
    {
        let mut rest: Vec<Param> = Vec::new();
        rest.push(Param { key: String::from_str("date"), value: date });
        let r = self.request("getPositions", rest);
        assert(r.params.deep_view() =~= seq![("function"@, "getPositions"@), ("date"@, date@)]);
        r
    }

    /// The request for the positions of the vehicles, at the time `now`
    /// (seconds since the start of 1970 in UTC): the positions of
    /// [`REPORT_LAG`] seconds before, the time written in [`TIME_ZONE`] by
    /// [`SQL_DATE_FORMAT`]. `None` where that time is beyond the calendar.
    pub fn buses_request(&self, now: i64) -> (r: Option<RequestDescriptor>)
        ensures
            match r {
                Some(request) => {
                    &&& now - REPORT_LAG >= i64::MIN
                    &&& zoned_text((now - REPORT_LAG) as i64, TIME_ZONE@, SQL_DATE_FORMAT@)
                        is Some
                    &&& self.asks(
                        request,
                        seq![
                            ("function"@, "getPositions"@),
                            (
                                "date"@,
                                zoned_text(
                                    (now - REPORT_LAG) as i64,
                                    TIME_ZONE@,
                                    SQL_DATE_FORMAT@,
                                )->0,
                            ),
                        ],
                    )
                },
                None => now - REPORT_LAG < i64::MIN || zoned_text(
                    (now - REPORT_LAG) as i64,
                    TIME_ZONE@,
                    SQL_DATE_FORMAT@,
                ) is None,
            },
    {
        if now < i64::MIN + REPORT_LAG {
            return None;
        }
        match write_zoned(now - REPORT_LAG, TIME_ZONE, SQL_DATE_FORMAT) {
            Some(date) => Some(self.positions_request(date)),
            None => None,
        }
    }

    /// The request for the departures from the stop `symbol`.
    pub fn post_info_request(&self, symbol: &str) -> (r: RequestDescriptor)
        ensures
            self.asks(r, seq![("function"@, "getPostInfo"@), ("symbol"@, symbol@)]),
    {
        let mut rest: Vec<Param> = Vec::new();
        rest.push(Param { key: String::from_str("symbol"), value: String::from_str(symbol) });
        let r = self.request("getPostInfo", rest);
        assert(r.params.deep_view() =~= seq![("function"@, "getPostInfo"@), ("symbol"@, symbol@)]);
        r
    }

    /// The request for the stops of the courses `courses`, which are sent
    /// as one parameter, with commas between them.
    pub fn course_posts_request(&self, courses: &Vec<String>) -> (r: RequestDescriptor)
        ensures
            self.asks(
                r,
                seq![
                    ("function"@, "getCoursePosts"@),
                    ("courses"@, joined(texts(courses@), ","@)),
                ],
            ),
    {
        let mut rest: Vec<Param> = Vec::new();
        rest.push(Param { key: String::from_str("courses"), value: join(courses, ",") });
        let r = self.request("getCoursePosts", rest);
        assert(r.params.deep_view() =~= seq![
            ("function"@, "getCoursePosts"@),
            ("courses"@, joined(texts(courses@), ","@)),
        ]);
        r
    }

    /// The request for the timetable plate of the line `line` at the stop
    /// `post`.
    pub fn post_plate_request(&self, post: &str, line: &str) -> (r: RequestDescriptor)
        ensures
            self.asks(
                r,
                seq![
                    ("function"@, "getPostPlate"@),
                    ("post"@, post@),
                    ("line"@, line@),
                    ("output"@, "json"@),
                ],
            ),
    {
        let mut rest: Vec<Param> = Vec::new();
        rest.push(Param { key: String::from_str("post"), value: String::from_str(post) });
        rest.push(Param { key: String::from_str("line"), value: String::from_str(line) });
        rest.push(Param { key: String::from_str("output"), value: String::from_str("json") });
        let r = self.request("getPostPlate", rest);
        assert(r.params.deep_view() =~= seq![
            ("function"@, "getPostPlate"@),
            ("post"@, post@),
            ("line"@, line@),
            ("output"@, "json"@),
        ]);
        r
    }
}

} // verus!
