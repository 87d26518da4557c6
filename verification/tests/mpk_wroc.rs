use mpk_rs::clients::mpk_wroc::{
    Bus, BusList, BusStop, Client, ClientError, CourseInfo, MpkError, PostPlate,
    PostPlateHour, VehicleType, ENDPOINT, REPORT_LAG, SQL_DATE_FORMAT, TIME_ZONE,
};
use mpk_rs::decode::decode_record;
use mpk_rs::digest::DigestCredentials;
use mpk_rs::error::{DecodeError, ErrorKind};
use mpk_rs::exchange::{interpret, interpret_batch};
use mpk_rs::json::JsonNumber;
use mpk_rs::request::{Param, RequestDescriptor};

fn degrees(n: JsonNumber) -> f32 {
    match n {
        JsonNumber::PosInt(u) => u as f32,
        JsonNumber::NegInt(i) => i as f32,
        JsonNumber::Float(bits) => f64::from_bits(bits) as f32,
    }
}

fn client() -> Client {
    Client::new(
        "https://impk.mpk.wroc.pl:8088".to_string(),
        DigestCredentials::new("name".to_string(), "secret".to_string()),
    )
}

fn pairs(request: &RequestDescriptor) -> Vec<(String, String)> {
    request.params.iter().map(|p: &Param| (p.key.clone(), p.value.clone())).collect()
}

fn pair(key: &str, value: &str) -> (String, String) {
    (key.to_string(), value.to_string())
}

#[test]
fn test_bus_shortcut_from_json() {
    let json = r#"
 {
    "v": 8418,
    "c": 25626631,
    "x": 17.051289,
    "y": 51.11734,
    "l": "N",
    "t": "b",
    "s": "20903",
    "d": "29324",
    "e": 0
}"#;

    let _v: Bus = decode_record(json.as_bytes()).unwrap();
}

#[test]
fn test_bus_full_from_json() {
    let json = r#"
{
  "code": 8418,
  "course": 25626631,
  "x": 17.098055,
  "y": 51.14295,
  "line": "N",
  "type": "BUS",
  "symbol": "24105",
  "direction": "29324",
  "delay": 27000
}"#;

    let _v: Bus = decode_record(json.as_bytes()).unwrap();
}

#[test]
fn test_bus_stop_info() {
    let json = r#"
    [
    	{ "l": "250", "d": "20362", "t": "2025-02-26 23:38:00", "c": 25622727 },
    	{ "l": "250", "d": "9-OBORNIC", "t": "2025-02-27 00:33:00", "c": 25623045 },
    	{ "l": "250", "d": "20362", "t": "2025-02-27 00:58:00", "c": 25626027 }
    ]"#;

    let _v: Vec<BusStop> = decode_record(json.as_bytes()).unwrap();
}

#[test]
fn test_courses_info() {
    let json = r#"
[
	{
		"c": 25622727,
		"p": "_ivH`~fBw@saAkKeE_XgQeRkEgWsbAaRLoZf[yKtSuLhq@rBf[}Gfb@tW_BrXtKoFfOzIre@~^fQzXR`SwDdKgk@dV_FaEqW ",
		"r": [
			{ "s": "20362", "t": "1900-01-01 23:34:00" },
			{ "s": "20327", "t": "1900-01-01 23:37:00" },
			{ "s": "20329", "t": "1900-01-01 23:38:00" },
			{ "s": "20312", "t": "1900-01-01 23:39:00" },
			{ "s": "20301", "t": "1900-01-01 23:40:00" },
			{ "s": "20916", "t": "1900-01-01 23:42:00" },
			{ "s": "120854", "t": "1900-01-01 23:43:00" },
			{ "s": "120852", "t": "1900-01-01 23:44:00" },
			{ "s": "120670", "t": "1900-01-01 23:45:00" },
			{ "s": "120628", "t": "1900-01-01 23:47:00" },
			{ "s": "120666", "t": "1900-01-01 23:49:00" },
			{ "s": "120616", "t": "1900-01-01 23:50:00" },
			{ "s": "120614", "t": "19 00-01-01 23:51:00" },
			{ "s": "10716", "t": "1900-01-01 23:53:00" },
			{ "s": "110654", "t": "1900-01-01 23:54:00" },
			{ "s": "10556", "t": "1900-01-01 23:55:00" },
			{ "s": "10534", "t": "1900-01-01 23:56:00" },
			{ "s": "110274", "t": "1900-01- 01 23:57:00" },
			{ "s": "10373", "t": "1900-01-01 23:58:00" },
			{ "s": "10365", "t": "1900-01-02 00:00:00" },
			{ "s": "1132 2", "t": "1900-01-02 00:02:00" },
			{ "s": "20362", "t": "1900-01-02 00:03:00" }
		]
	},
	{
		"c": 25623045,
		"p": "_i{vH}`~fBw@saA kKeE_XgQeRkEgWsbAaRLoZf[yKtSuLhq@rBf[wEh_@eAEiV}G_l@lHiNbd@enXjAe@wApA}J~I{J~IiA~@mBlAwAb@}AuB",
		"r": [
			{ "s": "20362", "t": "1900-01-01 00:29:00" },
			{ "s": "20327", "t": "1900-01-01 00:32:00" },
			{ "s": "20329", "t": "1900-01-01 00:33:00 " },
			{ "s": "20312", "t": "1900-01-01 00:34:00" },
			{ "s": "20301", "t": "1900-01-01 00:35:00" },
			{ "s": "20916", "t": "1900-01-01 00:37:00" },
			{ "s": "120854", "t": "1900-01-01 00:38:00" },
			{ "s": "120852", "t": "1900-01-01 00:39:00" },
			{ "s": "120670", "t": "1900-01-01 00:40:00" },
			{ "s": "120628", "t": "1900-01-01 00:42:00" },
			{ "s": "120666", "t": "19 00-01-01 00:44:00" },
			{ "s": "120610", "t": "1900-01-01 00:45:00" },
			{ "s": "120615", "t": "1900-01-01 00:46:00" },
			{ "s": "20717", "t": "1900-01-01 00:47:00" },
			{ "s": "23141", "t": "1900-01-01 00:49:00" },
			{ "s": "23143", "t": "1900-01-01 00:51:00" },
			{ "s": "23145", "t": "1900-01-01 00:52:00" },
			{ "s": "23149", "t": "1900-01-01 00:53:00" },
			{ "s": "9-OBORNIC", "t": "1900-01-01 00:54:00" }
		]
	}
]"#;
    let _v: Vec<CourseInfo> = decode_record(json.as_bytes()).unwrap();
}

#[test]
fn bus_fields_are_read() {
    let json = r#"{"v":8418,"c":25626631,"x":17.051289,"y":51.11734,"l":"N","t":"b","s":"20903","d":"29324","e":-5}"#;
    let bus: Bus = decode_record(json.as_bytes()).unwrap();
    assert_eq!(bus.code, 8418);
    assert_eq!(bus.course, 25626631);
    assert_eq!(degrees(bus.latitude), 17.051289f32);
    assert_eq!(degrees(bus.longitude), 51.11734f32);
    assert_eq!(bus.line, "N");
    assert_eq!(bus.vehicle_type, VehicleType::Bus);
    assert_eq!(bus.symbol, "20903");
    assert_eq!(bus.direction, "29324");
    assert_eq!(bus.delay, -5);
}

#[test]
fn compact_and_verbose_keys_give_equal_buses() {
    let compact = r#"{"v":1,"c":2,"x":0.0,"y":0.0,"l":"N","t":"b","s":"A","d":"B","e":0}"#;
    let verbose = r#"{"code":1,"course":2,"x":0.0,"y":0.0,"line":"N","type":"BUS","symbol":"A","direction":"B","delay":0}"#;
    let a: Bus = decode_record(compact.as_bytes()).unwrap();
    let b: Bus = decode_record(verbose.as_bytes()).unwrap();
    assert_eq!(a, b);
    assert_eq!(a.code, 1);
    assert_eq!(a.vehicle_type, VehicleType::Bus);
}

#[test]
fn mixed_spellings_are_accepted() {
    let mixed = r#"{"code":1,"c":2,"x":0,"y":-3,"line":"N","t":"TRAM","s":"A","direction":"B","e":0}"#;
    let bus: Bus = decode_record(mixed.as_bytes()).unwrap();
    assert_eq!(bus.vehicle_type, VehicleType::Tram);
    assert_eq!(bus.latitude, JsonNumber::PosInt(0));
    assert_eq!(bus.longitude, JsonNumber::NegInt(-3));
}

#[test]
fn a_field_under_both_spellings_is_refused() {
    let twice = r#"{"v":1,"code":1,"c":2,"x":0.0,"y":0.0,"l":"N","t":"b","s":"A","d":"B","e":0}"#;
    let r: Result<Bus, DecodeError> = decode_record(twice.as_bytes());
    assert!(matches!(r, Err(DecodeError::SchemaMismatch { .. })));
}

#[test]
fn a_missing_field_is_refused() {
    let short = r#"{"v":1,"c":2,"x":0.0,"y":0.0,"l":"N","t":"b","s":"A","d":"B"}"#;
    let r: Result<Bus, DecodeError> = decode_record(short.as_bytes());
    assert!(matches!(r, Err(DecodeError::SchemaMismatch { .. })));
}

#[test]
fn unknown_members_are_passed_over() {
    let more = r#"{"v":1,"c":2,"x":0.0,"y":0.0,"l":"N","t":"b","s":"A","d":"B","e":0,"zz":[1,2]}"#;
    let bus: Bus = decode_record(more.as_bytes()).unwrap();
    assert_eq!(bus.code, 1);
}

#[test]
fn numbers_must_fit_their_field() {
    let wide = r#"{"v":2147483648,"c":2,"x":0.0,"y":0.0,"l":"N","t":"b","s":"A","d":"B","e":0}"#;
    assert!(decode_record::<Bus>(wide.as_bytes()).is_err());
    let edge = r#"{"v":2147483647,"c":-2147483648,"x":0.0,"y":0.0,"l":"N","t":"b","s":"A","d":"B","e":0}"#;
    let bus: Bus = decode_record(edge.as_bytes()).unwrap();
    assert_eq!(bus.code, i32::MAX);
    assert_eq!(bus.course, i32::MIN);
    let fraction = r#"{"v":1.5,"c":2,"x":0.0,"y":0.0,"l":"N","t":"b","s":"A","d":"B","e":0}"#;
    assert!(decode_record::<Bus>(fraction.as_bytes()).is_err());
    let negative = r#"{ "l": "250", "d": "20362", "t": "x", "c": -1 }"#;
    assert!(decode_record::<BusStop>(negative.as_bytes()).is_err());
    let hour = r#"{"h": 32768, "m": []}"#;
    assert!(decode_record::<PostPlateHour>(hour.as_bytes()).is_err());
    let hour = r#"{"h": -32768, "m": ["05a"]}"#;
    let h: PostPlateHour = decode_record(hour.as_bytes()).unwrap();
    assert_eq!(h.hour, i16::MIN);
    assert_eq!(h.minutes, vec!["05a".to_string()]);
}

#[test]
fn an_unknown_vehicle_type_is_refused() {
    let odd = r#"{"v":1,"c":2,"x":0.0,"y":0.0,"l":"N","t":"bus","s":"A","d":"B","e":0}"#;
    assert!(decode_record::<Bus>(odd.as_bytes()).is_err());
}

#[test]
fn post_plate_is_read_through_its_levels() {
    let json = r#"{"l":"250","p":"20329","s":["a - x"],"t":[{"t":"2025-01-01","v":[{"n":"OBORNIKI","d":[{"d":"Dni robocze","o":1,"h":[{"h":5,"m":["12","42a"]},{"h":6,"m":[]}]}]}]}]}"#;
    let plate: PostPlate = decode_record(json.as_bytes()).unwrap();
    assert_eq!(plate.line, "250");
    assert_eq!(plate.post, "20329");
    assert_eq!(plate.abbreviations, vec!["a - x".to_string()]);
    assert_eq!(plate.time_table.len(), 1);
    assert_eq!(plate.time_table[0].vaild_from, "2025-01-01");
    let direction = &plate.time_table[0].values[0];
    assert_eq!(direction.direction, "OBORNIKI");
    let day = &direction.days[0];
    assert_eq!(day.day_name, "Dni robocze");
    assert_eq!(day.order, 1);
    assert_eq!(day.hours.len(), 2);
    assert_eq!(day.hours[0].hour, 5);
    assert_eq!(day.hours[0].minutes, vec!["12".to_string(), "42a".to_string()]);
    assert_eq!(day.hours[1].minutes.len(), 0);
}

#[test]
fn interpret_hands_out_the_positions() {
    let body = r#"["2025-02-26T23:38:00",
        {"v":1,"c":2,"x":0.0,"y":0.0,"l":"N","t":"b","s":"A","d":"B","e":0},
        {"code":3,"course":4,"x":1.0,"y":1.0,"line":"K","type":"TRAM","symbol":"C","direction":"D","delay":9}]"#;
    let list = BusList::from_batch(interpret_batch::<Bus>(body.as_bytes()).unwrap());
    assert_eq!(list.timestamp, "2025-02-26T23:38:00");
    assert_eq!(list.buses.len(), 2);
    assert_eq!(list.buses[0].code, 1);
    assert_eq!(list.buses[1].code, 3);
    assert_eq!(list.buses[1].vehicle_type, VehicleType::Tram);
}

#[test]
fn interpret_surfaces_the_failure_that_the_host_reports() {
    let body = r#"{"info":"X","message":"Y","stackTrace":"Z"}"#;
    let expected = MpkError {
        info: "X".to_string(),
        message: "Y".to_string(),
        stack_trace: "Z".to_string(),
    };
    match interpret_batch::<Bus>(body.as_bytes()) {
        Err(e) => {
            assert_eq!(e.kind(), ErrorKind::UpstreamBusiness);
            assert_eq!(e, ClientError::MpkError(expected.clone()));
        }
        Ok(_) => panic!("a failure was reported"),
    }
    let r: Result<Vec<BusStop>, ClientError> = interpret(body.as_bytes());
    assert_eq!(r, Err(ClientError::MpkError(expected)));
}

#[test]
fn a_failing_batch_keeps_its_kind_through_interpret() {
    let r = interpret_batch::<Bus>(br#"["a","b","c"]"#);
    assert_eq!(r, Err(ClientError::SerdeError(DecodeError::RecordMismatch { index: 1 })));
    assert_eq!(r.map_err(|e| e.kind()), Err(ErrorKind::Decode));
    let r = interpret_batch::<Bus>(b"[]");
    assert_eq!(r, Err(ClientError::SerdeError(DecodeError::EmptyBatch)));
    let r = interpret_batch::<Bus>(br#"[42, {"v":1}]"#);
    assert_eq!(r, Err(ClientError::SerdeError(DecodeError::InvalidMetadata)));
    let good = r#"{"v":1,"c":2,"x":0.0,"y":0.0,"l":"N","t":"b","s":"A","d":"B","e":0}"#;
    let body = format!(r#"["ts", {}, {{"v":1}}, {}]"#, good, good);
    let r = interpret_batch::<Bus>(body.as_bytes());
    assert_eq!(r, Err(ClientError::SerdeError(DecodeError::RecordMismatch { index: 2 })));
    let r = interpret_batch::<Bus>(br#"{"unexpected":true}"#);
    assert_eq!(
        r,
        Err(ClientError::SerdeError(DecodeError::SchemaMismatch {
            snippet: br#"{"unexpected":true}"#.to_vec()
        }))
    );
    let r = interpret_batch::<Bus>(b"<html>");
    assert_eq!(
        r,
        Err(ClientError::SerdeError(DecodeError::SchemaMismatch { snippet: b"<html>".to_vec() }))
    );
}

#[test]
fn interpret_reports_a_body_of_no_known_shape() {
    let body = r#"{"unexpected":true}"#;
    let r: Result<Vec<BusStop>, ClientError> = interpret(body.as_bytes());
    match r {
        Err(e) => {
            assert_eq!(e.kind(), ErrorKind::Decode);
            assert_eq!(
                e,
                ClientError::SerdeError(DecodeError::SchemaMismatch {
                    snippet: body.as_bytes().to_vec()
                })
            );
        }
        Ok(_) => panic!("the body has no known shape"),
    }
}

#[test]
fn the_failure_is_described_as_one_text() {
    let e = MpkError {
        info: "X".to_string(),
        message: "Y".to_string(),
        stack_trace: "Z".to_string(),
    };
    assert_eq!(e.describe(), "X: Y\nStack trace: Z");
}

#[test]
fn positions_are_asked_for_ten_seconds_back_in_local_time() {
    assert_eq!(REPORT_LAG, 10);
    assert_eq!(TIME_ZONE, "Europe/Warsaw");
    assert_eq!(SQL_DATE_FORMAT, "%Y-%m-%d %H:%M:%S");
    let request = client().buses_request(1740609480).unwrap();
    assert_eq!(request.hosts, vec!["https://impk.mpk.wroc.pl:8088".to_string()]);
    assert_eq!(request.path, ENDPOINT);
    assert_eq!(
        pairs(&request),
        vec![pair("function", "getPositions"), pair("date", "2025-02-26 23:37:50")]
    );
    let summer = client().buses_request(1751328000).unwrap();
    assert_eq!(pairs(&summer)[1], pair("date", "2025-07-01 01:59:50"));
    let epoch = client().buses_request(0).unwrap();
    assert_eq!(pairs(&epoch)[1], pair("date", "1970-01-01 00:59:50"));
}

#[test]
fn positions_cannot_be_asked_for_beyond_the_calendar() {
    assert!(client().buses_request(i64::MIN).is_none());
    assert!(client().buses_request(i64::MIN + 9).is_none());
    assert!(client().buses_request(i64::MIN + 10).is_none());
    assert!(client().buses_request(i64::MAX).is_none());
}

#[test]
fn positions_request_is_sent_as_one_url() {
    let request = client().buses_request(1740609480).unwrap();
    assert_eq!(
        request.urls(),
        vec![Some(
            "https://impk.mpk.wroc.pl:8088/mobile?function=getPositions&date=2025-02-26+23%3A37%3A50"
                .to_string()
        )]
    );
}

#[test]
fn positions_can_be_asked_for_at_a_given_date() {
    let request = client().positions_request("2025-02-26 23:37:50".to_string());
    assert_eq!(
        pairs(&request),
        vec![pair("function", "getPositions"), pair("date", "2025-02-26 23:37:50")]
    );
    assert_eq!(request.hosts.len(), 1);
}

#[test]
fn post_info_names_the_stop() {
    let request = client().post_info_request("20329");
    assert_eq!(request.path, "mobile");
    assert_eq!(pairs(&request), vec![pair("function", "getPostInfo"), pair("symbol", "20329")]);
}

#[test]
fn course_posts_joins_the_courses_with_commas() {
    let courses = vec!["25622727".to_string(), "25623045".to_string()];
    let request = client().course_posts_request(&courses);
    assert_eq!(
        pairs(&request),
        vec![pair("function", "getCoursePosts"), pair("courses", "25622727,25623045")]
    );
    let one = client().course_posts_request(&vec!["7".to_string()]);
    assert_eq!(pairs(&one)[1], pair("courses", "7"));
    let none = client().course_posts_request(&Vec::new());
    assert_eq!(pairs(&none)[1], pair("courses", ""));
}

#[test]
fn post_plate_asks_for_json() {
    let request = client().post_plate_request("20329", "250");
    assert_eq!(
        pairs(&request),
        vec![
            pair("function", "getPostPlate"),
            pair("post", "20329"),
            pair("line", "250"),
            pair("output", "json")
        ]
    );
}
