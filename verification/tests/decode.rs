use mpk_rs::clients::mpk_wroc::{Bus, VehicleType};
use mpk_rs::decode::{
    decode_batch, decode_batch_union, decode_record, decode_union, snippet, PositionalBatch,
    ResponseEnvelope, SNIPPET_LIMIT,
};
use mpk_rs::error::{ClientError, DecodeError, MpkError};
use mpk_rs::json::JsonNumber;

const REC1: &str = r#"{"v":1,"c":2,"x":0.0,"y":0.0,"l":"N","t":"b","s":"A","d":"B","e":0}"#;
const REC2: &str = r#"{"code":3,"course":4,"x":1.5,"y":2.5,"line":"K","type":"TRAM","symbol":"C","direction":"D","delay":9}"#;

fn mismatch(body: &str) -> DecodeError {
    DecodeError::SchemaMismatch { snippet: body.as_bytes().to_vec() }
}

#[test]
fn union_of_a_success_shape_is_a_success() {
    let body = format!("[{},{}]", REC1, REC2);
    let r: ResponseEnvelope<Vec<Bus>> = decode_union(body.as_bytes()).unwrap();
    match r {
        ResponseEnvelope::Success(buses) => {
            assert_eq!(buses.len(), 2);
            assert_eq!(buses[0].code, 1);
            assert_eq!(buses[1].code, 3);
            assert_eq!(buses[1].latitude, JsonNumber::Float(1.5f64.to_bits()));
        }
        ResponseEnvelope::ApiFailure(_) => panic!("the body is a success"),
    }
}

#[test]
fn union_of_the_error_shape_is_the_reported_failure() {
    let body = r#"{"info":"X","message":"Y","stackTrace":"Z"}"#;
    let r: ResponseEnvelope<Vec<Bus>> = decode_union(body.as_bytes()).unwrap();
    assert_eq!(
        r,
        ResponseEnvelope::ApiFailure(MpkError {
            info: "X".to_string(),
            message: "Y".to_string(),
            stack_trace: "Z".to_string(),
        })
    );
}

#[test]
fn union_of_neither_shape_is_a_schema_mismatch() {
    let body = r#"{"info":"X","message":"Y"}"#;
    let r: Result<ResponseEnvelope<Vec<Bus>>, DecodeError> = decode_union(body.as_bytes());
    assert_eq!(r, Err(mismatch(body)));
    let body = "42";
    let r: Result<ResponseEnvelope<Bus>, DecodeError> = decode_union(body.as_bytes());
    assert_eq!(r, Err(mismatch(body)));
}

#[test]
fn union_tries_the_success_shape_first() {
    let body = r#"{"info":"X","message":"Y","stackTrace":"Z"}"#;
    let r: ResponseEnvelope<MpkError> = decode_union(body.as_bytes()).unwrap();
    assert!(matches!(r, ResponseEnvelope::Success(_)));
}

#[test]
fn the_error_shape_wants_three_texts() {
    let body = r#"{"info":"X","message":7,"stackTrace":"Z"}"#;
    assert!(decode_record::<MpkError>(body.as_bytes()).is_err());
    let body = r#"{"info":"X","message":"Y","stack_trace":"Z"}"#;
    assert!(decode_record::<MpkError>(body.as_bytes()).is_err());
    let body = r#"{"stackTrace":"Z","more":1,"message":"Y","info":"X"}"#;
    let e: MpkError = decode_record(body.as_bytes()).unwrap();
    assert_eq!(e.info, "X");
    assert_eq!(e.message, "Y");
    assert_eq!(e.stack_trace, "Z");
}

#[test]
fn an_envelope_turns_into_the_result_of_the_call() {
    let ok: ResponseEnvelope<u32> = ResponseEnvelope::Success(7);
    assert_eq!(ok.into_result(), Ok(7));
    let e = MpkError {
        info: "X".to_string(),
        message: "Y".to_string(),
        stack_trace: "Z".to_string(),
    };
    let failed: ResponseEnvelope<u32> = ResponseEnvelope::ApiFailure(e.clone());
    assert_eq!(failed.into_result(), Err(ClientError::MpkError(e)));
}

#[test]
fn batch_holds_the_metadata_and_the_records_in_order() {
    let body = format!(r#"["2025-02-26T23:38:00", {}, {}]"#, REC1, REC2);
    let batch: PositionalBatch<Bus> = decode_batch(body.as_bytes()).unwrap();
    assert_eq!(batch.metadata, "2025-02-26T23:38:00");
    assert_eq!(batch.records.len(), 2);
    assert_eq!(batch.records[0].code, 1);
    assert_eq!(batch.records[0].vehicle_type, VehicleType::Bus);
    assert_eq!(batch.records[1].code, 3);
    assert_eq!(batch.records[1].vehicle_type, VehicleType::Tram);
}

#[test]
fn batch_of_the_metadata_alone_has_no_records() {
    let batch: PositionalBatch<Bus> = decode_batch(br#"["ts"]"#).unwrap();
    assert_eq!(batch.metadata, "ts");
    assert!(batch.records.is_empty());
}

#[test]
fn an_empty_batch_is_refused() {
    let r: Result<PositionalBatch<Bus>, DecodeError> = decode_batch(b"[]");
    assert_eq!(r, Err(DecodeError::EmptyBatch));
    let r: Result<PositionalBatch<Bus>, DecodeError> = decode_batch(b" [ ] ");
    assert_eq!(r, Err(DecodeError::EmptyBatch));
}

#[test]
fn metadata_that_is_no_string_is_refused() {
    let body = format!("[42, {}]", REC1);
    let r: Result<PositionalBatch<Bus>, DecodeError> = decode_batch(body.as_bytes());
    assert_eq!(r, Err(DecodeError::InvalidMetadata));
    let body = format!("[{}, {}]", REC1, REC1);
    let r: Result<PositionalBatch<Bus>, DecodeError> = decode_batch(body.as_bytes());
    assert_eq!(r, Err(DecodeError::InvalidMetadata));
    let r: Result<PositionalBatch<Bus>, DecodeError> = decode_batch(b"[null]");
    assert_eq!(r, Err(DecodeError::InvalidMetadata));
}

#[test]
fn the_first_record_that_fails_is_reported_by_its_index() {
    let body = format!(r#"["ts", {}, {{"v":1}}]"#, REC1);
    let r: Result<PositionalBatch<Bus>, DecodeError> = decode_batch(body.as_bytes());
    assert_eq!(r, Err(DecodeError::RecordMismatch { index: 2 }));
    let body = format!(r#"["ts", 5, {}, "x"]"#, REC1);
    let r: Result<PositionalBatch<Bus>, DecodeError> = decode_batch(body.as_bytes());
    assert_eq!(r, Err(DecodeError::RecordMismatch { index: 1 }));
    let body = format!(r#"["ts", {}, {}, {}, []]"#, REC1, REC2, REC1);
    let r: Result<PositionalBatch<Bus>, DecodeError> = decode_batch(body.as_bytes());
    assert_eq!(r, Err(DecodeError::RecordMismatch { index: 4 }));
}

#[test]
fn a_batch_that_is_no_array_is_a_schema_mismatch() {
    let body = r#"{"info":"X","message":"Y","stackTrace":"Z"}"#;
    let r: Result<PositionalBatch<Bus>, DecodeError> = decode_batch(body.as_bytes());
    assert_eq!(r, Err(mismatch(body)));
    let body = "not json at all";
    let r: Result<PositionalBatch<Bus>, DecodeError> = decode_batch(body.as_bytes());
    assert_eq!(r, Err(mismatch(body)));
    let body = r#"["ts", "#;
    let r: Result<PositionalBatch<Bus>, DecodeError> = decode_batch(body.as_bytes());
    assert_eq!(r, Err(mismatch(body)));
}

#[test]
fn a_batch_beside_the_failure_shape_keeps_its_own_errors() {
    let body = format!(r#"["ts", {}]"#, REC1);
    match decode_batch_union::<Bus>(body.as_bytes()).unwrap() {
        ResponseEnvelope::Success(batch) => assert_eq!(batch.records.len(), 1),
        ResponseEnvelope::ApiFailure(_) => panic!("the body is a batch"),
    }
    let failure = r#"{"info":"X","message":"Y","stackTrace":"Z"}"#;
    assert!(matches!(
        decode_batch_union::<Bus>(failure.as_bytes()),
        Ok(ResponseEnvelope::ApiFailure(_))
    ));
    assert_eq!(decode_batch_union::<Bus>(b"[]"), Err(DecodeError::EmptyBatch));
    assert_eq!(decode_batch_union::<Bus>(b"[1]"), Err(DecodeError::InvalidMetadata));
    assert_eq!(
        decode_batch_union::<Bus>(br#"["a","b","c"]"#),
        Err(DecodeError::RecordMismatch { index: 1 })
    );
    assert_eq!(decode_batch_union::<Bus>(b"{}"), Err(mismatch("{}")));
    assert_eq!(decode_batch_union::<Bus>(b"nothing"), Err(mismatch("nothing")));
}

#[test]
fn the_snippet_is_the_start_of_the_body() {
    assert_eq!(SNIPPET_LIMIT, 64);
    let long: Vec<u8> = (0..200u8).collect();
    assert_eq!(snippet(&long), long[..64].to_vec());
    let exact: Vec<u8> = (0..64u8).collect();
    assert_eq!(snippet(&exact), exact);
    let one_more: Vec<u8> = (0..65u8).collect();
    assert_eq!(snippet(&one_more), one_more[..64].to_vec());
    assert_eq!(snippet(b"ab"), b"ab".to_vec());
    assert_eq!(snippet(b""), Vec::<u8>::new());
}

#[test]
fn a_long_body_of_no_shape_is_reported_by_its_start() {
    let body = format!("{{\"filler\":\"{}\"}}", "x".repeat(300));
    let r: Result<Bus, DecodeError> = decode_record(body.as_bytes());
    assert_eq!(r, Err(DecodeError::SchemaMismatch { snippet: body.as_bytes()[..64].to_vec() }));
}

#[test]
fn bytes_that_are_no_text_are_a_schema_mismatch() {
    let body: Vec<u8> = vec![0xff, 0xfe, b'[', b']'];
    let r: Result<Vec<u32>, DecodeError> = decode_record(&body);
    assert_eq!(r, Err(DecodeError::SchemaMismatch { snippet: body.clone() }));
}

#[test]
fn decoding_twice_gives_equal_results() {
    let body = format!(r#"["ts", {}, {}]"#, REC1, REC2);
    let first: Result<PositionalBatch<Bus>, DecodeError> = decode_batch(body.as_bytes());
    let second: Result<PositionalBatch<Bus>, DecodeError> = decode_batch(body.as_bytes());
    assert!(first.is_ok());
    assert_eq!(first, second);
    let bad = r#"["ts", 1]"#;
    let first: Result<PositionalBatch<Bus>, DecodeError> = decode_batch(bad.as_bytes());
    let second: Result<PositionalBatch<Bus>, DecodeError> = decode_batch(bad.as_bytes());
    assert_eq!(first, Err(DecodeError::RecordMismatch { index: 1 }));
    assert_eq!(first, second);
    let failure = r#"{"info":"X","message":"Y","stackTrace":"Z"}"#;
    let first: Result<ResponseEnvelope<Bus>, DecodeError> = decode_union(failure.as_bytes());
    let second: Result<ResponseEnvelope<Bus>, DecodeError> = decode_union(failure.as_bytes());
    assert!(matches!(first, Ok(ResponseEnvelope::ApiFailure(_))));
    assert_eq!(first, second);
}

#[test]
fn plain_values_are_read_from_a_document() {
    assert_eq!(decode_record::<Vec<u32>>(b"[1, 2, 4294967295]"), Ok(vec![1, 2, u32::MAX]));
    assert!(decode_record::<Vec<u32>>(b"[4294967296]").is_err());
    assert!(decode_record::<Vec<u32>>(b"[-1]").is_err());
    assert_eq!(decode_record::<Vec<i64>>(b"[-9223372036854775808]"), Ok(vec![i64::MIN]));
    assert_eq!(decode_record::<Vec<i64>>(b"[9223372036854775807]"), Ok(vec![i64::MAX]));
    assert!(decode_record::<Vec<i64>>(b"[9223372036854775808]").is_err());
    assert_eq!(decode_record::<Vec<bool>>(b"[true,false]"), Ok(vec![true, false]));
    assert_eq!(
        decode_record::<Vec<String>>(r#"["ab", "\u017c"]"#.as_bytes()),
        Ok(vec!["ab".to_string(), "\u{17c}".to_string()])
    );
    assert_eq!(
        decode_record::<Vec<JsonNumber>>(b"[7, -7, 0.5, 1e2]"),
        Ok(vec![
            JsonNumber::PosInt(7),
            JsonNumber::NegInt(-7),
            JsonNumber::Float(0.5f64.to_bits()),
            JsonNumber::Float(100.0f64.to_bits())
        ])
    );
    assert_eq!(decode_record::<Vec<Vec<i32>>>(b"[[1],[],[2,3]]"), Ok(vec![vec![1], vec![], vec![2, 3]]));
    assert!(decode_record::<Vec<i32>>(b"[1, null]").is_err());
    assert!(decode_record::<String>(b"7").is_err());
    assert!(decode_record::<bool>(b"\"true\"").is_err());
}
