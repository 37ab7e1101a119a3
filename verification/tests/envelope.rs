use space_traders::api::results::{ApiError, ApiResult};
use space_traders::api::{decode_api_json, decode_api_response};
use space_traders::decode::{DecodeError, FromJson, JsonKind, Shape};
use space_traders::json::Json;
use space_traders::responses::{ErrorData, RegistryResponse};
use space_traders::schemas::Meta;

fn text(s: &str) -> Json {
    Json::Str(s.to_string())
}

fn object(entries: Vec<(&str, Json)>) -> Json {
    Json::Object(entries.into_iter().map(|(k, v)| (k.to_string(), v)).collect())
}

fn bad_reply() -> ApiError {
    ApiError { message: "badReplyError".to_string(), code: 6000, data: None }
}

fn incomplete() -> ApiError {
    ApiError { message: "Server did not return expected fields 'data' or 'error'".to_string(), code: 6000, data: None }
}

#[test]
fn scenario_success() {
    let r = decode_api_response::<RegistryResponse>("{\"data\": {\"token\": \"abc123\"}}");
    assert_eq!(r, Ok(RegistryResponse { token: "abc123".to_string() }));
}

#[test]
fn scenario_known_error() {
    let r = decode_api_response::<RegistryResponse>("{\"error\": {\"message\": \"Ship in transit\", \"code\": 4214}}");
    let e = r.unwrap_err();
    assert_eq!(e, ApiError { message: "Ship in transit".to_string(), code: 4214, data: None });
    assert_eq!(e.name(), "shipInTransitError");
    assert_eq!(e.render(), "SpaceTraders API error (code=shipInTransitError): Ship in transit");
}

#[test]
fn scenario_unknown_error_code() {
    let r = decode_api_response::<RegistryResponse>("{\"error\": {\"message\": \"x\", \"code\": 9999}}");
    let e = r.unwrap_err();
    assert_eq!(e.code, 9999);
    assert_eq!(e.name(), "unknownError");
    assert_eq!(e.render(), "SpaceTraders API error (code=unknownError): x");
}

#[test]
fn scenario_malformed_json() {
    let r = decode_api_response::<RegistryResponse>("not json");
    let e = r.unwrap_err();
    assert_eq!(e.code, 6000);
    assert_eq!(e, bad_reply());
    assert_eq!(e.name(), "badReplyError");
}

#[test]
fn scenario_empty_envelope() {
    let r = decode_api_response::<RegistryResponse>("{}");
    assert_eq!(r, Err(incomplete()));
}

#[test]
fn error_takes_precedence_over_data() {
    let r = decode_api_response::<RegistryResponse>(
        "{\"data\": {\"token\": \"abc123\"}, \"error\": {\"message\": \"Ship in transit\", \"code\": 4214}}",
    );
    assert_eq!(r, Err(ApiError { message: "Ship in transit".to_string(), code: 4214, data: None }));
    let r = decode_api_response::<RegistryResponse>(
        "{\"error\": {\"message\": \"Ship in transit\", \"code\": 4214}, \"data\": {\"token\": \"abc123\"}}",
    );
    assert_eq!(r, Err(ApiError { message: "Ship in transit".to_string(), code: 4214, data: None }));
}

#[test]
fn error_detail_is_decoded() {
    let r = decode_api_response::<i32>(
        "{\"error\": {\"message\": \"Missing\", \"code\": 4218, \"data\": {\"symbol\": [\"IRON\", \"GOLD\"]}}}",
    );
    let e = r.unwrap_err();
    assert_eq!(e.data, Some(ErrorData { symbol: vec!["IRON".to_string(), "GOLD".to_string()] }));
    assert_eq!(e.render(), "SpaceTraders API error (code=shipCargoMissingError): Missing\nAdditional info: IRON GOLD");
}

#[test]
fn meta_beside_data_is_dropped() {
    let r = decode_api_response::<Vec<i32>>("{\"data\": [1, 2, 3], \"meta\": {\"total\": 3, \"page\": 1, \"limit\": 10}}");
    assert_eq!(r, Ok(vec![1, 2, 3]));
}

#[test]
fn meta_alone_is_an_incomplete_reply() {
    let r = decode_api_response::<Vec<i32>>("{\"meta\": {\"total\": 3, \"page\": 1, \"limit\": 10}}");
    assert_eq!(r, Err(incomplete()));
}

#[test]
fn malformed_meta_is_a_bad_reply() {
    let r = decode_api_response::<Vec<i32>>("{\"data\": [1], \"meta\": {\"total\": -3, \"page\": 1, \"limit\": 10}}");
    assert_eq!(r, Err(bad_reply()));
    let r = decode_api_response::<Vec<i32>>("{\"data\": [1], \"meta\": 7}");
    assert_eq!(r, Err(bad_reply()));
}

#[test]
fn null_fields_count_as_absent() {
    let r = decode_api_response::<i32>("{\"data\": null, \"meta\": null, \"error\": null}");
    assert_eq!(r, Err(incomplete()));
    let r = decode_api_response::<i32>("{\"data\": 5, \"error\": null}");
    assert_eq!(r, Ok(5));
}

#[test]
fn data_of_another_shape_is_a_bad_reply() {
    assert_eq!(decode_api_response::<RegistryResponse>("{\"data\": {\"token\": 5}}"), Err(bad_reply()));
    assert_eq!(decode_api_response::<RegistryResponse>("{\"data\": {}}"), Err(bad_reply()));
    assert_eq!(decode_api_response::<RegistryResponse>("{\"data\": \"abc123\"}"), Err(bad_reply()));
    assert_eq!(decode_api_response::<i32>("{\"data\": 2147483648}"), Err(bad_reply()));
}

#[test]
fn malformed_data_beside_an_error_is_a_bad_reply() {
    let r = decode_api_response::<RegistryResponse>("{\"data\": 1, \"error\": {\"message\": \"x\", \"code\": 4000}}");
    assert_eq!(r, Err(bad_reply()));
}

#[test]
fn error_of_another_shape_is_a_bad_reply() {
    assert_eq!(decode_api_response::<i32>("{\"error\": \"boom\"}"), Err(bad_reply()));
    assert_eq!(decode_api_response::<i32>("{\"error\": {\"message\": \"x\"}}"), Err(bad_reply()));
    assert_eq!(decode_api_response::<i32>("{\"error\": {\"code\": 4000}}"), Err(bad_reply()));
    assert_eq!(decode_api_response::<i32>("{\"error\": {\"message\": \"x\", \"code\": \"4000\"}}"), Err(bad_reply()));
    assert_eq!(decode_api_response::<i32>("{\"error\": {\"message\": \"x\", \"code\": 4000.5}}"), Err(bad_reply()));
}

#[test]
fn a_reply_that_is_no_object_is_a_bad_reply() {
    assert_eq!(decode_api_response::<i32>("[]"), Err(bad_reply()));
    assert_eq!(decode_api_response::<i32>("5"), Err(bad_reply()));
    assert_eq!(decode_api_response::<i32>("null"), Err(bad_reply()));
    assert_eq!(decode_api_response::<i32>(""), Err(bad_reply()));
}

#[test]
fn unknown_keys_are_ignored() {
    let r = decode_api_response::<RegistryResponse>("{\"data\": {\"token\": \"t\", \"agent\": {\"x\": 1}}, \"extra\": [1, 2]}");
    assert_eq!(r, Ok(RegistryResponse { token: "t".to_string() }));
}

#[test]
fn decode_api_json_takes_a_tree() {
    let j = object(vec![("data", object(vec![("token", text("abc123"))]))]);
    assert_eq!(decode_api_json::<RegistryResponse>(&j), Ok(RegistryResponse { token: "abc123".to_string() }));
    assert_eq!(decode_api_json::<RegistryResponse>(&object(vec![])), Err(incomplete()));
    assert_eq!(decode_api_json::<RegistryResponse>(&Json::Array(vec![])), Err(bad_reply()));
    let both = object(vec![
        ("data", object(vec![("token", text("abc123"))])),
        ("error", object(vec![("message", text("no")), ("code", Json::Int(4100))])),
    ]);
    assert_eq!(
        decode_api_json::<RegistryResponse>(&both),
        Err(ApiError { message: "no".to_string(), code: 4100, data: None })
    );
}

#[test]
fn envelope_decodes_all_three_fields() {
    let j = object(vec![
        ("data", Json::Int(7)),
        ("meta", object(vec![("total", Json::Int(30)), ("page", Json::Int(2)), ("limit", Json::Int(10))])),
        ("error", object(vec![("message", text("m")), ("code", Json::Int(4601))])),
    ]);
    assert_eq!(
        ApiResult::<i32>::from_json(&j, "response"),
        Ok(ApiResult {
            data: Some(7),
            meta: Some(Meta { total: 30, page: 2, limit: 10 }),
            error: Some(ApiError { message: "m".to_string(), code: 4601, data: None }),
        })
    );
}

#[test]
fn envelope_reports_the_first_field_that_fails() {
    let j = object(vec![("data", text("seven")), ("meta", Json::Int(1)), ("error", Json::Int(2))]);
    assert_eq!(
        ApiResult::<i32>::from_json(&j, "response"),
        Err(DecodeError::TypeMismatch { field: "data".to_string(), expected: Shape::I32, got: JsonKind::Str })
    );
    let j = object(vec![("data", Json::Int(7)), ("meta", Json::Int(1)), ("error", Json::Int(2))]);
    assert_eq!(
        ApiResult::<i32>::from_json(&j, "response"),
        Err(DecodeError::TypeMismatch { field: "meta".to_string(), expected: Shape::Object, got: JsonKind::Int })
    );
    assert_eq!(
        ApiResult::<i32>::from_json(&Json::Bool(true), "response"),
        Err(DecodeError::TypeMismatch { field: "response".to_string(), expected: Shape::Object, got: JsonKind::Bool })
    );
}

#[test]
fn to_result_prefers_the_error() {
    let e = ApiError { message: "m".to_string(), code: 4601, data: None };
    let envelope = ApiResult { data: Some(7), meta: None, error: Some(e) };
    assert_eq!(envelope.to_result(), Err(ApiError { message: "m".to_string(), code: 4601, data: None }));
}

#[test]
fn to_result_hands_out_the_data() {
    let envelope = ApiResult { data: Some(7), meta: Some(Meta { total: 1, page: 1, limit: 1 }), error: None };
    assert_eq!(envelope.to_result(), Ok(7));
}

#[test]
fn to_result_of_an_empty_envelope_is_the_fixed_failure() {
    let envelope: ApiResult<i32> = ApiResult { data: None, meta: None, error: None };
    assert_eq!(envelope.to_result(), Err(incomplete()));
    let envelope: ApiResult<i32> = ApiResult { data: None, meta: Some(Meta { total: 1, page: 1, limit: 1 }), error: None };
    assert_eq!(envelope.to_result(), Err(incomplete()));
}

#[test]
fn a_repeated_key_keeps_what_was_written_last() {
    assert_eq!(decode_api_response::<i32>("{\"data\": 1, \"data\": 2}"), Ok(2));
    assert_eq!(
        decode_api_response::<i32>("{\"error\": {\"message\": \"a\", \"code\": 4000}, \"error\": null, \"data\": 5}"),
        Ok(5)
    );
}
