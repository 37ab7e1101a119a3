use space_traders::decode::{DecodeError, FromJson, JsonKind, Shape};
use space_traders::json::Json;
use space_traders::responses::{decode_json, decode_response, ApiError, ApiResult, ErrorData, RegistryResponse};

fn tree(text: &str) -> Json {
    Json::parse(text).unwrap()
}

fn bad_reply() -> ApiError {
    ApiError { message: "badReplyError".to_string(), code: 6000, data: None }
}

fn incomplete() -> ApiError {
    ApiError { message: "Server did not return expected fields 'data' or 'error'".to_string(), code: 6000, data: None }
}

fn in_transit() -> ApiError {
    ApiError { message: "Ship in transit".to_string(), code: 4214, data: None }
}

#[test]
fn settled_data_is_the_payload() {
    assert_eq!(
        decode_response::<RegistryResponse>(r#"{"data": {"token": "abc123"}}"#),
        Ok(RegistryResponse { token: "abc123".to_string() })
    );
}

#[test]
fn settled_error_is_the_failure() {
    assert_eq!(
        decode_response::<RegistryResponse>(r#"{"error": {"message": "Ship in transit", "code": 4214}}"#),
        Err(in_transit())
    );
}

#[test]
fn settled_error_takes_precedence_over_data() {
    assert_eq!(
        decode_response::<RegistryResponse>(
            r#"{"data":{"token":"abc123"},"error":{"message":"Ship in transit","code":4214}}"#
        ),
        Err(in_transit())
    );
    assert_eq!(
        ApiResult::<i32>::from_json(&tree(r#"{"data": 1, "error": {"message": "Ship in transit", "code": 4214}}"#), "response"),
        Ok(ApiResult::Error(in_transit()))
    );
}

#[test]
fn settled_empty_envelope_is_incomplete() {
    assert_eq!(decode_response::<RegistryResponse>("{}"), Err(incomplete()));
    assert_eq!(decode_response::<i32>("{}"), Err(incomplete()));
    assert_eq!(ApiResult::<i32>::from_json(&tree("{}"), "response"), Ok(ApiResult::Error(incomplete())));
}

#[test]
fn settled_null_fields_count_as_absent() {
    assert_eq!(decode_response::<i32>(r#"{"data": null, "error": null}"#), Err(incomplete()));
    assert_eq!(decode_response::<i32>(r#"{"data": 3, "error": null}"#), Ok(3));
}

#[test]
fn settled_meta_is_dropped() {
    assert_eq!(decode_response::<i32>(r#"{"data": 1, "meta": {"total": 1, "page": 1, "limit": 10}}"#), Ok(1));
    assert_eq!(decode_response::<i32>(r#"{"meta": {"total": 1, "page": 1, "limit": 10}}"#), Err(incomplete()));
    assert_eq!(decode_response::<i32>(r#"{"data": 1, "meta": {}}"#), Err(bad_reply()));
}

#[test]
fn settled_unknown_keys_are_ignored() {
    assert_eq!(decode_response::<i32>(r#"{"Data": 1}"#), Err(incomplete()));
    assert_eq!(decode_response::<i32>(r#"{"data": 1, "trace": "x"}"#), Ok(1));
}

#[test]
fn settled_reply_must_be_an_object() {
    assert_eq!(
        ApiResult::<i32>::from_json(&tree("[1]"), "response"),
        Err(DecodeError::TypeMismatch { field: "response".to_string(), expected: Shape::Object, got: JsonKind::Array })
    );
    assert_eq!(decode_response::<i32>("[1]"), Err(bad_reply()));
    assert_eq!(decode_response::<i32>("not json"), Err(bad_reply()));
}

#[test]
fn settled_fields_of_another_shape_fail() {
    assert_eq!(
        ApiResult::<i32>::from_json(&tree(r#"{"data": "one"}"#), "response"),
        Err(DecodeError::TypeMismatch { field: "data".to_string(), expected: Shape::I32, got: JsonKind::Str })
    );
    assert_eq!(
        ApiResult::<i32>::from_json(&tree(r#"{"error": {"message": "m"}}"#), "response"),
        Err(DecodeError::MissingField { name: "code".to_string() })
    );
    assert_eq!(
        ApiResult::<i32>::from_json(&tree(r#"{"data": "one", "error": {"message": "m", "code": 4000}}"#), "response"),
        Err(DecodeError::TypeMismatch { field: "data".to_string(), expected: Shape::I32, got: JsonKind::Str })
    );
    assert_eq!(decode_response::<i32>(r#"{"data": "one"}"#), Err(bad_reply()));
    assert_eq!(decode_response::<i32>(r#"{"data": "one", "error": {"message": "m", "code": 4000}}"#), Err(bad_reply()));
}

#[test]
fn settled_decode_json_takes_a_tree() {
    assert_eq!(decode_json::<i32>(&tree(r#"{"data": 41}"#)), Ok(41));
    assert_eq!(decode_json::<i32>(&Json::Null), Err(bad_reply()));
    assert_eq!(decode_json::<i32>(&Json::Object(vec![])), Err(incomplete()));
}

#[test]
fn settled_to_result_splits_the_variants() {
    assert_eq!(ApiResult::Data(5).to_result(), Ok(5));
    let e = ApiError { message: "m".to_string(), code: 4000, data: None };
    assert_eq!(
        ApiResult::<i32>::Error(e).to_result(),
        Err(ApiError { message: "m".to_string(), code: 4000, data: None })
    );
}

#[test]
fn settled_render_shows_the_name_of_the_code() {
    assert_eq!(in_transit().render(), "SpaceTraders API error (code=shipInTransitError): Ship in transit");
    assert_eq!(in_transit().name(), "shipInTransitError");
    let e = ApiError { message: "m".to_string(), code: -7, data: None };
    assert_eq!(e.render(), "SpaceTraders API error (code=unknownError): m");
    assert_eq!(
        incomplete().render(),
        "SpaceTraders API error (code=badReplyError): Server did not return expected fields 'data' or 'error'"
    );
}

#[test]
fn settled_render_adds_the_detail() {
    let e = ApiError {
        message: "Missing".to_string(),
        code: 4218,
        data: Some(ErrorData { symbol: vec!["IRON".to_string(), "GOLD".to_string()] }),
    };
    assert_eq!(e.render(), "SpaceTraders API error (code=shipCargoMissingError): Missing\nAdditional info: IRON GOLD");
}

#[test]
fn settled_failures_of_the_decoder() {
    assert_eq!(ApiError::incomplete(), incomplete());
    assert_eq!(ApiError::bad_reply(), bad_reply());
}

#[test]
fn error_data_decodes_its_symbols() {
    assert_eq!(
        ErrorData::from_json(&tree(r#"{"symbol": ["A", "B"]}"#), "data"),
        Ok(ErrorData { symbol: vec!["A".to_string(), "B".to_string()] })
    );
    assert_eq!(
        ErrorData::from_json(&tree(r#"{"symbol": "A"}"#), "data"),
        Err(DecodeError::TypeMismatch { field: "symbol".to_string(), expected: Shape::Array, got: JsonKind::Str })
    );
}
