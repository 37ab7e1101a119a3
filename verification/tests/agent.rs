use space_traders::agent::{registered_token, registered_token_in, registration, Registration, REGISTER_URL};
use space_traders::api::results::ApiError;
use space_traders::json::Json;

#[test]
fn registration_defaults_to_cosmic() {
    assert_eq!(
        registration("HAL9000", None),
        Registration { symbol: "HAL9000".to_string(), faction: "COSMIC".to_string() }
    );
}

#[test]
fn registration_keeps_the_named_faction() {
    assert_eq!(
        registration("HAL9000", Some("VOID")),
        Registration { symbol: "HAL9000".to_string(), faction: "VOID".to_string() }
    );
    assert_eq!(registration("", Some("")), Registration { symbol: "".to_string(), faction: "".to_string() });
}

#[test]
fn register_url_is_the_version_two_endpoint() {
    assert_eq!(REGISTER_URL, "https://api.spacetraders.io/v2/register");
}

#[test]
fn registered_token_reads_the_token() {
    assert_eq!(registered_token("{\"data\": {\"token\": \"abc123\"}}"), Ok("abc123".to_string()));
    assert_eq!(
        registered_token("{\"data\": {\"token\": \"abc123\", \"agent\": {}, \"ship\": {}}}"),
        Ok("abc123".to_string())
    );
}

#[test]
fn registered_token_hands_the_failure_on() {
    assert_eq!(
        registered_token("{\"error\": {\"message\": \"Agent symbol taken\", \"code\": 4109}}"),
        Err(ApiError { message: "Agent symbol taken".to_string(), code: 4109, data: None })
    );
    assert_eq!(
        registered_token("<html>"),
        Err(ApiError { message: "badReplyError".to_string(), code: 6000, data: None })
    );
    assert_eq!(
        registered_token("{}"),
        Err(ApiError {
            message: "Server did not return expected fields 'data' or 'error'".to_string(),
            code: 6000,
            data: None
        })
    );
}

#[test]
fn registered_token_in_takes_a_tree() {
    let j = Json::Object(vec![(
        "data".to_string(),
        Json::Object(vec![("token".to_string(), Json::Str("t0".to_string()))]),
    )]);
    assert_eq!(registered_token_in(&j), Ok("t0".to_string()));
    assert_eq!(
        registered_token_in(&Json::Int(3)),
        Err(ApiError { message: "badReplyError".to_string(), code: 6000, data: None })
    );
}
