use space_traders::api::results::{get_error_name, ApiError, BAD_REPLY_CODE};
use space_traders::responses::ErrorData;

#[test]
fn names_of_the_general_band() {
    assert_eq!(get_error_name(4000), "cooldownConflictError");
    assert_eq!(get_error_name(4001), "waypointNoAccessError");
}

#[test]
fn names_of_the_account_band() {
    assert_eq!(get_error_name(4100), "tokenEmptyError");
    assert_eq!(get_error_name(4104), "invalidTokenRequestError");
    assert_eq!(get_error_name(4109), "registerAgentExistsError");
}

#[test]
fn names_of_the_ship_band() {
    assert_eq!(get_error_name(4200), "navigateInTransitError");
    assert_eq!(get_error_name(4203), "navigateInsufficientFuelError");
    assert_eq!(get_error_name(4214), "shipInTransitError");
    assert_eq!(get_error_name(4228), "shipCargoFullError");
    assert_eq!(get_error_name(4231), "shipTransferShipNotFound");
    assert_eq!(get_error_name(4240), "shipMissingSurveyorError");
}

#[test]
fn names_of_the_contract_band() {
    assert_eq!(get_error_name(4500), "acceptContractNotAuthorizedError");
    assert_eq!(get_error_name(4506), "contractNotAuthorizedError");
    assert_eq!(get_error_name(4508), "shipDeliverTermsError");
    assert_eq!(get_error_name(4510), "shipDeliverInvalidLocationError");
}

#[test]
fn names_of_the_market_band() {
    assert_eq!(get_error_name(4600), "marketTradeInsufficientCreditsError");
    assert_eq!(get_error_name(4603), "marketNotFoundError");
    assert_eq!(get_error_name(4604), "marketTradeUnitLimitError");
}

#[test]
fn name_of_the_clients_own_code() {
    assert_eq!(BAD_REPLY_CODE, 6000);
    assert_eq!(get_error_name(6000), "badReplyError");
}

#[test]
fn gaps_within_the_bands_are_unknown() {
    assert_eq!(get_error_name(4209), "unknownError");
    assert_eq!(get_error_name(4213), "unknownError");
    assert_eq!(get_error_name(4507), "unknownError");
}

#[test]
fn codes_next_to_the_bands_are_unknown() {
    for code in [3999, 4002, 4099, 4110, 4199, 4241, 4499, 4511, 4599, 4605, 5999, 6001] {
        assert_eq!(get_error_name(code), "unknownError");
    }
}

#[test]
fn every_code_has_a_name() {
    for code in [i32::MIN, -6000, -1, 0, 1, 200, 404, 9999, 60000, i32::MAX] {
        assert_eq!(get_error_name(code), "unknownError");
    }
}

#[test]
fn the_table_lists_sixty_seven_codes() {
    let mut listed = 0;
    for code in 0..10_000 {
        if get_error_name(code) != "unknownError" {
            listed += 1;
        }
    }
    assert_eq!(listed, 67);
}

#[test]
fn name_is_the_name_of_the_code() {
    let e = ApiError { message: "Ship in transit".to_string(), code: 4214, data: None };
    assert_eq!(e.name(), "shipInTransitError");
    let e = ApiError { message: "x".to_string(), code: 9999, data: None };
    assert_eq!(e.name(), "unknownError");
}

#[test]
fn render_without_detail_is_one_line() {
    let e = ApiError { message: "Ship in transit".to_string(), code: 4214, data: None };
    assert_eq!(e.render(), "SpaceTraders API error (code=shipInTransitError): Ship in transit");
}

#[test]
fn render_with_detail_adds_a_line() {
    let e = ApiError {
        message: "Missing goods".to_string(),
        code: 4218,
        data: Some(ErrorData { symbol: vec!["IRON_ORE".to_string(), "COPPER_ORE".to_string()] }),
    };
    assert_eq!(
        e.render(),
        "SpaceTraders API error (code=shipCargoMissingError): Missing goods\nAdditional info: IRON_ORE COPPER_ORE"
    );
}

#[test]
fn render_with_empty_detail_keeps_the_line() {
    let e = ApiError { message: "m".to_string(), code: 4000, data: Some(ErrorData { symbol: vec![] }) };
    assert_eq!(e.render(), "SpaceTraders API error (code=cooldownConflictError): m\nAdditional info: ");
}

#[test]
fn render_of_an_unknown_code() {
    let e = ApiError { message: "".to_string(), code: -5, data: None };
    assert_eq!(e.render(), "SpaceTraders API error (code=unknownError): ");
}

#[test]
fn incomplete_is_the_fixed_failure() {
    assert_eq!(
        ApiError::incomplete(),
        ApiError {
            message: "Server did not return expected fields 'data' or 'error'".to_string(),
            code: 6000,
            data: None,
        }
    );
    assert_eq!(
        ApiError::incomplete().render(),
        "SpaceTraders API error (code=badReplyError): Server did not return expected fields 'data' or 'error'"
    );
}

#[test]
fn bad_reply_is_the_fixed_failure() {
    assert_eq!(ApiError::bad_reply(), ApiError { message: "badReplyError".to_string(), code: 6000, data: None });
}
