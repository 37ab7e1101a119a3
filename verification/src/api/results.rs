use vstd::prelude::*;
use vstd::string::*;
use crate::decode::{mismatch, mismatch_error, models, optional_field, optional_in, required_field, required_in, DecodeError, DecodeErrorView, FromJson, Shape};
use crate::json::{Json, JsonView};
use crate::responses::{ErrorData, ErrorDataModel};
use crate::schemas::{Meta, MetaModel};
use crate::text::{join, joined, texts};

verus! {

/// The code of the errors that this client makes itself.
pub const BAD_REPLY_CODE: i32 = 6000;

/// Whether the table of error names lists `code`. The table has five bands
/// of the server's codes, some of them with gaps, and one code of the
/// client's own.
pub open spec fn listed_code(code: int) -> bool {
    ||| 4000 <= code <= 4001
    ||| 4100 <= code <= 4109
    ||| (4200 <= code <= 4240 && code != 4209 && code != 4213)
    ||| (4500 <= code <= 4510 && code != 4507)
    ||| 4600 <= code <= 4604
    ||| code == 6000
}

/// The name that the table gives to `code`; `unknownError` for a code that
/// it does not list.
pub open spec fn error_name(code: int) -> Seq<char> {
    if code == 4000 {
        "cooldownConflictError"@
    } else if code == 4001 {
        "waypointNoAccessError"@
    } else if code == 4100 {
        "tokenEmptyError"@
    } else if code == 4101 {
        "tokenMissingSubjectError"@
    } else if code == 4102 {
        "tokenInvalidSubjectError"@
    } else if code == 4103 {
        "missingTokenRequestError"@
    } else if code == 4104 {
        "invalidTokenRequestError"@
    } else if code == 4105 {
        "invalidTokenSubjectError"@
    } else if code == 4106 {
        "accountNotExistsError"@
    } else if code == 4107 {
        "agentNotExistsError"@
    } else if code == 4108 {
        "accountHasNoAgentError"@
    } else if code == 4109 {
        "registerAgentExistsError"@
    } else if code == 4200 {
        "navigateInTransitError"@
    } else if code == 4201 {
        "navigateInvalidDestinationError"@
    } else if code == 4202 {
        "navigateOutsideSystemError"@
    } else if code == 4203 {
        "navigateInsufficientFuelError"@
    } else if code == 4204 {
        "navigateSameDestinationError"@
    } else if code == 4205 {
        "shipExtractInvalidWaypointError"@
    } else if code == 4206 {
        "shipExtractPermissionError"@
    } else if code == 4207 {
        "shipJumpNoSystemError"@
    } else if code == 4208 {
        "shipJumpSameSystemError"@
    } else if code == 4210 {
        "shipJumpMissingModuleError"@
    } else if code == 4211 {
        "shipJumpNoValidWaypointError"@
    } else if code == 4212 {
        "shipJumpMissingAntimatterError"@
    } else if code == 4214 {
        "shipInTransitError"@
    } else if code == 4215 {
        "shipMissingSensorArraysError"@
    } else if code == 4216 {
        "purchaseShipCreditsError"@
    } else if code == 4217 {
        "shipCargoExceedsLimitError"@
    } else if code == 4218 {
        "shipCargoMissingError"@
    } else if code == 4219 {
        "shipCargoUnitCountError"@
    } else if code == 4220 {
        "shipSurveyVerificationError"@
    } else if code == 4221 {
        "shipSurveyExpirationError"@
    } else if code == 4222 {
        "shipSurveyWaypointTypeError"@
    } else if code == 4223 {
        "shipSurveyOrbitError"@
    } else if code == 4224 {
        "shipSurveyExhaustedError"@
    } else if code == 4225 {
        "shipRefuelDockedError"@
    } else if code == 4226 {
        "shipRefuelInvalidWaypointError"@
    } else if code == 4227 {
        "shipMissingMountsError"@
    } else if code == 4228 {
        "shipCargoFullError"@
    } else if code == 4229 {
        "shipJumpFromGateToGateError"@
    } else if code == 4230 {
        "waypointChartedError"@
    } else if code == 4231 {
        "shipTransferShipNotFound"@
    } else if code == 4232 {
        "shipTransferAgentConflict"@
    } else if code == 4233 {
        "shipTransferSameShipConflict"@
    } else if code == 4234 {
        "shipTransferLocationConflict"@
    } else if code == 4235 {
        "warpInsideSystemError"@
    } else if code == 4236 {
        "shipNotInOrbitError"@
    } else if code == 4237 {
        "shipInvalidRefineryGoodError"@
    } else if code == 4238 {
        "shipInvalidRefineryTypeError"@
    } else if code == 4239 {
        "shipMissingRefineryError"@
    } else if code == 4240 {
        "shipMissingSurveyorError"@
    } else if code == 4500 {
        "acceptContractNotAuthorizedError"@
    } else if code == 4501 {
        "acceptContractConflictError"@
    } else if code == 4502 {
        "fulfillContractDeliveryError"@
    } else if code == 4503 {
        "contractDeadlineError"@
    } else if code == 4504 {
        "contractFulfilledError"@
    } else if code == 4505 {
        "contractNotAcceptedError"@
    } else if code == 4506 {
        "contractNotAuthorizedError"@
    } else if code == 4508 {
        "shipDeliverTermsError"@
    } else if code == 4509 {
        "shipDeliverFulfilledError"@
    } else if code == 4510 {
        "shipDeliverInvalidLocationError"@
    } else if code == 4600 {
        "marketTradeInsufficientCreditsError"@
    } else if code == 4601 {
        "marketTradeNoPurchaseError"@
    } else if code == 4602 {
        "marketTradeNotSoldError"@
    } else if code == 4603 {
        "marketNotFoundError"@
    } else if code == 4604 {
        "marketTradeUnitLimitError"@
    } else if code == 6000 {
        "badReplyError"@
    } else {
        "unknownError"@
    }
}

/// The stable name of an error code. Every code has a name: one that the
/// table does not list is named `unknownError`.
pub fn get_error_name(code: i32) -> (name: &'static str)
    ensures
        name@ == error_name(code as int),
        !listed_code(code as int) ==> name@ == "unknownError"@,
{
    match code {
        4000 => "cooldownConflictError",
        4001 => "waypointNoAccessError",
        4100 => "tokenEmptyError",
        4101 => "tokenMissingSubjectError",
        4102 => "tokenInvalidSubjectError",
        4103 => "missingTokenRequestError",
        4104 => "invalidTokenRequestError",
        4105 => "invalidTokenSubjectError",
        4106 => "accountNotExistsError",
        4107 => "agentNotExistsError",
        4108 => "accountHasNoAgentError",
        4109 => "registerAgentExistsError",
        4200 => "navigateInTransitError",
        4201 => "navigateInvalidDestinationError",
        4202 => "navigateOutsideSystemError",
        4203 => "navigateInsufficientFuelError",
        4204 => "navigateSameDestinationError",
        4205 => "shipExtractInvalidWaypointError",
        4206 => "shipExtractPermissionError",
        4207 => "shipJumpNoSystemError",
        4208 => "shipJumpSameSystemError",
        4210 => "shipJumpMissingModuleError",
        4211 => "shipJumpNoValidWaypointError",
        4212 => "shipJumpMissingAntimatterError",
        4214 => "shipInTransitError",
        4215 => "shipMissingSensorArraysError",
        4216 => "purchaseShipCreditsError",
        4217 => "shipCargoExceedsLimitError",
        4218 => "shipCargoMissingError",
        4219 => "shipCargoUnitCountError",
        4220 => "shipSurveyVerificationError",
        4221 => "shipSurveyExpirationError",
        4222 => "shipSurveyWaypointTypeError",
        4223 => "shipSurveyOrbitError",
        4224 => "shipSurveyExhaustedError",
        4225 => "shipRefuelDockedError",
        4226 => "shipRefuelInvalidWaypointError",
        4227 => "shipMissingMountsError",
        4228 => "shipCargoFullError",
        4229 => "shipJumpFromGateToGateError",
        4230 => "waypointChartedError",
        4231 => "shipTransferShipNotFound",
        4232 => "shipTransferAgentConflict",
        4233 => "shipTransferSameShipConflict",
        4234 => "shipTransferLocationConflict",
        4235 => "warpInsideSystemError",
        4236 => "shipNotInOrbitError",
        4237 => "shipInvalidRefineryGoodError",
        4238 => "shipInvalidRefineryTypeError",
        4239 => "shipMissingRefineryError",
        4240 => "shipMissingSurveyorError",
        4500 => "acceptContractNotAuthorizedError",
        4501 => "acceptContractConflictError",
        4502 => "fulfillContractDeliveryError",
        4503 => "contractDeadlineError",
        4504 => "contractFulfilledError",
        4505 => "contractNotAcceptedError",
        4506 => "contractNotAuthorizedError",
        4508 => "shipDeliverTermsError",
        4509 => "shipDeliverFulfilledError",
        4510 => "shipDeliverInvalidLocationError",
        4600 => "marketTradeInsufficientCreditsError",
        4601 => "marketTradeNoPurchaseError",
        4602 => "marketTradeNotSoldError",
        4603 => "marketNotFoundError",
        4604 => "marketTradeUnitLimitError",
        6000 => "badReplyError",
        _ => "unknownError",
    }
}

/// The table names a code `unknownError` exactly when it does not list the
/// code.
pub proof fn lemma_unknown_iff_unlisted(code: int)
    ensures
        error_name(code) == "unknownError"@ <==> !listed_code(code),
{
    reveal_strlit("unknownError");
    reveal_strlit("cooldownConflictError");
    reveal_strlit("waypointNoAccessError");
    reveal_strlit("tokenEmptyError");
    reveal_strlit("tokenMissingSubjectError");
    reveal_strlit("tokenInvalidSubjectError");
    reveal_strlit("missingTokenRequestError");
    reveal_strlit("invalidTokenRequestError");
    reveal_strlit("invalidTokenSubjectError");
    reveal_strlit("accountNotExistsError");
    reveal_strlit("agentNotExistsError");
    reveal_strlit("accountHasNoAgentError");
    reveal_strlit("registerAgentExistsError");
    reveal_strlit("navigateInTransitError");
    reveal_strlit("navigateInvalidDestinationError");
    reveal_strlit("navigateOutsideSystemError");
    reveal_strlit("navigateInsufficientFuelError");
    reveal_strlit("navigateSameDestinationError");
    reveal_strlit("shipExtractInvalidWaypointError");
    reveal_strlit("shipExtractPermissionError");
    reveal_strlit("shipJumpNoSystemError");
    reveal_strlit("shipJumpSameSystemError");
    reveal_strlit("shipJumpMissingModuleError");
    reveal_strlit("shipJumpNoValidWaypointError");
    reveal_strlit("shipJumpMissingAntimatterError");
    reveal_strlit("shipInTransitError");
    reveal_strlit("shipMissingSensorArraysError");
    reveal_strlit("purchaseShipCreditsError");
    reveal_strlit("shipCargoExceedsLimitError");
    reveal_strlit("shipCargoMissingError");
    reveal_strlit("shipCargoUnitCountError");
    reveal_strlit("shipSurveyVerificationError");
    reveal_strlit("shipSurveyExpirationError");
    reveal_strlit("shipSurveyWaypointTypeError");
    reveal_strlit("shipSurveyOrbitError");
    reveal_strlit("shipSurveyExhaustedError");
    reveal_strlit("shipRefuelDockedError");
    reveal_strlit("shipRefuelInvalidWaypointError");
    reveal_strlit("shipMissingMountsError");
    reveal_strlit("shipCargoFullError");
    reveal_strlit("shipJumpFromGateToGateError");
    reveal_strlit("waypointChartedError");
    reveal_strlit("shipTransferShipNotFound");
    reveal_strlit("shipTransferAgentConflict");
    reveal_strlit("shipTransferSameShipConflict");
    reveal_strlit("shipTransferLocationConflict");
    reveal_strlit("warpInsideSystemError");
    reveal_strlit("shipNotInOrbitError");
    reveal_strlit("shipInvalidRefineryGoodError");
    reveal_strlit("shipInvalidRefineryTypeError");
    reveal_strlit("shipMissingRefineryError");
    reveal_strlit("shipMissingSurveyorError");
    reveal_strlit("acceptContractNotAuthorizedError");
    reveal_strlit("acceptContractConflictError");
    reveal_strlit("fulfillContractDeliveryError");
    reveal_strlit("contractDeadlineError");
    reveal_strlit("contractFulfilledError");
    reveal_strlit("contractNotAcceptedError");
    reveal_strlit("contractNotAuthorizedError");
    reveal_strlit("shipDeliverTermsError");
    reveal_strlit("shipDeliverFulfilledError");
    reveal_strlit("shipDeliverInvalidLocationError");
    reveal_strlit("marketTradeInsufficientCreditsError");
    reveal_strlit("marketTradeNoPurchaseError");
    reveal_strlit("marketTradeNotSoldError");
    reveal_strlit("marketNotFoundError");
    reveal_strlit("marketTradeUnitLimitError");
    reveal_strlit("badReplyError");
    if listed_code(code) {
        assert(error_name(code).len() != 12 || error_name(code)[0] != 'u');
    }
}

/// A failure that the server reports, or that this client makes in its place.
#[derive(Debug, PartialEq, Eq)]
pub struct ApiError {
    pub message: String,
    pub code: i32,
    pub data: Option<ErrorData>,
}

/// The mathematical value of an `ApiError`.
pub struct ApiErrorModel {
    pub message: Seq<char>,
    pub code: i32,
    pub data: Option<ErrorDataModel>,
}

impl FromJson for ApiError {
    type Model = ApiErrorModel;

    open spec fn model(&self) -> ApiErrorModel {
        ApiErrorModel {
            message: self.message.model(),
            code: self.code.model(),
            data: self.data.model(),
        }
    }

    open spec fn parsed(j: JsonView, field: Seq<char>) -> Result<ApiErrorModel, DecodeErrorView> {
        match j {
            JsonView::Object(entries) => {
                let message = required_in::<String>(entries, "message"@);
                let code = required_in::<i32>(entries, "code"@);
                let data = optional_in::<ErrorData>(entries, "data"@);
                if message is Err {
                    Err(message->Err_0)
                } else if code is Err {
                    Err(code->Err_0)
                } else if data is Err {
                    Err(data->Err_0)
                } else {
                    Ok(ApiErrorModel {
                        message: message->Ok_0,
                        code: code->Ok_0,
                        data: data->Ok_0,
                    })
                }
            },
            _ => Err(mismatch(j, field, Shape::Object)),
        }
    }

    fn from_json(j: &Json, field: &str) -> (r: Result<ApiError, DecodeError>) {
        match j {
            Json::Object(_) => {},
            _ => {
                return Err(mismatch_error(j, field, Shape::Object));
            },
        }
        let message = required_field::<String>(j, "message")?;
        let code = required_field::<i32>(j, "code")?;
        let data = optional_field::<ErrorData>(j, "data")?;
        Ok(ApiError { message, code, data })
    }
}

/// The envelope of every reply: the payload, the place in a list, or a failure.
#[derive(Debug, PartialEq, Eq)]
pub struct ApiResult<T> {
    pub data: Option<T>,
    pub meta: Option<Meta>,
    pub error: Option<ApiError>,
}

/// The mathematical value of an `ApiResult`.
pub struct ApiResultModel<M> {
    pub data: Option<M>,
    pub meta: Option<MetaModel>,
    pub error: Option<ApiErrorModel>,
}

impl<T: FromJson> FromJson for ApiResult<T> {
    type Model = ApiResultModel<T::Model>;

    open spec fn model(&self) -> ApiResultModel<T::Model> {
        ApiResultModel {
            data: self.data.model(),
            meta: self.meta.model(),
            error: self.error.model(),
        }
    }

    open spec fn parsed(j: JsonView, field: Seq<char>) -> Result<ApiResultModel<T::Model>, DecodeErrorView> {
        match j {
            JsonView::Object(entries) => {
                let data = optional_in::<T>(entries, "data"@);
                let meta = optional_in::<Meta>(entries, "meta"@);
                let error = optional_in::<ApiError>(entries, "error"@);
                if data is Err {
                    Err(data->Err_0)
                } else if meta is Err {
                    Err(meta->Err_0)
                } else if error is Err {
                    Err(error->Err_0)
                } else {
                    Ok(ApiResultModel {
                        data: data->Ok_0,
                        meta: meta->Ok_0,
                        error: error->Ok_0,
                    })
                }
            },
            _ => Err(mismatch(j, field, Shape::Object)),
        }
    }

    fn from_json(j: &Json, field: &str) -> (r: Result<ApiResult<T>, DecodeError>) {
        match j {
            Json::Object(_) => {},
            _ => {
                return Err(mismatch_error(j, field, Shape::Object));
            },
        }
        let data = optional_field::<T>(j, "data")?;
        let meta = optional_field::<Meta>(j, "meta")?;
        let error = optional_field::<ApiError>(j, "error")?;
        Ok(ApiResult { data, meta, error })
    }
}

impl View for ApiError {
    type V = ApiErrorModel;

    open spec fn view(&self) -> ApiErrorModel {
        self.model()
    }
}

/// The failure that stands for a reply that holds neither payload nor
/// failure.
pub open spec fn incomplete_reply() -> ApiErrorModel {
    ApiErrorModel { message: "Server did not return expected fields 'data' or 'error'"@, code: BAD_REPLY_CODE, data: None }
}

/// The failure that stands for a reply that is not JSON, or not of the
/// declared shape.
pub open spec fn bad_reply() -> ApiErrorModel {
    ApiErrorModel { message: "badReplyError"@, code: BAD_REPLY_CODE, data: None }
}

/// The text that shows a failure: the name of its code and its message, and
/// on a second line the items of its detail, where it has one.
pub open spec fn rendered(e: ApiErrorModel) -> Seq<char> {
    let head = "SpaceTraders API error (code="@ + error_name(e.code as int) + "): "@ + e.message;
    match e.data {
        Some(detail) => head + "\nAdditional info: "@ + joined(detail.symbol, " "@),
        None => head,
    }
}

impl ApiError {
    /// The failure for a reply that holds neither payload nor failure.
    pub fn incomplete() -> (e: ApiError)
        ensures
            e@ == incomplete_reply(),
    {
        ApiError {
            message: "Server did not return expected fields 'data' or 'error'".to_owned(),
            code: BAD_REPLY_CODE,
            data: None,
        }
    }

    /// The failure for a reply that could not be decoded.
    pub fn bad_reply() -> (e: ApiError)
        ensures
            e@ == bad_reply(),
    {
        ApiError { message: "badReplyError".to_owned(), code: BAD_REPLY_CODE, data: None }
    }

    /// The stable name of this failure's code.
    pub fn name(&self) -> (name: &'static str)
        ensures
            name@ == error_name(self.code as int),
    {
        get_error_name(self.code)
    }

    /// The text that shows this failure.
    pub fn render(&self) -> (s: String)
        ensures
            s@ == rendered(self@),
    {
        let mut out = String::new();
        out.append("SpaceTraders API error (code=");
        out.append(get_error_name(self.code));
        out.append("): ");
        out.append(self.message.as_str());
        match &self.data {
            Some(detail) => {
                proof {
                    assert(models::<String>(detail.symbol@) =~= texts(detail.symbol@));
                }
                let items = join(&detail.symbol, " ");
                out.append("\nAdditional info: ");
                out.append(items.as_str());
            },
            None => {},
        }
        out
    }
}

/// What an envelope comes to: its failure where it holds one, whatever else
/// it holds; else its payload; else the failure for an incomplete reply.
pub open spec fn outcome<M>(envelope: ApiResultModel<M>) -> Result<M, ApiErrorModel> {
    match envelope.error {
        Some(e) => Err(e),
        None => match envelope.data {
            Some(d) => Ok(d),
            None => Err(incomplete_reply()),
        },
    }
}

impl<T> ApiResult<T> {
    /// Turns the envelope into its payload or its failure. A failure takes
    /// precedence over a payload; the place in a list is dropped.
    pub fn to_result(self) -> (r: Result<T, ApiError>)
        ensures
            self.error matches Some(e) ==> r == Err::<T, ApiError>(e),
            self.error is None ==> (self.data matches Some(d) ==> r == Ok::<T, ApiError>(d)),
            self.error is None && self.data is None ==> (r matches Err(e) && e@ == incomplete_reply()),
    {
        if let Some(error) = self.error {
            Err(error)
        } else if let Some(data) = self.data {
            Ok(data)
        } else {
            Err(ApiError::incomplete())
        }
    }
}

/// An envelope that holds a failure comes to that failure, also where it
/// holds a payload beside it.
pub proof fn lemma_failure_precedes_payload<M>(envelope: ApiResultModel<M>)
    requires
        envelope.error is Some,
    ensures
        outcome(envelope) == Err::<M, ApiErrorModel>(envelope.error->Some_0),
{
}

} // verus!
