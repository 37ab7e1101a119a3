use vstd::prelude::*;
use vstd::string::*;
use crate::api::results::{error_name, get_error_name, BAD_REPLY_CODE};
use crate::decode::{lookup, mismatch, mismatch_error, models, optional_field, optional_in, required_field, required_in, DecodeError, DecodeErrorView, FromJson, Shape};
use crate::json::parse::parsed_text;
use crate::json::{Json, JsonView};
use crate::schemas::Meta;
use crate::text::{join, joined, texts};

verus! {

/// The detail of a failure: the symbols it is about.
#[derive(Debug, PartialEq, Eq)]
pub struct ErrorData {
    pub symbol: Vec<String>,
}

/// The mathematical value of an `ErrorData`.
pub struct ErrorDataModel {
    pub symbol: Seq<Seq<char>>,
}

impl FromJson for ErrorData {
    type Model = ErrorDataModel;

    open spec fn model(&self) -> ErrorDataModel {
        ErrorDataModel {
            symbol: self.symbol.model(),
        }
    }

    open spec fn parsed(j: JsonView, field: Seq<char>) -> Result<ErrorDataModel, DecodeErrorView> {
        match j {
            JsonView::Object(entries) => {
                let symbol = required_in::<Vec<String>>(entries, "symbol"@);
                if symbol is Err {
                    Err(symbol->Err_0)
                } else {
                    Ok(ErrorDataModel {
                        symbol: symbol->Ok_0,
                    })
                }
            },
            _ => Err(mismatch(j, field, Shape::Object)),
        }
    }

    fn from_json(j: &Json, field: &str) -> (r: Result<ErrorData, DecodeError>) {
        match j {
            Json::Object(_) => {},
            _ => {
                return Err(mismatch_error(j, field, Shape::Object));
            },
        }
        let symbol = required_field::<Vec<String>>(j, "symbol")?;
        Ok(ErrorData { symbol })
    }
}

/// A failure that the server reports, or that this client makes in its place.
#[derive(Debug, PartialEq, Eq)]
pub struct ApiError {
    pub message: String,
    pub code: i32,
    pub data: Option<ErrorData>,
}

/// The mathematical value of an `ApiError`.
pub struct ApiErrorModel {
    pub message: Seq<char>,
    pub code: i32,
    pub data: Option<ErrorDataModel>,
}

impl FromJson for ApiError {
    type Model = ApiErrorModel;

    open spec fn model(&self) -> ApiErrorModel {
        ApiErrorModel {
            message: self.message.model(),
            code: self.code.model(),
            data: self.data.model(),
        }
    }

    open spec fn parsed(j: JsonView, field: Seq<char>) -> Result<ApiErrorModel, DecodeErrorView> {
        match j {
            JsonView::Object(entries) => {
                let message = required_in::<String>(entries, "message"@);
                let code = required_in::<i32>(entries, "code"@);
                let data = optional_in::<ErrorData>(entries, "data"@);
                if message is Err {
                    Err(message->Err_0)
                } else if code is Err {
                    Err(code->Err_0)
                } else if data is Err {
                    Err(data->Err_0)
                } else {
                    Ok(ApiErrorModel {
                        message: message->Ok_0,
                        code: code->Ok_0,
                        data: data->Ok_0,
                    })
                }
            },
            _ => Err(mismatch(j, field, Shape::Object)),
        }
    }

    fn from_json(j: &Json, field: &str) -> (r: Result<ApiError, DecodeError>) {
        match j {
            Json::Object(_) => {},
            _ => {
                return Err(mismatch_error(j, field, Shape::Object));
            },
        }
        let message = required_field::<String>(j, "message")?;
        let code = required_field::<i32>(j, "code")?;
        let data = optional_field::<ErrorData>(j, "data")?;
        Ok(ApiError { message, code, data })
    }
}

/// The reply to a registration, read for its token alone.
#[derive(Debug, PartialEq, Eq)]
pub struct RegistryResponse {
    pub token: String,
}

/// The mathematical value of a `RegistryResponse`.
pub struct RegistryResponseModel {
    pub token: Seq<char>,
}

impl FromJson for RegistryResponse {
    type Model = RegistryResponseModel;

    open spec fn model(&self) -> RegistryResponseModel {
        RegistryResponseModel {
            token: self.token.model(),
        }
    }

    open spec fn parsed(j: JsonView, field: Seq<char>) -> Result<RegistryResponseModel, DecodeErrorView> {
        match j {
            JsonView::Object(entries) => {
                let token = required_in::<String>(entries, "token"@);
                if token is Err {
                    Err(token->Err_0)
                } else {
                    Ok(RegistryResponseModel {
                        token: token->Ok_0,
                    })
                }
            },
            _ => Err(mismatch(j, field, Shape::Object)),
        }
    }

    fn from_json(j: &Json, field: &str) -> (r: Result<RegistryResponse, DecodeError>) {
        match j {
            Json::Object(_) => {},
            _ => {
                return Err(mismatch_error(j, field, Shape::Object));
            },
        }
        let token = required_field::<String>(j, "token")?;
        Ok(RegistryResponse { token })
    }
}

impl View for ApiError {
    type V = ApiErrorModel;

    open spec fn view(&self) -> ApiErrorModel {
        self.model()
    }
}

/// The failure that stands for a reply that holds neither payload nor
/// failure.
pub open spec fn incomplete_reply() -> ApiErrorModel {
    ApiErrorModel { message: "Server did not return expected fields 'data' or 'error'"@, code: BAD_REPLY_CODE, data: None }
}

/// The failure that stands for a reply that is not JSON, or not of the
/// declared shape.
pub open spec fn bad_reply() -> ApiErrorModel {
    ApiErrorModel { message: "badReplyError"@, code: BAD_REPLY_CODE, data: None }
}

/// The text that shows a failure: the name of its code and its message, and
/// on a second line the items of its detail, where it has one.
pub open spec fn rendered(e: ApiErrorModel) -> Seq<char> {
    let head = "SpaceTraders API error (code="@ + error_name(e.code as int) + "): "@ + e.message;
    match e.data {
        Some(detail) => head + "\nAdditional info: "@ + joined(detail.symbol, " "@),
        None => head,
    }
}

impl ApiError {
    /// The failure for a reply that holds neither payload nor failure.
    pub fn incomplete() -> (e: ApiError)
        ensures
            e@ == incomplete_reply(),
    {
        ApiError {
            message: "Server did not return expected fields 'data' or 'error'".to_owned(),
            code: BAD_REPLY_CODE,
            data: None,
        }
    }

    /// The failure for a reply that could not be decoded.
    pub fn bad_reply() -> (e: ApiError)
        ensures
            e@ == bad_reply(),
    {
        ApiError { message: "badReplyError".to_owned(), code: BAD_REPLY_CODE, data: None }
    }

    /// The stable name of this failure's code.
    pub fn name(&self) -> (name: &'static str)
        ensures
            name@ == error_name(self.code as int),
    {
        get_error_name(self.code)
    }

    /// The text that shows this failure.
    pub fn render(&self) -> (s: String)
        ensures
            s@ == rendered(self@),
    {
        let mut out = String::new();
        out.append("SpaceTraders API error (code=");
        out.append(get_error_name(self.code));
        out.append("): ");
        out.append(self.message.as_str());
        match &self.data {
            Some(detail) => {
                proof {
                    assert(models::<String>(detail.symbol@) =~= texts(detail.symbol@));
                }
                let items = join(&detail.symbol, " ");
                out.append("\nAdditional info: ");
                out.append(items.as_str());
            },
            None => {},
        }
        out
    }
}

/// A reply that has been settled: its payload, or its failure.
#[derive(Debug, PartialEq, Eq)]
pub enum ApiResult<T> {
    Data(T),
    Error(ApiError),
}

/// The mathematical value of an `ApiResult`.
pub enum ApiResultModel<M> {
    Data(M),
    Error(ApiErrorModel),
}

/// What an envelope settles to, given what stands under its keys `data` and
/// `error`: the failure where there is one, whatever else there is; else the
/// payload; else the failure for an incomplete reply.
pub open spec fn settled<M>(data: Option<M>, error: Option<ApiErrorModel>) -> ApiResultModel<M> {
    match error {
        Some(e) => ApiResultModel::Error(e),
        None => match data {
            Some(d) => ApiResultModel::Data(d),
            None => ApiResultModel::Error(incomplete_reply()),
        },
    }
}

impl<T: FromJson> FromJson for ApiResult<T> {
    type Model = ApiResultModel<T::Model>;

    open spec fn model(&self) -> ApiResultModel<T::Model> {
        match self {
            ApiResult::Data(d) => ApiResultModel::Data(d.model()),
            ApiResult::Error(e) => ApiResultModel::Error(e.model()),
        }
    }

    open spec fn parsed(j: JsonView, field: Seq<char>) -> Result<ApiResultModel<T::Model>, DecodeErrorView> {
        match j {
            JsonView::Object(entries) => {
                let data = optional_in::<T>(entries, "data"@);
                let meta = optional_in::<Meta>(entries, "meta"@);
                let error = optional_in::<ApiError>(entries, "error"@);
                if data is Err {
                    Err(data->Err_0)
                } else if meta is Err {
                    Err(meta->Err_0)
                } else if error is Err {
                    Err(error->Err_0)
                } else {
                    Ok(settled(data->Ok_0, error->Ok_0))
                }
            },
            _ => Err(mismatch(j, field, Shape::Object)),
        }
    }

    fn from_json(j: &Json, field: &str) -> (r: Result<ApiResult<T>, DecodeError>) {
        match j {
            Json::Object(_) => {},
            _ => {
                return Err(mismatch_error(j, field, Shape::Object));
            },
        }
        let data = optional_field::<T>(j, "data")?;
        let _meta = optional_field::<Meta>(j, "meta")?;
        let error = optional_field::<ApiError>(j, "error")?;
        if let Some(e) = error {
            Ok(ApiResult::Error(e))
        } else if let Some(d) = data {
            Ok(ApiResult::Data(d))
        } else {
            Ok(ApiResult::Error(ApiError::incomplete()))
        }
    }
}

impl<T> ApiResult<T> {
    /// Turns the reply into its payload or its failure.
    pub fn to_result(self) -> (r: Result<T, ApiError>)
        ensures
            r == (match self {
                ApiResult::Data(d) => Ok::<T, ApiError>(d),
                ApiResult::Error(e) => Err::<T, ApiError>(e),
            }),
    {
        match self {
            ApiResult::Data(d) => Ok(d),
            ApiResult::Error(e) => Err(e),
        }
    }
}

/// What a settled reply comes to.
pub open spec fn outcome<M>(reply: ApiResultModel<M>) -> Result<M, ApiErrorModel> {
    match reply {
        ApiResultModel::Data(d) => Ok(d),
        ApiResultModel::Error(e) => Err(e),
    }
}

/// What the tree of a reply comes to, decoded for a payload of type `T`: the
/// failure for a bad reply where the tree is no envelope of that shape, and
/// otherwise what the envelope settles to.
pub open spec fn reply_of<T: FromJson>(j: JsonView) -> Result<T::Model, ApiErrorModel> {
    match ApiResult::<T>::parsed(j, "response"@) {
        Ok(reply) => outcome(reply),
        Err(_) => Err(bad_reply()),
    }
}

/// What the text of a reply comes to, given the tree that the text denotes,
/// if it denotes one.
pub open spec fn response_of<T: FromJson>(tree: Option<JsonView>) -> Result<T::Model, ApiErrorModel> {
    match tree {
        Some(j) => reply_of::<T>(j),
        None => Err(bad_reply()),
    }
}

/// Decodes the tree of a reply into its payload or its failure.
pub fn decode_json<T: FromJson>(j: &Json) -> (r: Result<T, ApiError>)
    ensures
        match r {
            Ok(v) => reply_of::<T>(j@) == Ok::<T::Model, ApiErrorModel>(v.model()),
            Err(e) => reply_of::<T>(j@) == Err::<T::Model, ApiErrorModel>(e@),
        },
{
    match ApiResult::<T>::from_json(j, "response") {
        Ok(reply) => reply.to_result(),
        Err(_) => Err(ApiError::bad_reply()),
    }
}

/// Decodes the text of a reply into its payload or its failure. A text that
/// is not JSON, or not an envelope of the declared shape, is a failure of
/// the same kind as those the server reports.
pub fn decode_response<T: FromJson>(s: &str) -> (r: Result<T, ApiError>)
    ensures
        match r {
            Ok(v) => response_of::<T>(parsed_text(s@)) == Ok::<T::Model, ApiErrorModel>(v.model()),
            Err(e) => response_of::<T>(parsed_text(s@)) == Err::<T::Model, ApiErrorModel>(e@),
        },
{
    match Json::parse(s) {
        Some(j) => decode_json::<T>(&j),
        None => Err(ApiError::bad_reply()),
    }
}

/// A reply that holds a failure comes to that failure, also where it holds
/// a payload beside it.
pub proof fn lemma_error_takes_precedence<T: FromJson>(entries: Seq<(Seq<char>, JsonView)>)
    requires
        optional_in::<T>(entries, "data"@) is Ok,
        optional_in::<Meta>(entries, "meta"@) is Ok,
        optional_in::<ApiError>(entries, "error"@) matches Ok(Some(_)),
    ensures
        reply_of::<T>(JsonView::Object(entries)) == Err::<T::Model, ApiErrorModel>(
            optional_in::<ApiError>(entries, "error"@)->Ok_0->Some_0,
        ),
{
}

/// A reply whose envelope holds neither payload nor failure comes to the
/// failure for an incomplete reply, whatever payload was asked for.
pub proof fn lemma_incomplete_reply<T: FromJson>(entries: Seq<(Seq<char>, JsonView)>)
    requires
        lookup(entries, "data"@) is None || lookup(entries, "data"@) == Some(JsonView::Null),
        lookup(entries, "error"@) is None || lookup(entries, "error"@) == Some(JsonView::Null),
        optional_in::<Meta>(entries, "meta"@) is Ok,
    ensures
        reply_of::<T>(JsonView::Object(entries)) == Err::<T::Model, ApiErrorModel>(incomplete_reply()),
{
}

/// The empty object is an incomplete reply.
pub proof fn lemma_empty_envelope<T: FromJson>()
    ensures
        reply_of::<T>(JsonView::Object(Seq::empty())) == Err::<T::Model, ApiErrorModel>(incomplete_reply()),
{
    lemma_incomplete_reply::<T>(Seq::empty());
}

} // verus!
