use vstd::prelude::*;
use crate::api::results::{bad_reply, incomplete_reply, outcome, ApiError, ApiErrorModel, ApiResult};
use crate::decode::{lookup, lookup_from, optional_in, FromJson, Symbol};
use crate::json::parse::parsed_text;
use crate::json::{Json, JsonView};
use crate::schemas::Meta;

pub mod responses;
pub mod results;

verus! {

/// What the tree of a reply comes to, decoded for a payload of type `T`: the
/// failure for a bad reply where the tree is no envelope of that shape, and
/// otherwise what the envelope comes to.
pub open spec fn reply_of<T: FromJson>(j: JsonView) -> Result<T::Model, ApiErrorModel> {
    match ApiResult::<T>::parsed(j, "response"@) {
        Ok(envelope) => outcome(envelope),
        Err(_) => Err(bad_reply()),
    }
}

/// What the text of a reply comes to, given the tree that the text denotes,
/// if it denotes one.
pub open spec fn response_of<T: FromJson>(tree: Option<JsonView>) -> Result<T::Model, ApiErrorModel> {
    match tree {
        Some(j) => reply_of::<T>(j),
        None => Err(bad_reply()),
    }
}

/// Decodes the tree of a reply into its payload or its failure.
pub fn decode_api_json<T: FromJson>(j: &Json) -> (r: Result<T, ApiError>)
    ensures
        match r {
            Ok(v) => reply_of::<T>(j@) == Ok::<T::Model, ApiErrorModel>(v.model()),
            Err(e) => reply_of::<T>(j@) == Err::<T::Model, ApiErrorModel>(e@),
        },
{
    match ApiResult::<T>::from_json(j, "response") {
        Ok(envelope) => envelope.to_result(),
        Err(_) => Err(ApiError::bad_reply()),
    }
}

/// Decodes the text of a reply into its payload or its failure. A text that
/// is not JSON, or not an envelope of the declared shape, is a failure of
/// the same kind as those the server reports.
pub fn decode_api_response<T: FromJson>(s: &str) -> (r: Result<T, ApiError>)
    ensures
        match r {
            Ok(v) => response_of::<T>(parsed_text(s@)) == Ok::<T::Model, ApiErrorModel>(v.model()),
            Err(e) => response_of::<T>(parsed_text(s@)) == Err::<T::Model, ApiErrorModel>(e@),
        },
{
    match Json::parse(s) {
        Some(j) => decode_api_json::<T>(&j),
        None => Err(ApiError::bad_reply()),
    }
}

/// A reply that holds a payload and a failure, both well formed, comes to
/// the failure.
pub proof fn lemma_error_takes_precedence<T: FromJson>(j: JsonView)
    requires
        ApiResult::<T>::parsed(j, "response"@) matches Ok(envelope) && envelope.data is Some && envelope.error is Some,
    ensures
        reply_of::<T>(j) == Err::<T::Model, ApiErrorModel>(ApiResult::<T>::parsed(j, "response"@)->Ok_0.error->Some_0),
        response_of::<T>(Some(j)) == reply_of::<T>(j),
{
}

/// A reply never comes to a payload unless its envelope holds one and no
/// failure.
pub proof fn lemma_payload_only_without_error<T: FromJson>(j: JsonView)
    requires
        reply_of::<T>(j) is Ok,
    ensures
        ApiResult::<T>::parsed(j, "response"@) matches Ok(envelope) && envelope.error is None && envelope.data == Some(
            reply_of::<T>(j)->Ok_0,
        ),
{
}

/// A reply whose envelope holds neither payload nor failure comes to the
/// failure for an incomplete reply, whatever payload was asked for.
pub proof fn lemma_incomplete_reply<T: FromJson>(entries: Seq<(Seq<char>, JsonView)>)
    requires
        lookup(entries, "data"@) is None || lookup(entries, "data"@) == Some(JsonView::Null),
        lookup(entries, "error"@) is None || lookup(entries, "error"@) == Some(JsonView::Null),
        optional_in::<Meta>(entries, "meta"@) is Ok,
    ensures
        reply_of::<T>(JsonView::Object(entries)) == Err::<T::Model, ApiErrorModel>(incomplete_reply()),
{
}

/// The empty object is an incomplete reply.
pub proof fn lemma_empty_envelope<T: FromJson>()
    ensures
        reply_of::<T>(JsonView::Object(Seq::empty())) == Err::<T::Model, ApiErrorModel>(incomplete_reply()),
{
    lemma_incomplete_reply::<T>(Seq::empty());
}

/// A reply that holds the wire string of a variant as its payload, and no
/// failure, comes to that variant, for every enumeration and every variant
/// of it.
pub proof fn lemma_symbol_through_envelope<S: Symbol>(v: S, entries: Seq<(Seq<char>, JsonView)>)
    requires
        lookup(entries, "data"@) == Some(JsonView::Str(v.wire_text())),
        lookup(entries, "error"@) is None || lookup(entries, "error"@) == Some(JsonView::Null),
        optional_in::<Meta>(entries, "meta"@) is Ok,
    ensures
        reply_of::<S>(JsonView::Object(entries)) == Ok::<S, ApiErrorModel>(v),
        response_of::<S>(Some(JsonView::Object(entries))) == Ok::<S, ApiErrorModel>(v),
{
    S::lemma_decode_encode(v);
}

/// The envelope whose one key is `data`, over the wire string of a variant,
/// comes to that variant.
pub proof fn lemma_symbol_as_payload<S: Symbol>(v: S)
    ensures
        reply_of::<S>(JsonView::Object(seq![("data"@, JsonView::Str(v.wire_text()))])) == Ok::<S, ApiErrorModel>(v),
{
    let entries = seq![("data"@, JsonView::Str(v.wire_text()))];
    reveal_strlit("data");
    reveal_strlit("meta");
    reveal_strlit("error");
    assert("data"@.len() == 4 && "meta"@.len() == 4 && "error"@.len() == 5);
    assert("data"@[0] == 'd' && "meta"@[0] == 'm');
    assert(entries[0].0 == "data"@);
    assert(lookup(entries, "data"@) == Some(JsonView::Str(v.wire_text())));
    assert(lookup_from(entries, "meta"@, 1) is None);
    assert(lookup(entries, "meta"@) is None);
    assert(lookup_from(entries, "error"@, 1) is None);
    assert(lookup(entries, "error"@) is None);
    lemma_symbol_through_envelope::<S>(v, entries);
}

} // verus!
