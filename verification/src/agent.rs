use vstd::prelude::*;
use vstd::string::*;
use crate::api::results::{ApiError, ApiErrorModel};
use crate::api::{decode_api_json, decode_api_response, reply_of, response_of};
use crate::decode::FromJson;
use crate::json::parse::parsed_text;
use crate::json::Json;
use crate::responses::RegistryResponse;

verus! {

/// Where a new agent is registered.
pub const REGISTER_URL: &'static str = "https://api.spacetraders.io/v2/register";

/// The fields of the form that registers a new agent.
#[derive(Debug, PartialEq, Eq)]
pub struct Registration {
    /// The call sign of the agent: unique, letters and digits.
    pub symbol: String,
    /// The faction that the agent joins.
    pub faction: String,
}

/// The faction that an agent joins: the one it names, or `COSMIC`.
pub open spec fn faction_or_default(faction: Option<Seq<char>>) -> Seq<char> {
    match faction {
        Some(f) => f,
        None => "COSMIC"@,
    }
}

/// What the token of a registration comes to, given what its reply comes to.
pub open spec fn token_of(reply: Result<<RegistryResponse as FromJson>::Model, ApiErrorModel>) -> Result<Seq<char>, ApiErrorModel> {
    match reply {
        Ok(registered) => Ok(registered.token),
        Err(e) => Err(e),
    }
}

/// The form that registers the agent `symbol` with `faction`, or with the
/// faction `COSMIC` where none is named.
pub fn registration(symbol: &str, faction: Option<&str>) -> (r: Registration)
    ensures
        r.symbol@ == symbol@,
        r.faction@ == faction_or_default(
            match faction {
                Some(f) => Some(f@),
                None => None,
            },
        ),
{
    let faction = match faction {
        Some(f) => f,
        None => "COSMIC",
    };
    Registration { symbol: symbol.to_owned(), faction: faction.to_owned() }
}

/// Reads the token off the tree of a registration's reply.
pub fn registered_token_in(j: &Json) -> (r: Result<String, ApiError>)
    ensures
        match r {
            Ok(t) => token_of(reply_of::<RegistryResponse>(j@)) == Ok::<Seq<char>, ApiErrorModel>(t@),
            Err(e) => token_of(reply_of::<RegistryResponse>(j@)) == Err::<Seq<char>, ApiErrorModel>(e@),
        },
{
    match decode_api_json::<RegistryResponse>(j) {
        Ok(registered) => Ok(registered.token),
        Err(e) => Err(e),
    }
}

/// Reads the token off the text of a registration's reply.
pub fn registered_token(reply: &str) -> (r: Result<String, ApiError>)
    ensures
        match r {
            Ok(t) => token_of(response_of::<RegistryResponse>(parsed_text(reply@))) == Ok::<Seq<char>, ApiErrorModel>(t@),
            Err(e) => token_of(response_of::<RegistryResponse>(parsed_text(reply@))) == Err::<Seq<char>, ApiErrorModel>(e@),
        },
{
    match decode_api_response::<RegistryResponse>(reply) {
        Ok(registered) => Ok(registered.token),
        Err(e) => Err(e),
    }
}

} // verus!
