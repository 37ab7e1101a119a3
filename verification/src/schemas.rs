use vstd::prelude::*;
use crate::decode::{mismatch, mismatch_error, optional_field, optional_in, required_field, required_in, DecodeError, DecodeErrorView, FromJson, Shape};
use crate::json::{Json, JsonView};
pub use crate::schemas::symbols::{ContractType, Deposits, FactionTraitSymbols, MarketTransactionTypes, ShipCrewRotation, ShipEngineSymbols, ShipFrameSymbols, ShipModuleSymbols, ShipMountSymbols, ShipNavFlightMode, ShipNavStatus, ShipReactorSymbols, ShipRole, ShipType, SystemType, TradeSymbol, WaypointTraitSymbol, WaypointType};
pub use crate::time::{parse_date_time, parse_optional_date_time, Timestamp};

pub mod symbols;

verus! {

/// A trait of a faction, described.
pub type FactionTrait = TypedSymbolic<FactionTraitSymbols>;

/// The condition of a ship part: the higher, the better.
pub type ShipCondition = u8;

/// A deposit that a survey found.
pub type SurveyDeposit = Symbolic;

/// A faction present in a system.
pub type SystemFaction = Symbolic;

/// A good, described.
pub type TradeGood = TypedSymbolic<TradeSymbol>;

/// The faction that controls a waypoint.
pub type WaypointFaction = Symbolic;

/// A waypoint that orbits another.
pub type WaypointOrbital = Symbolic;

/// A trait of a waypoint, described.
pub type WaypointTrait = TypedSymbolic<WaypointTraitSymbol>;

/// An agent: the player's account in the game.
#[derive(Debug, PartialEq, Eq)]
pub struct Agent {
    pub account_id: String,
    pub symbol: String,
    pub headquarters: String,
    pub credits: i32,
}

/// The mathematical value of an `Agent`.
pub struct AgentModel {
    pub account_id: Seq<char>,
    pub symbol: Seq<char>,
    pub headquarters: Seq<char>,
    pub credits: i32,
}

impl FromJson for Agent {
    type Model = AgentModel;

    open spec fn model(&self) -> AgentModel {
        AgentModel {
            account_id: self.account_id.model(),
            symbol: self.symbol.model(),
            headquarters: self.headquarters.model(),
            credits: self.credits.model(),
        }
    }

    open spec fn parsed(j: JsonView, field: Seq<char>) -> Result<AgentModel, DecodeErrorView> {
        match j {
            JsonView::Object(entries) => {
                let account_id = required_in::<String>(entries, "accountId"@);
                let symbol = required_in::<String>(entries, "symbol"@);
                let headquarters = required_in::<String>(entries, "headquarters"@);
                let credits = required_in::<i32>(entries, "credits"@);
                if account_id is Err {
                    Err(account_id->Err_0)
                } else if symbol is Err {
                    Err(symbol->Err_0)
                } else if headquarters is Err {
                    Err(headquarters->Err_0)
                } else if credits is Err {
                    Err(credits->Err_0)
                } else {
                    Ok(AgentModel {
                        account_id: account_id->Ok_0,
                        symbol: symbol->Ok_0,
                        headquarters: headquarters->Ok_0,
                        credits: credits->Ok_0,
                    })
                }
            },
            _ => Err(mismatch(j, field, Shape::Object)),
        }
    }

    fn from_json(j: &Json, field: &str) -> (r: Result<Agent, DecodeError>) {
        match j {
            Json::Object(_) => {},
            _ => {
                return Err(mismatch_error(j, field, Shape::Object));
            },
        }
        let account_id = required_field::<String>(j, "accountId")?;
        let symbol = required_field::<String>(j, "symbol")?;
        let headquarters = required_field::<String>(j, "headquarters")?;
        let credits = required_field::<i32>(j, "credits")?;
        Ok(Agent { account_id, symbol, headquarters, credits })
    }
}

/// Who charted a waypoint, and when.
#[derive(Debug, PartialEq, Eq)]
pub struct Chart {
    pub waypoint_symbol: Option<String>,
    pub submitted_by: Option<String>,
    pub submitted_on: Option<Timestamp>,
}

/// The mathematical value of a `Chart`.
pub struct ChartModel {
    pub waypoint_symbol: Option<Seq<char>>,
    pub submitted_by: Option<Seq<char>>,
    pub submitted_on: Option<Timestamp>,
}

impl FromJson for Chart {
    type Model = ChartModel;

    open spec fn model(&self) -> ChartModel {
        ChartModel {
            waypoint_symbol: self.waypoint_symbol.model(),
            submitted_by: self.submitted_by.model(),
            submitted_on: self.submitted_on.model(),
        }
    }

    open spec fn parsed(j: JsonView, field: Seq<char>) -> Result<ChartModel, DecodeErrorView> {
        match j {
            JsonView::Object(entries) => {
                let waypoint_symbol = optional_in::<String>(entries, "waypointSymbol"@);
                let submitted_by = optional_in::<String>(entries, "submittedBy"@);
                let submitted_on = optional_in::<Timestamp>(entries, "submittedOn"@);
                if waypoint_symbol is Err {
                    Err(waypoint_symbol->Err_0)
                } else if submitted_by is Err {
                    Err(submitted_by->Err_0)
                } else if submitted_on is Err {
                    Err(submitted_on->Err_0)
                } else {
                    Ok(ChartModel {
                        waypoint_symbol: waypoint_symbol->Ok_0,
                        submitted_by: submitted_by->Ok_0,
                        submitted_on: submitted_on->Ok_0,
                    })
                }
            },
            _ => Err(mismatch(j, field, Shape::Object)),
        }
    }

    fn from_json(j: &Json, field: &str) -> (r: Result<Chart, DecodeError>) {
        match j {
            Json::Object(_) => {},
            _ => {
                return Err(mismatch_error(j, field, Shape::Object));
            },
        }
        let waypoint_symbol = optional_field::<String>(j, "waypointSymbol")?;
        let submitted_by = optional_field::<String>(j, "submittedBy")?;
        let submitted_on = optional_field::<Timestamp>(j, "submittedOn")?;
        Ok(Chart { waypoint_symbol, submitted_by, submitted_on })
    }
}

/// A system that a jump gate connects to.
#[derive(Debug, PartialEq, Eq)]
pub struct ConnectedSystem {
    pub symbol: String,
    pub sector_symbol: String,
    pub kind: SystemType,
    pub x: i32,
    pub y: i32,
    pub distance: i32,
}

/// The mathematical value of a `ConnectedSystem`.
pub struct ConnectedSystemModel {
    pub symbol: Seq<char>,
    pub sector_symbol: Seq<char>,
    pub kind: SystemType,
    pub x: i32,
    pub y: i32,
    pub distance: i32,
}

impl FromJson for ConnectedSystem {
    type Model = ConnectedSystemModel;

    open spec fn model(&self) -> ConnectedSystemModel {
        ConnectedSystemModel {
            symbol: self.symbol.model(),
            sector_symbol: self.sector_symbol.model(),
            kind: self.kind.model(),
            x: self.x.model(),
            y: self.y.model(),
            distance: self.distance.model(),
        }
    }

    open spec fn parsed(j: JsonView, field: Seq<char>) -> Result<ConnectedSystemModel, DecodeErrorView> {
        match j {
            JsonView::Object(entries) => {
                let symbol = required_in::<String>(entries, "symbol"@);
                let sector_symbol = required_in::<String>(entries, "sectorSymbol"@);
                let kind = required_in::<SystemType>(entries, "type"@);
                let x = required_in::<i32>(entries, "x"@);
                let y = required_in::<i32>(entries, "y"@);
                let distance = required_in::<i32>(entries, "distance"@);
                if symbol is Err {
                    Err(symbol->Err_0)
                } else if sector_symbol is Err {
                    Err(sector_symbol->Err_0)
                } else if kind is Err {
                    Err(kind->Err_0)
                } else if x is Err {
                    Err(x->Err_0)
                } else if y is Err {
                    Err(y->Err_0)
                } else if distance is Err {
                    Err(distance->Err_0)
                } else {
                    Ok(ConnectedSystemModel {
                        symbol: symbol->Ok_0,
                        sector_symbol: sector_symbol->Ok_0,
                        kind: kind->Ok_0,
                        x: x->Ok_0,
                        y: y->Ok_0,
                        distance: distance->Ok_0,
                    })
                }
            },
            _ => Err(mismatch(j, field, Shape::Object)),
        }
    }

    fn from_json(j: &Json, field: &str) -> (r: Result<ConnectedSystem, DecodeError>) {
        match j {
            Json::Object(_) => {},
            _ => {
                return Err(mismatch_error(j, field, Shape::Object));
            },
        }
        let symbol = required_field::<String>(j, "symbol")?;
        let sector_symbol = required_field::<String>(j, "sectorSymbol")?;
        let kind = required_field::<SystemType>(j, "type")?;
        let x = required_field::<i32>(j, "x")?;
        let y = required_field::<i32>(j, "y")?;
        let distance = required_field::<i32>(j, "distance")?;
        Ok(ConnectedSystem { symbol, sector_symbol, kind, x, y, distance })
    }
}

/// A contract that a faction offers to an agent.
#[derive(Debug, PartialEq, Eq)]
pub struct Contract {
    pub id: String,
    pub faction_symbol: String,
    pub kind: ContractType,
    pub terms: ContractTerms,
    pub accepted: bool,
    pub fulfilled: bool,
    pub expiration: Timestamp,
}

/// The mathematical value of a `Contract`.
pub struct ContractModel {
    pub id: Seq<char>,
    pub faction_symbol: Seq<char>,
    pub kind: ContractType,
    pub terms: ContractTermsModel,
    pub accepted: bool,
    pub fulfilled: bool,
    pub expiration: Timestamp,
}

impl FromJson for Contract {
    type Model = ContractModel;

    open spec fn model(&self) -> ContractModel {
        ContractModel {
            id: self.id.model(),
            faction_symbol: self.faction_symbol.model(),
            kind: self.kind.model(),
            terms: self.terms.model(),
            accepted: self.accepted.model(),
            fulfilled: self.fulfilled.model(),
            expiration: self.expiration.model(),
        }
    }

    open spec fn parsed(j: JsonView, field: Seq<char>) -> Result<ContractModel, DecodeErrorView> {
        match j {
            JsonView::Object(entries) => {
                let id = required_in::<String>(entries, "id"@);
                let faction_symbol = required_in::<String>(entries, "factionSymbol"@);
                let kind = required_in::<ContractType>(entries, "type"@);
                let terms = required_in::<ContractTerms>(entries, "terms"@);
                let accepted = required_in::<bool>(entries, "accepted"@);
                let fulfilled = required_in::<bool>(entries, "fulfilled"@);
                let expiration = required_in::<Timestamp>(entries, "expiration"@);
                if id is Err {
                    Err(id->Err_0)
                } else if faction_symbol is Err {
                    Err(faction_symbol->Err_0)
                } else if kind is Err {
                    Err(kind->Err_0)
                } else if terms is Err {
                    Err(terms->Err_0)
                } else if accepted is Err {
                    Err(accepted->Err_0)
                } else if fulfilled is Err {
                    Err(fulfilled->Err_0)
                } else if expiration is Err {
                    Err(expiration->Err_0)
                } else {
                    Ok(ContractModel {
                        id: id->Ok_0,
                        faction_symbol: faction_symbol->Ok_0,
                        kind: kind->Ok_0,
                        terms: terms->Ok_0,
                        accepted: accepted->Ok_0,
                        fulfilled: fulfilled->Ok_0,
                        expiration: expiration->Ok_0,
                    })
                }
            },
            _ => Err(mismatch(j, field, Shape::Object)),
        }
    }

    fn from_json(j: &Json, field: &str) -> (r: Result<Contract, DecodeError>) {
        match j {
            Json::Object(_) => {},
            _ => {
                return Err(mismatch_error(j, field, Shape::Object));
            },
        }
        let id = required_field::<String>(j, "id")?;
        let faction_symbol = required_field::<String>(j, "factionSymbol")?;
        let kind = required_field::<ContractType>(j, "type")?;
        let terms = required_field::<ContractTerms>(j, "terms")?;
        let accepted = required_field::<bool>(j, "accepted")?;
        let fulfilled = required_field::<bool>(j, "fulfilled")?;
        let expiration = required_field::<Timestamp>(j, "expiration")?;
        Ok(Contract { id, faction_symbol, kind, terms, accepted, fulfilled, expiration })
    }
}

/// A good that a contract asks to have delivered.
#[derive(Debug, PartialEq, Eq)]
pub struct ContractDeliverGood {
    pub trade_symbol: String,
    pub destination_symbol: String,
    pub units_required: i32,
    pub units_fulfilled: i32,
}

/// The mathematical value of a `ContractDeliverGood`.
pub struct ContractDeliverGoodModel {
    pub trade_symbol: Seq<char>,
    pub destination_symbol: Seq<char>,
    pub units_required: i32,
    pub units_fulfilled: i32,
}

impl FromJson for ContractDeliverGood {
    type Model = ContractDeliverGoodModel;

    open spec fn model(&self) -> ContractDeliverGoodModel {
        ContractDeliverGoodModel {
            trade_symbol: self.trade_symbol.model(),
            destination_symbol: self.destination_symbol.model(),
            units_required: self.units_required.model(),
            units_fulfilled: self.units_fulfilled.model(),
        }
    }

    open spec fn parsed(j: JsonView, field: Seq<char>) -> Result<ContractDeliverGoodModel, DecodeErrorView> {
        match j {
            JsonView::Object(entries) => {
                let trade_symbol = required_in::<String>(entries, "tradeSymbol"@);
                let destination_symbol = required_in::<String>(entries, "destinationSymbol"@);
                let units_required = required_in::<i32>(entries, "unitsRequired"@);
                let units_fulfilled = required_in::<i32>(entries, "unitsFulfilled"@);
                if trade_symbol is Err {
                    Err(trade_symbol->Err_0)
                } else if destination_symbol is Err {
                    Err(destination_symbol->Err_0)
                } else if units_required is Err {
                    Err(units_required->Err_0)
                } else if units_fulfilled is Err {
                    Err(units_fulfilled->Err_0)
                } else {
                    Ok(ContractDeliverGoodModel {
                        trade_symbol: trade_symbol->Ok_0,
                        destination_symbol: destination_symbol->Ok_0,
                        units_required: units_required->Ok_0,
                        units_fulfilled: units_fulfilled->Ok_0,
                    })
                }
            },
            _ => Err(mismatch(j, field, Shape::Object)),
        }
    }

    fn from_json(j: &Json, field: &str) -> (r: Result<ContractDeliverGood, DecodeError>) {
        match j {
            Json::Object(_) => {},
            _ => {
                return Err(mismatch_error(j, field, Shape::Object));
            },
        }
        let trade_symbol = required_field::<String>(j, "tradeSymbol")?;
        let destination_symbol = required_field::<String>(j, "destinationSymbol")?;
        let units_required = required_field::<i32>(j, "unitsRequired")?;
        let units_fulfilled = required_field::<i32>(j, "unitsFulfilled")?;
        Ok(ContractDeliverGood { trade_symbol, destination_symbol, units_required, units_fulfilled })
    }
}

/// What a contract pays, on acceptance and on fulfilment.
#[derive(Debug, PartialEq, Eq)]
pub struct ContractPayment {
    pub on_accepted: i32,
    pub on_fulfilled: i32,
}

/// The mathematical value of a `ContractPayment`.
pub struct ContractPaymentModel {
    pub on_accepted: i32,
    pub on_fulfilled: i32,
}

impl FromJson for ContractPayment {
    type Model = ContractPaymentModel;

    open spec fn model(&self) -> ContractPaymentModel {
        ContractPaymentModel {
            on_accepted: self.on_accepted.model(),
            on_fulfilled: self.on_fulfilled.model(),
        }
    }

    open spec fn parsed(j: JsonView, field: Seq<char>) -> Result<ContractPaymentModel, DecodeErrorView> {
        match j {
            JsonView::Object(entries) => {
                let on_accepted = required_in::<i32>(entries, "onAccepted"@);
                let on_fulfilled = required_in::<i32>(entries, "onFulfilled"@);
                if on_accepted is Err {
                    Err(on_accepted->Err_0)
                } else if on_fulfilled is Err {
                    Err(on_fulfilled->Err_0)
                } else {
                    Ok(ContractPaymentModel {
                        on_accepted: on_accepted->Ok_0,
                        on_fulfilled: on_fulfilled->Ok_0,
                    })
                }
            },
            _ => Err(mismatch(j, field, Shape::Object)),
        }
    }

    fn from_json(j: &Json, field: &str) -> (r: Result<ContractPayment, DecodeError>) {
        match j {
            Json::Object(_) => {},
            _ => {
                return Err(mismatch_error(j, field, Shape::Object));
            },
        }
        let on_accepted = required_field::<i32>(j, "onAccepted")?;
        let on_fulfilled = required_field::<i32>(j, "onFulfilled")?;
        Ok(ContractPayment { on_accepted, on_fulfilled })
    }
}

/// The terms of a contract.
#[derive(Debug, PartialEq, Eq)]
pub struct ContractTerms {
    pub deadline: Timestamp,
    pub payment: ContractPayment,
    pub deliver: Vec<ContractDeliverGood>,
}

/// The mathematical value of a `ContractTerms`.
pub struct ContractTermsModel {
    pub deadline: Timestamp,
    pub payment: ContractPaymentModel,
    pub deliver: Seq<ContractDeliverGoodModel>,
}

impl FromJson for ContractTerms {
    type Model = ContractTermsModel;

    open spec fn model(&self) -> ContractTermsModel {
        ContractTermsModel {
            deadline: self.deadline.model(),
            payment: self.payment.model(),
            deliver: self.deliver.model(),
        }
    }

    open spec fn parsed(j: JsonView, field: Seq<char>) -> Result<ContractTermsModel, DecodeErrorView> {
        match j {
            JsonView::Object(entries) => {
                let deadline = required_in::<Timestamp>(entries, "deadline"@);
                let payment = required_in::<ContractPayment>(entries, "payment"@);
                let deliver = required_in::<Vec<ContractDeliverGood>>(entries, "deliver"@);
                if deadline is Err {
                    Err(deadline->Err_0)
                } else if payment is Err {
                    Err(payment->Err_0)
                } else if deliver is Err {
                    Err(deliver->Err_0)
                } else {
                    Ok(ContractTermsModel {
                        deadline: deadline->Ok_0,
                        payment: payment->Ok_0,
                        deliver: deliver->Ok_0,
                    })
                }
            },
            _ => Err(mismatch(j, field, Shape::Object)),
        }
    }

    fn from_json(j: &Json, field: &str) -> (r: Result<ContractTerms, DecodeError>) {
        match j {
            Json::Object(_) => {},
            _ => {
                return Err(mismatch_error(j, field, Shape::Object));
            },
        }
        let deadline = required_field::<Timestamp>(j, "deadline")?;
        let payment = required_field::<ContractPayment>(j, "payment")?;
        let deliver = required_field::<Vec<ContractDeliverGood>>(j, "deliver")?;
        Ok(ContractTerms { deadline, payment, deliver })
    }
}

/// The time a ship has to wait before it can act again.
#[derive(Debug, PartialEq, Eq)]
pub struct Cooldown {
    pub ship_symbol: String,
    pub total_seconds: i32,
    pub remaining_seconds: i32,
    pub expiration: Timestamp,
}

/// The mathematical value of a `Cooldown`.
pub struct CooldownModel {
    pub ship_symbol: Seq<char>,
    pub total_seconds: i32,
    pub remaining_seconds: i32,
    pub expiration: Timestamp,
}

impl FromJson for Cooldown {
    type Model = CooldownModel;

    open spec fn model(&self) -> CooldownModel {
        CooldownModel {
            ship_symbol: self.ship_symbol.model(),
            total_seconds: self.total_seconds.model(),
            remaining_seconds: self.remaining_seconds.model(),
            expiration: self.expiration.model(),
        }
    }

    open spec fn parsed(j: JsonView, field: Seq<char>) -> Result<CooldownModel, DecodeErrorView> {
        match j {
            JsonView::Object(entries) => {
                let ship_symbol = required_in::<String>(entries, "shipSymbol"@);
                let total_seconds = required_in::<i32>(entries, "totalSeconds"@);
                let remaining_seconds = required_in::<i32>(entries, "remainingSeconds"@);
                let expiration = required_in::<Timestamp>(entries, "expiration"@);
                if ship_symbol is Err {
                    Err(ship_symbol->Err_0)
                } else if total_seconds is Err {
                    Err(total_seconds->Err_0)
                } else if remaining_seconds is Err {
                    Err(remaining_seconds->Err_0)
                } else if expiration is Err {
                    Err(expiration->Err_0)
                } else {
                    Ok(CooldownModel {
                        ship_symbol: ship_symbol->Ok_0,
                        total_seconds: total_seconds->Ok_0,
                        remaining_seconds: remaining_seconds->Ok_0,
                        expiration: expiration->Ok_0,
                    })
                }
            },
            _ => Err(mismatch(j, field, Shape::Object)),
        }
    }

    fn from_json(j: &Json, field: &str) -> (r: Result<Cooldown, DecodeError>) {
        match j {
            Json::Object(_) => {},
            _ => {
                return Err(mismatch_error(j, field, Shape::Object));
            },
        }
        let ship_symbol = required_field::<String>(j, "shipSymbol")?;
        let total_seconds = required_field::<i32>(j, "totalSeconds")?;
        let remaining_seconds = required_field::<i32>(j, "remainingSeconds")?;
        let expiration = required_field::<Timestamp>(j, "expiration")?;
        Ok(Cooldown { ship_symbol, total_seconds, remaining_seconds, expiration })
    }
}

/// The outcome of one extraction.
#[derive(Debug, PartialEq, Eq)]
pub struct Extraction {
    pub ship_symbol: String,
    pub yield_amount: ExtractionYield,
}

/// The mathematical value of an `Extraction`.
pub struct ExtractionModel {
    pub ship_symbol: Seq<char>,
    pub yield_amount: ExtractionYieldModel,
}

impl FromJson for Extraction {
    type Model = ExtractionModel;

    open spec fn model(&self) -> ExtractionModel {
        ExtractionModel {
            ship_symbol: self.ship_symbol.model(),
            yield_amount: self.yield_amount.model(),
        }
    }

    open spec fn parsed(j: JsonView, field: Seq<char>) -> Result<ExtractionModel, DecodeErrorView> {
        match j {
            JsonView::Object(entries) => {
                let ship_symbol = required_in::<String>(entries, "shipSymbol"@);
                let yield_amount = required_in::<ExtractionYield>(entries, "yield"@);
                if ship_symbol is Err {
                    Err(ship_symbol->Err_0)
                } else if yield_amount is Err {
                    Err(yield_amount->Err_0)
                } else {
                    Ok(ExtractionModel {
                        ship_symbol: ship_symbol->Ok_0,
                        yield_amount: yield_amount->Ok_0,
                    })
                }
            },
            _ => Err(mismatch(j, field, Shape::Object)),
        }
    }

    fn from_json(j: &Json, field: &str) -> (r: Result<Extraction, DecodeError>) {
        match j {
            Json::Object(_) => {},
            _ => {
                return Err(mismatch_error(j, field, Shape::Object));
            },
        }
        let ship_symbol = required_field::<String>(j, "shipSymbol")?;
        let yield_amount = required_field::<ExtractionYield>(j, "yield")?;
        Ok(Extraction { ship_symbol, yield_amount })
    }
}

/// What an extraction yielded.
#[derive(Debug, PartialEq, Eq)]
pub struct ExtractionYield {
    pub symbol: String,
    pub units: i32,
}

/// The mathematical value of an `ExtractionYield`.
pub struct ExtractionYieldModel {
    pub symbol: Seq<char>,
    pub units: i32,
}

impl FromJson for ExtractionYield {
    type Model = ExtractionYieldModel;

    open spec fn model(&self) -> ExtractionYieldModel {
        ExtractionYieldModel {
            symbol: self.symbol.model(),
            units: self.units.model(),
        }
    }

    open spec fn parsed(j: JsonView, field: Seq<char>) -> Result<ExtractionYieldModel, DecodeErrorView> {
        match j {
            JsonView::Object(entries) => {
                let symbol = required_in::<String>(entries, "symbol"@);
                let units = required_in::<i32>(entries, "units"@);
                if symbol is Err {
                    Err(symbol->Err_0)
                } else if units is Err {
                    Err(units->Err_0)
                } else {
                    Ok(ExtractionYieldModel {
                        symbol: symbol->Ok_0,
                        units: units->Ok_0,
                    })
                }
            },
            _ => Err(mismatch(j, field, Shape::Object)),
        }
    }

    fn from_json(j: &Json, field: &str) -> (r: Result<ExtractionYield, DecodeError>) {
        match j {
            Json::Object(_) => {},
            _ => {
                return Err(mismatch_error(j, field, Shape::Object));
            },
        }
        let symbol = required_field::<String>(j, "symbol")?;
        let units = required_field::<i32>(j, "units")?;
        Ok(ExtractionYield { symbol, units })
    }
}

/// A faction of the game.
#[derive(Debug, PartialEq, Eq)]
pub struct Faction {
    pub symbol: String,
    pub name: String,
    pub description: String,
    pub headquarters: String,
    pub traits: Vec<FactionTrait>,
}

/// The mathematical value of a `Faction`.
pub struct FactionModel {
    pub symbol: Seq<char>,
    pub name: Seq<char>,
    pub description: Seq<char>,
    pub headquarters: Seq<char>,
    pub traits: Seq<TypedSymbolicModel<FactionTraitSymbols>>,
}

impl FromJson for Faction {
    type Model = FactionModel;

    open spec fn model(&self) -> FactionModel {
        FactionModel {
            symbol: self.symbol.model(),
            name: self.name.model(),
            description: self.description.model(),
            headquarters: self.headquarters.model(),
            traits: self.traits.model(),
        }
    }

    open spec fn parsed(j: JsonView, field: Seq<char>) -> Result<FactionModel, DecodeErrorView> {
        match j {
            JsonView::Object(entries) => {
                let symbol = required_in::<String>(entries, "symbol"@);
                let name = required_in::<String>(entries, "name"@);
                let description = required_in::<String>(entries, "description"@);
                let headquarters = required_in::<String>(entries, "headquarters"@);
                let traits = required_in::<Vec<FactionTrait>>(entries, "traits"@);
                if symbol is Err {
                    Err(symbol->Err_0)
                } else if name is Err {
                    Err(name->Err_0)
                } else if description is Err {
                    Err(description->Err_0)
                } else if headquarters is Err {
                    Err(headquarters->Err_0)
                } else if traits is Err {
                    Err(traits->Err_0)
                } else {
                    Ok(FactionModel {
                        symbol: symbol->Ok_0,
                        name: name->Ok_0,
                        description: description->Ok_0,
                        headquarters: headquarters->Ok_0,
                        traits: traits->Ok_0,
                    })
                }
            },
            _ => Err(mismatch(j, field, Shape::Object)),
        }
    }

    fn from_json(j: &Json, field: &str) -> (r: Result<Faction, DecodeError>) {
        match j {
            Json::Object(_) => {},
            _ => {
                return Err(mismatch_error(j, field, Shape::Object));
            },
        }
        let symbol = required_field::<String>(j, "symbol")?;
        let name = required_field::<String>(j, "name")?;
        let description = required_field::<String>(j, "description")?;
        let headquarters = required_field::<String>(j, "headquarters")?;
        let traits = required_field::<Vec<FactionTrait>>(j, "traits")?;
        Ok(Faction { symbol, name, description, headquarters, traits })
    }
}

/// A jump gate and the systems within its range.
#[derive(Debug, PartialEq, Eq)]
pub struct JumpGate {
    pub jump_range: i32,
    pub faction_symbol: String,
    pub connected_systems: Vec<ConnectedSystem>,
}

/// The mathematical value of a `JumpGate`.
pub struct JumpGateModel {
    pub jump_range: i32,
    pub faction_symbol: Seq<char>,
    pub connected_systems: Seq<ConnectedSystemModel>,
}

impl FromJson for JumpGate {
    type Model = JumpGateModel;

    open spec fn model(&self) -> JumpGateModel {
        JumpGateModel {
            jump_range: self.jump_range.model(),
            faction_symbol: self.faction_symbol.model(),
            connected_systems: self.connected_systems.model(),
        }
    }

    open spec fn parsed(j: JsonView, field: Seq<char>) -> Result<JumpGateModel, DecodeErrorView> {
        match j {
            JsonView::Object(entries) => {
                let jump_range = required_in::<i32>(entries, "jumpRange"@);
                let faction_symbol = required_in::<String>(entries, "factionSymbol"@);
                let connected_systems = required_in::<Vec<ConnectedSystem>>(entries, "connectedSystems"@);
                if jump_range is Err {
                    Err(jump_range->Err_0)
                } else if faction_symbol is Err {
                    Err(faction_symbol->Err_0)
                } else if connected_systems is Err {
                    Err(connected_systems->Err_0)
                } else {
                    Ok(JumpGateModel {
                        jump_range: jump_range->Ok_0,
                        faction_symbol: faction_symbol->Ok_0,
                        connected_systems: connected_systems->Ok_0,
                    })
                }
            },
            _ => Err(mismatch(j, field, Shape::Object)),
        }
    }

    fn from_json(j: &Json, field: &str) -> (r: Result<JumpGate, DecodeError>) {
        match j {
            Json::Object(_) => {},
            _ => {
                return Err(mismatch_error(j, field, Shape::Object));
            },
        }
        let jump_range = required_field::<i32>(j, "jumpRange")?;
        let faction_symbol = required_field::<String>(j, "factionSymbol")?;
        let connected_systems = required_field::<Vec<ConnectedSystem>>(j, "connectedSystems")?;
        Ok(JumpGate { jump_range, faction_symbol, connected_systems })
    }
}

/// A market: what it trades, and its recent transactions.
#[derive(Debug, PartialEq, Eq)]
pub struct Market {
    pub symbol: String,
    pub exports: Vec<TradeGood>,
    pub imports: Vec<TradeGood>,
    pub exchange: Vec<TradeGood>,
    pub transactions: Vec<MarketTransaction>,
    pub trade_goods: Vec<MarketTradeGood>,
}

/// The mathematical value of a `Market`.
pub struct MarketModel {
    pub symbol: Seq<char>,
    pub exports: Seq<TypedSymbolicModel<TradeSymbol>>,
    pub imports: Seq<TypedSymbolicModel<TradeSymbol>>,
    pub exchange: Seq<TypedSymbolicModel<TradeSymbol>>,
    pub transactions: Seq<MarketTransactionModel>,
    pub trade_goods: Seq<MarketTradeGoodModel>,
}

impl FromJson for Market {
    type Model = MarketModel;

    open spec fn model(&self) -> MarketModel {
        MarketModel {
            symbol: self.symbol.model(),
            exports: self.exports.model(),
            imports: self.imports.model(),
            exchange: self.exchange.model(),
            transactions: self.transactions.model(),
            trade_goods: self.trade_goods.model(),
        }
    }

    open spec fn parsed(j: JsonView, field: Seq<char>) -> Result<MarketModel, DecodeErrorView> {
        match j {
            JsonView::Object(entries) => {
                let symbol = required_in::<String>(entries, "symbol"@);
                let exports = required_in::<Vec<TradeGood>>(entries, "exports"@);
                let imports = required_in::<Vec<TradeGood>>(entries, "imports"@);
                let exchange = required_in::<Vec<TradeGood>>(entries, "exchange"@);
                let transactions = required_in::<Vec<MarketTransaction>>(entries, "transactions"@);
                let trade_goods = required_in::<Vec<MarketTradeGood>>(entries, "tradeGoods"@);
                if symbol is Err {
                    Err(symbol->Err_0)
                } else if exports is Err {
                    Err(exports->Err_0)
                } else if imports is Err {
                    Err(imports->Err_0)
                } else if exchange is Err {
                    Err(exchange->Err_0)
                } else if transactions is Err {
                    Err(transactions->Err_0)
                } else if trade_goods is Err {
                    Err(trade_goods->Err_0)
                } else {
                    Ok(MarketModel {
                        symbol: symbol->Ok_0,
                        exports: exports->Ok_0,
                        imports: imports->Ok_0,
                        exchange: exchange->Ok_0,
                        transactions: transactions->Ok_0,
                        trade_goods: trade_goods->Ok_0,
                    })
                }
            },
            _ => Err(mismatch(j, field, Shape::Object)),
        }
    }

    fn from_json(j: &Json, field: &str) -> (r: Result<Market, DecodeError>) {
        match j {
            Json::Object(_) => {},
            _ => {
                return Err(mismatch_error(j, field, Shape::Object));
            },
        }
        let symbol = required_field::<String>(j, "symbol")?;
        let exports = required_field::<Vec<TradeGood>>(j, "exports")?;
        let imports = required_field::<Vec<TradeGood>>(j, "imports")?;
        let exchange = required_field::<Vec<TradeGood>>(j, "exchange")?;
        let transactions = required_field::<Vec<MarketTransaction>>(j, "transactions")?;
        let trade_goods = required_field::<Vec<MarketTradeGood>>(j, "tradeGoods")?;
        Ok(Market { symbol, exports, imports, exchange, transactions, trade_goods })
    }
}

/// The price and volume of a good at a market.
#[derive(Debug, PartialEq, Eq)]
pub struct MarketTradeGood {
    pub symbol: String,
    pub trade_volume: u32,
    pub supply: String,
    pub purchase_price: u32,
    pub sell_price: u32,
}

/// The mathematical value of a `MarketTradeGood`.
pub struct MarketTradeGoodModel {
    pub symbol: Seq<char>,
    pub trade_volume: u32,
    pub supply: Seq<char>,
    pub purchase_price: u32,
    pub sell_price: u32,
}

impl FromJson for MarketTradeGood {
    type Model = MarketTradeGoodModel;

    open spec fn model(&self) -> MarketTradeGoodModel {
        MarketTradeGoodModel {
            symbol: self.symbol.model(),
            trade_volume: self.trade_volume.model(),
            supply: self.supply.model(),
            purchase_price: self.purchase_price.model(),
            sell_price: self.sell_price.model(),
        }
    }

    open spec fn parsed(j: JsonView, field: Seq<char>) -> Result<MarketTradeGoodModel, DecodeErrorView> {
        match j {
            JsonView::Object(entries) => {
                let symbol = required_in::<String>(entries, "symbol"@);
                let trade_volume = required_in::<u32>(entries, "tradeVolume"@);
                let supply = required_in::<String>(entries, "supply"@);
                let purchase_price = required_in::<u32>(entries, "purchasePrice"@);
                let sell_price = required_in::<u32>(entries, "sellPrice"@);
                if symbol is Err {
                    Err(symbol->Err_0)
                } else if trade_volume is Err {
                    Err(trade_volume->Err_0)
                } else if supply is Err {
                    Err(supply->Err_0)
                } else if purchase_price is Err {
                    Err(purchase_price->Err_0)
                } else if sell_price is Err {
                    Err(sell_price->Err_0)
                } else {
                    Ok(MarketTradeGoodModel {
                        symbol: symbol->Ok_0,
                        trade_volume: trade_volume->Ok_0,
                        supply: supply->Ok_0,
                        purchase_price: purchase_price->Ok_0,
                        sell_price: sell_price->Ok_0,
                    })
                }
            },
            _ => Err(mismatch(j, field, Shape::Object)),
        }
    }

    fn from_json(j: &Json, field: &str) -> (r: Result<MarketTradeGood, DecodeError>) {
        match j {
            Json::Object(_) => {},
            _ => {
                return Err(mismatch_error(j, field, Shape::Object));
            },
        }
        let symbol = required_field::<String>(j, "symbol")?;
        let trade_volume = required_field::<u32>(j, "tradeVolume")?;
        let supply = required_field::<String>(j, "supply")?;
        let purchase_price = required_field::<u32>(j, "purchasePrice")?;
        let sell_price = required_field::<u32>(j, "sellPrice")?;
        Ok(MarketTradeGood { symbol, trade_volume, supply, purchase_price, sell_price })
    }
}

/// One purchase or sale at a market.
#[derive(Debug, PartialEq, Eq)]
pub struct MarketTransaction {
    pub waypoint_symbol: String,
    pub ship_symbol: String,
    pub trade_symbol: String,
    pub kind: MarketTransactionTypes,
    pub units: u32,
    pub price_per_unit: u32,
    pub total_price: u32,
    pub timestamp: Timestamp,
}

/// The mathematical value of a `MarketTransaction`.
pub struct MarketTransactionModel {
    pub waypoint_symbol: Seq<char>,
    pub ship_symbol: Seq<char>,
    pub trade_symbol: Seq<char>,
    pub kind: MarketTransactionTypes,
    pub units: u32,
    pub price_per_unit: u32,
    pub total_price: u32,
    pub timestamp: Timestamp,
}

impl FromJson for MarketTransaction {
    type Model = MarketTransactionModel;

    open spec fn model(&self) -> MarketTransactionModel {
        MarketTransactionModel {
            waypoint_symbol: self.waypoint_symbol.model(),
            ship_symbol: self.ship_symbol.model(),
            trade_symbol: self.trade_symbol.model(),
            kind: self.kind.model(),
            units: self.units.model(),
            price_per_unit: self.price_per_unit.model(),
            total_price: self.total_price.model(),
            timestamp: self.timestamp.model(),
        }
    }

    open spec fn parsed(j: JsonView, field: Seq<char>) -> Result<MarketTransactionModel, DecodeErrorView> {
        match j {
            JsonView::Object(entries) => {
                let waypoint_symbol = required_in::<String>(entries, "waypointSymbol"@);
                let ship_symbol = required_in::<String>(entries, "shipSymbol"@);
                let trade_symbol = required_in::<String>(entries, "tradeSymbol"@);
                let kind = required_in::<MarketTransactionTypes>(entries, "type"@);
                let units = required_in::<u32>(entries, "units"@);
                let price_per_unit = required_in::<u32>(entries, "pricePerUnit"@);
                let total_price = required_in::<u32>(entries, "totalPrice"@);
                let timestamp = required_in::<Timestamp>(entries, "timestamp"@);
                if waypoint_symbol is Err {
                    Err(waypoint_symbol->Err_0)
                } else if ship_symbol is Err {
                    Err(ship_symbol->Err_0)
                } else if trade_symbol is Err {
                    Err(trade_symbol->Err_0)
                } else if kind is Err {
                    Err(kind->Err_0)
                } else if units is Err {
                    Err(units->Err_0)
                } else if price_per_unit is Err {
                    Err(price_per_unit->Err_0)
                } else if total_price is Err {
                    Err(total_price->Err_0)
                } else if timestamp is Err {
                    Err(timestamp->Err_0)
                } else {
                    Ok(MarketTransactionModel {
                        waypoint_symbol: waypoint_symbol->Ok_0,
                        ship_symbol: ship_symbol->Ok_0,
                        trade_symbol: trade_symbol->Ok_0,
                        kind: kind->Ok_0,
                        units: units->Ok_0,
                        price_per_unit: price_per_unit->Ok_0,
                        total_price: total_price->Ok_0,
                        timestamp: timestamp->Ok_0,
                    })
                }
            },
            _ => Err(mismatch(j, field, Shape::Object)),
        }
    }

    fn from_json(j: &Json, field: &str) -> (r: Result<MarketTransaction, DecodeError>) {
        match j {
            Json::Object(_) => {},
            _ => {
                return Err(mismatch_error(j, field, Shape::Object));
            },
        }
        let waypoint_symbol = required_field::<String>(j, "waypointSymbol")?;
        let ship_symbol = required_field::<String>(j, "shipSymbol")?;
        let trade_symbol = required_field::<String>(j, "tradeSymbol")?;
        let kind = required_field::<MarketTransactionTypes>(j, "type")?;
        let units = required_field::<u32>(j, "units")?;
        let price_per_unit = required_field::<u32>(j, "pricePerUnit")?;
        let total_price = required_field::<u32>(j, "totalPrice")?;
        let timestamp = required_field::<Timestamp>(j, "timestamp")?;
        Ok(MarketTransaction { waypoint_symbol, ship_symbol, trade_symbol, kind, units, price_per_unit, total_price, timestamp })
    }
}

/// Where a page stands in a list: present with lists only.
#[derive(Debug, PartialEq, Eq)]
pub struct Meta {
    pub total: u32,
    pub page: u32,
    pub limit: u32,
}

/// The mathematical value of a `Meta`.
pub struct MetaModel {
    pub total: u32,
    pub page: u32,
    pub limit: u32,
}

impl FromJson for Meta {
    type Model = MetaModel;

    open spec fn model(&self) -> MetaModel {
        MetaModel {
            total: self.total.model(),
            page: self.page.model(),
            limit: self.limit.model(),
        }
    }

    open spec fn parsed(j: JsonView, field: Seq<char>) -> Result<MetaModel, DecodeErrorView> {
        match j {
            JsonView::Object(entries) => {
                let total = required_in::<u32>(entries, "total"@);
                let page = required_in::<u32>(entries, "page"@);
                let limit = required_in::<u32>(entries, "limit"@);
                if total is Err {
                    Err(total->Err_0)
                } else if page is Err {
                    Err(page->Err_0)
                } else if limit is Err {
                    Err(limit->Err_0)
                } else {
                    Ok(MetaModel {
                        total: total->Ok_0,
                        page: page->Ok_0,
                        limit: limit->Ok_0,
                    })
                }
            },
            _ => Err(mismatch(j, field, Shape::Object)),
        }
    }

    fn from_json(j: &Json, field: &str) -> (r: Result<Meta, DecodeError>) {
        match j {
            Json::Object(_) => {},
            _ => {
                return Err(mismatch_error(j, field, Shape::Object));
            },
        }
        let total = required_field::<u32>(j, "total")?;
        let page = required_field::<u32>(j, "page")?;
        let limit = required_field::<u32>(j, "limit")?;
        Ok(Meta { total, page, limit })
    }
}

/// A ship as a scan shows it.
#[derive(Debug, PartialEq, Eq)]
pub struct ScannedShip {
    pub symbol: String,
    pub registration: ShipRegistration,
    pub nav: ShipNav,
    pub frame: Symbolic,
    pub reactor: Symbolic,
    pub engine: Symbolic,
    pub mounts: Vec<Symbolic>,
}

/// The mathematical value of a `ScannedShip`.
pub struct ScannedShipModel {
    pub symbol: Seq<char>,
    pub registration: ShipRegistrationModel,
    pub nav: ShipNavModel,
    pub frame: SymbolicModel,
    pub reactor: SymbolicModel,
    pub engine: SymbolicModel,
    pub mounts: Seq<SymbolicModel>,
}

impl FromJson for ScannedShip {
    type Model = ScannedShipModel;

    open spec fn model(&self) -> ScannedShipModel {
        ScannedShipModel {
            symbol: self.symbol.model(),
            registration: self.registration.model(),
            nav: self.nav.model(),
            frame: self.frame.model(),
            reactor: self.reactor.model(),
            engine: self.engine.model(),
            mounts: self.mounts.model(),
        }
    }

    open spec fn parsed(j: JsonView, field: Seq<char>) -> Result<ScannedShipModel, DecodeErrorView> {
        match j {
            JsonView::Object(entries) => {
                let symbol = required_in::<String>(entries, "symbol"@);
                let registration = required_in::<ShipRegistration>(entries, "registration"@);
                let nav = required_in::<ShipNav>(entries, "nav"@);
                let frame = required_in::<Symbolic>(entries, "frame"@);
                let reactor = required_in::<Symbolic>(entries, "reactor"@);
                let engine = required_in::<Symbolic>(entries, "engine"@);
                let mounts = required_in::<Vec<Symbolic>>(entries, "mounts"@);
                if symbol is Err {
                    Err(symbol->Err_0)
                } else if registration is Err {
                    Err(registration->Err_0)
                } else if nav is Err {
                    Err(nav->Err_0)
                } else if frame is Err {
                    Err(frame->Err_0)
                } else if reactor is Err {
                    Err(reactor->Err_0)
                } else if engine is Err {
                    Err(engine->Err_0)
                } else if mounts is Err {
                    Err(mounts->Err_0)
                } else {
                    Ok(ScannedShipModel {
                        symbol: symbol->Ok_0,
                        registration: registration->Ok_0,
                        nav: nav->Ok_0,
                        frame: frame->Ok_0,
                        reactor: reactor->Ok_0,
                        engine: engine->Ok_0,
                        mounts: mounts->Ok_0,
                    })
                }
            },
            _ => Err(mismatch(j, field, Shape::Object)),
        }
    }

    fn from_json(j: &Json, field: &str) -> (r: Result<ScannedShip, DecodeError>) {
        match j {
            Json::Object(_) => {},
            _ => {
                return Err(mismatch_error(j, field, Shape::Object));
            },
        }
        let symbol = required_field::<String>(j, "symbol")?;
        let registration = required_field::<ShipRegistration>(j, "registration")?;
        let nav = required_field::<ShipNav>(j, "nav")?;
        let frame = required_field::<Symbolic>(j, "frame")?;
        let reactor = required_field::<Symbolic>(j, "reactor")?;
        let engine = required_field::<Symbolic>(j, "engine")?;
        let mounts = required_field::<Vec<Symbolic>>(j, "mounts")?;
        Ok(ScannedShip { symbol, registration, nav, frame, reactor, engine, mounts })
    }
}

/// A system as a scan shows it.
#[derive(Debug, PartialEq, Eq)]
pub struct ScannedSystem {
    pub symbol: String,
    pub sector_symbol: String,
    pub kind: SystemType,
    pub x: i32,
    pub y: i32,
}

/// The mathematical value of a `ScannedSystem`.
pub struct ScannedSystemModel {
    pub symbol: Seq<char>,
    pub sector_symbol: Seq<char>,
    pub kind: SystemType,
    pub x: i32,
    pub y: i32,
}

impl FromJson for ScannedSystem {
    type Model = ScannedSystemModel;

    open spec fn model(&self) -> ScannedSystemModel {
        ScannedSystemModel {
            symbol: self.symbol.model(),
            sector_symbol: self.sector_symbol.model(),
            kind: self.kind.model(),
            x: self.x.model(),
            y: self.y.model(),
        }
    }

    open spec fn parsed(j: JsonView, field: Seq<char>) -> Result<ScannedSystemModel, DecodeErrorView> {
        match j {
            JsonView::Object(entries) => {
                let symbol = required_in::<String>(entries, "symbol"@);
                let sector_symbol = required_in::<String>(entries, "sectorSymbol"@);
                let kind = required_in::<SystemType>(entries, "type"@);
                let x = required_in::<i32>(entries, "x"@);
                let y = required_in::<i32>(entries, "y"@);
                if symbol is Err {
                    Err(symbol->Err_0)
                } else if sector_symbol is Err {
                    Err(sector_symbol->Err_0)
                } else if kind is Err {
                    Err(kind->Err_0)
                } else if x is Err {
                    Err(x->Err_0)
                } else if y is Err {
                    Err(y->Err_0)
                } else {
                    Ok(ScannedSystemModel {
                        symbol: symbol->Ok_0,
                        sector_symbol: sector_symbol->Ok_0,
                        kind: kind->Ok_0,
                        x: x->Ok_0,
                        y: y->Ok_0,
                    })
                }
            },
            _ => Err(mismatch(j, field, Shape::Object)),
        }
    }

    fn from_json(j: &Json, field: &str) -> (r: Result<ScannedSystem, DecodeError>) {
        match j {
            Json::Object(_) => {},
            _ => {
                return Err(mismatch_error(j, field, Shape::Object));
            },
        }
        let symbol = required_field::<String>(j, "symbol")?;
        let sector_symbol = required_field::<String>(j, "sectorSymbol")?;
        let kind = required_field::<SystemType>(j, "type")?;
        let x = required_field::<i32>(j, "x")?;
        let y = required_field::<i32>(j, "y")?;
        Ok(ScannedSystem { symbol, sector_symbol, kind, x, y })
    }
}

/// A waypoint as a scan shows it.
#[derive(Debug, PartialEq, Eq)]
pub struct ScannedWaypoint {
    pub symbol: String,
    pub kind: WaypointType,
    pub system_symbol: String,
    pub x: i32,
    pub y: i32,
    pub orbitals: Vec<Symbolic>,
    pub faction: Symbolic,
    pub traits: Vec<WaypointTrait>,
    pub chart: Option<Chart>,
}

/// The mathematical value of a `ScannedWaypoint`.
pub struct ScannedWaypointModel {
    pub symbol: Seq<char>,
    pub kind: WaypointType,
    pub system_symbol: Seq<char>,
    pub x: i32,
    pub y: i32,
    pub orbitals: Seq<SymbolicModel>,
    pub faction: SymbolicModel,
    pub traits: Seq<TypedSymbolicModel<WaypointTraitSymbol>>,
    pub chart: Option<ChartModel>,
}

impl FromJson for ScannedWaypoint {
    type Model = ScannedWaypointModel;

    open spec fn model(&self) -> ScannedWaypointModel {
        ScannedWaypointModel {
            symbol: self.symbol.model(),
            kind: self.kind.model(),
            system_symbol: self.system_symbol.model(),
            x: self.x.model(),
            y: self.y.model(),
            orbitals: self.orbitals.model(),
            faction: self.faction.model(),
            traits: self.traits.model(),
            chart: self.chart.model(),
        }
    }

    open spec fn parsed(j: JsonView, field: Seq<char>) -> Result<ScannedWaypointModel, DecodeErrorView> {
        match j {
            JsonView::Object(entries) => {
                let symbol = required_in::<String>(entries, "symbol"@);
                let kind = required_in::<WaypointType>(entries, "type"@);
                let system_symbol = required_in::<String>(entries, "systemSymbol"@);
                let x = required_in::<i32>(entries, "x"@);
                let y = required_in::<i32>(entries, "y"@);
                let orbitals = required_in::<Vec<Symbolic>>(entries, "orbitals"@);
                let faction = required_in::<Symbolic>(entries, "faction"@);
                let traits = required_in::<Vec<WaypointTrait>>(entries, "traits"@);
                let chart = optional_in::<Chart>(entries, "chart"@);
                if symbol is Err {
                    Err(symbol->Err_0)
                } else if kind is Err {
                    Err(kind->Err_0)
                } else if system_symbol is Err {
                    Err(system_symbol->Err_0)
                } else if x is Err {
                    Err(x->Err_0)
                } else if y is Err {
                    Err(y->Err_0)
                } else if orbitals is Err {
                    Err(orbitals->Err_0)
                } else if faction is Err {
                    Err(faction->Err_0)
                } else if traits is Err {
                    Err(traits->Err_0)
                } else if chart is Err {
                    Err(chart->Err_0)
                } else {
                    Ok(ScannedWaypointModel {
                        symbol: symbol->Ok_0,
                        kind: kind->Ok_0,
                        system_symbol: system_symbol->Ok_0,
                        x: x->Ok_0,
                        y: y->Ok_0,
                        orbitals: orbitals->Ok_0,
                        faction: faction->Ok_0,
                        traits: traits->Ok_0,
                        chart: chart->Ok_0,
                    })
                }
            },
            _ => Err(mismatch(j, field, Shape::Object)),
        }
    }

    fn from_json(j: &Json, field: &str) -> (r: Result<ScannedWaypoint, DecodeError>) {
        match j {
            Json::Object(_) => {},
            _ => {
                return Err(mismatch_error(j, field, Shape::Object));
            },
        }
        let symbol = required_field::<String>(j, "symbol")?;
        let kind = required_field::<WaypointType>(j, "type")?;
        let system_symbol = required_field::<String>(j, "systemSymbol")?;
        let x = required_field::<i32>(j, "x")?;
        let y = required_field::<i32>(j, "y")?;
        let orbitals = required_field::<Vec<Symbolic>>(j, "orbitals")?;
        let faction = required_field::<Symbolic>(j, "faction")?;
        let traits = required_field::<Vec<WaypointTrait>>(j, "traits")?;
        let chart = optional_field::<Chart>(j, "chart")?;
        Ok(ScannedWaypoint { symbol, kind, system_symbol, x, y, orbitals, faction, traits, chart })
    }
}

/// A ship and all its parts.
#[derive(Debug, PartialEq, Eq)]
pub struct Ship {
    pub symbol: String,
    pub registration: ShipRegistration,
    pub nav: ShipNav,
    pub crew: ShipCrew,
    pub frame: ShipFrame,
    pub reactor: ShipReactor,
    pub engine: ShipEngine,
    pub modules: Vec<ShipModule>,
    pub mounts: Vec<ShipMount>,
    pub cargo: ShipCargo,
    pub fuel: ShipFuel,
}

/// The mathematical value of a `Ship`.
pub struct ShipModel {
    pub symbol: Seq<char>,
    pub registration: ShipRegistrationModel,
    pub nav: ShipNavModel,
    pub crew: ShipCrewModel,
    pub frame: ShipFrameModel,
    pub reactor: ShipReactorModel,
    pub engine: ShipEngineModel,
    pub modules: Seq<ShipModuleModel>,
    pub mounts: Seq<ShipMountModel>,
    pub cargo: ShipCargoModel,
    pub fuel: ShipFuelModel,
}

impl FromJson for Ship {
    type Model = ShipModel;

    open spec fn model(&self) -> ShipModel {
        ShipModel {
            symbol: self.symbol.model(),
            registration: self.registration.model(),
            nav: self.nav.model(),
            crew: self.crew.model(),
            frame: self.frame.model(),
            reactor: self.reactor.model(),
            engine: self.engine.model(),
            modules: self.modules.model(),
            mounts: self.mounts.model(),
            cargo: self.cargo.model(),
            fuel: self.fuel.model(),
        }
    }

    open spec fn parsed(j: JsonView, field: Seq<char>) -> Result<ShipModel, DecodeErrorView> {
        match j {
            JsonView::Object(entries) => {
                let symbol = required_in::<String>(entries, "symbol"@);
                let registration = required_in::<ShipRegistration>(entries, "registration"@);
                let nav = required_in::<ShipNav>(entries, "nav"@);
                let crew = required_in::<ShipCrew>(entries, "crew"@);
                let frame = required_in::<ShipFrame>(entries, "frame"@);
                let reactor = required_in::<ShipReactor>(entries, "reactor"@);
                let engine = required_in::<ShipEngine>(entries, "engine"@);
                let modules = required_in::<Vec<ShipModule>>(entries, "modules"@);
                let mounts = required_in::<Vec<ShipMount>>(entries, "mounts"@);
                let cargo = required_in::<ShipCargo>(entries, "cargo"@);
                let fuel = required_in::<ShipFuel>(entries, "fuel"@);
                if symbol is Err {
                    Err(symbol->Err_0)
                } else if registration is Err {
                    Err(registration->Err_0)
                } else if nav is Err {
                    Err(nav->Err_0)
                } else if crew is Err {
                    Err(crew->Err_0)
                } else if frame is Err {
                    Err(frame->Err_0)
                } else if reactor is Err {
                    Err(reactor->Err_0)
                } else if engine is Err {
                    Err(engine->Err_0)
                } else if modules is Err {
                    Err(modules->Err_0)
                } else if mounts is Err {
                    Err(mounts->Err_0)
                } else if cargo is Err {
                    Err(cargo->Err_0)
                } else if fuel is Err {
                    Err(fuel->Err_0)
                } else {
                    Ok(ShipModel {
                        symbol: symbol->Ok_0,
                        registration: registration->Ok_0,
                        nav: nav->Ok_0,
                        crew: crew->Ok_0,
                        frame: frame->Ok_0,
                        reactor: reactor->Ok_0,
                        engine: engine->Ok_0,
                        modules: modules->Ok_0,
                        mounts: mounts->Ok_0,
                        cargo: cargo->Ok_0,
                        fuel: fuel->Ok_0,
                    })
                }
            },
            _ => Err(mismatch(j, field, Shape::Object)),
        }
    }

    fn from_json(j: &Json, field: &str) -> (r: Result<Ship, DecodeError>) {
        match j {
            Json::Object(_) => {},
            _ => {
                return Err(mismatch_error(j, field, Shape::Object));
            },
        }
        let symbol = required_field::<String>(j, "symbol")?;
        let registration = required_field::<ShipRegistration>(j, "registration")?;
        let nav = required_field::<ShipNav>(j, "nav")?;
        let crew = required_field::<ShipCrew>(j, "crew")?;
        let frame = required_field::<ShipFrame>(j, "frame")?;
        let reactor = required_field::<ShipReactor>(j, "reactor")?;
        let engine = required_field::<ShipEngine>(j, "engine")?;
        let modules = required_field::<Vec<ShipModule>>(j, "modules")?;
        let mounts = required_field::<Vec<ShipMount>>(j, "mounts")?;
        let cargo = required_field::<ShipCargo>(j, "cargo")?;
        let fuel = required_field::<ShipFuel>(j, "fuel")?;
        Ok(Ship { symbol, registration, nav, crew, frame, reactor, engine, modules, mounts, cargo, fuel })
    }
}

/// What a ship carries.
#[derive(Debug, PartialEq, Eq)]
pub struct ShipCargo {
    pub capacity: u32,
    pub units: u32,
    pub inventory: Vec<ShipCargoItem>,
}

/// The mathematical value of a `ShipCargo`.
pub struct ShipCargoModel {
    pub capacity: u32,
    pub units: u32,
    pub inventory: Seq<ShipCargoItemModel>,
}

impl FromJson for ShipCargo {
    type Model = ShipCargoModel;

    open spec fn model(&self) -> ShipCargoModel {
        ShipCargoModel {
            capacity: self.capacity.model(),
            units: self.units.model(),
            inventory: self.inventory.model(),
        }
    }

    open spec fn parsed(j: JsonView, field: Seq<char>) -> Result<ShipCargoModel, DecodeErrorView> {
        match j {
            JsonView::Object(entries) => {
                let capacity = required_in::<u32>(entries, "capacity"@);
                let units = required_in::<u32>(entries, "units"@);
                let inventory = required_in::<Vec<ShipCargoItem>>(entries, "inventory"@);
                if capacity is Err {
                    Err(capacity->Err_0)
                } else if units is Err {
                    Err(units->Err_0)
                } else if inventory is Err {
                    Err(inventory->Err_0)
                } else {
                    Ok(ShipCargoModel {
                        capacity: capacity->Ok_0,
                        units: units->Ok_0,
                        inventory: inventory->Ok_0,
                    })
                }
            },
            _ => Err(mismatch(j, field, Shape::Object)),
        }
    }

    fn from_json(j: &Json, field: &str) -> (r: Result<ShipCargo, DecodeError>) {
        match j {
            Json::Object(_) => {},
            _ => {
                return Err(mismatch_error(j, field, Shape::Object));
            },
        }
        let capacity = required_field::<u32>(j, "capacity")?;
        let units = required_field::<u32>(j, "units")?;
        let inventory = required_field::<Vec<ShipCargoItem>>(j, "inventory")?;
        Ok(ShipCargo { capacity, units, inventory })
    }
}

/// One kind of good in a ship's cargo.
#[derive(Debug, PartialEq, Eq)]
pub struct ShipCargoItem {
    pub symbol: String,
    pub name: String,
    pub description: String,
    pub units: u32,
}

/// The mathematical value of a `ShipCargoItem`.
pub struct ShipCargoItemModel {
    pub symbol: Seq<char>,
    pub name: Seq<char>,
    pub description: Seq<char>,
    pub units: u32,
}

impl FromJson for ShipCargoItem {
    type Model = ShipCargoItemModel;

    open spec fn model(&self) -> ShipCargoItemModel {
        ShipCargoItemModel {
            symbol: self.symbol.model(),
            name: self.name.model(),
            description: self.description.model(),
            units: self.units.model(),
        }
    }

    open spec fn parsed(j: JsonView, field: Seq<char>) -> Result<ShipCargoItemModel, DecodeErrorView> {
        match j {
            JsonView::Object(entries) => {
                let symbol = required_in::<String>(entries, "symbol"@);
                let name = required_in::<String>(entries, "name"@);
                let description = required_in::<String>(entries, "description"@);
                let units = required_in::<u32>(entries, "units"@);
                if symbol is Err {
                    Err(symbol->Err_0)
                } else if name is Err {
                    Err(name->Err_0)
                } else if description is Err {
                    Err(description->Err_0)
                } else if units is Err {
                    Err(units->Err_0)
                } else {
                    Ok(ShipCargoItemModel {
                        symbol: symbol->Ok_0,
                        name: name->Ok_0,
                        description: description->Ok_0,
                        units: units->Ok_0,
                    })
                }
            },
            _ => Err(mismatch(j, field, Shape::Object)),
        }
    }

    fn from_json(j: &Json, field: &str) -> (r: Result<ShipCargoItem, DecodeError>) {
        match j {
            Json::Object(_) => {},
            _ => {
                return Err(mismatch_error(j, field, Shape::Object));
            },
        }
        let symbol = required_field::<String>(j, "symbol")?;
        let name = required_field::<String>(j, "name")?;
        let description = required_field::<String>(j, "description")?;
        let units = required_field::<u32>(j, "units")?;
        Ok(ShipCargoItem { symbol, name, description, units })
    }
}

/// The crew of a ship.
#[derive(Debug, PartialEq, Eq)]
pub struct ShipCrew {
    pub current: i32,
    pub required: i32,
    pub capacity: i32,
    pub rotation: ShipCrewRotation,
    pub morale: u8,
    pub wages: u32,
}

/// The mathematical value of a `ShipCrew`.
pub struct ShipCrewModel {
    pub current: i32,
    pub required: i32,
    pub capacity: i32,
    pub rotation: ShipCrewRotation,
    pub morale: u8,
    pub wages: u32,
}

impl FromJson for ShipCrew {
    type Model = ShipCrewModel;

    open spec fn model(&self) -> ShipCrewModel {
        ShipCrewModel {
            current: self.current.model(),
            required: self.required.model(),
            capacity: self.capacity.model(),
            rotation: self.rotation.model(),
            morale: self.morale.model(),
            wages: self.wages.model(),
        }
    }

    open spec fn parsed(j: JsonView, field: Seq<char>) -> Result<ShipCrewModel, DecodeErrorView> {
        match j {
            JsonView::Object(entries) => {
                let current = required_in::<i32>(entries, "current"@);
                let required = required_in::<i32>(entries, "required"@);
                let capacity = required_in::<i32>(entries, "capacity"@);
                let rotation = required_in::<ShipCrewRotation>(entries, "rotation"@);
                let morale = required_in::<u8>(entries, "morale"@);
                let wages = required_in::<u32>(entries, "wages"@);
                if current is Err {
                    Err(current->Err_0)
                } else if required is Err {
                    Err(required->Err_0)
                } else if capacity is Err {
                    Err(capacity->Err_0)
                } else if rotation is Err {
                    Err(rotation->Err_0)
                } else if morale is Err {
                    Err(morale->Err_0)
                } else if wages is Err {
                    Err(wages->Err_0)
                } else {
                    Ok(ShipCrewModel {
                        current: current->Ok_0,
                        required: required->Ok_0,
                        capacity: capacity->Ok_0,
                        rotation: rotation->Ok_0,
                        morale: morale->Ok_0,
                        wages: wages->Ok_0,
                    })
                }
            },
            _ => Err(mismatch(j, field, Shape::Object)),
        }
    }

    fn from_json(j: &Json, field: &str) -> (r: Result<ShipCrew, DecodeError>) {
        match j {
            Json::Object(_) => {},
            _ => {
                return Err(mismatch_error(j, field, Shape::Object));
            },
        }
        let current = required_field::<i32>(j, "current")?;
        let required = required_field::<i32>(j, "required")?;
        let capacity = required_field::<i32>(j, "capacity")?;
        let rotation = required_field::<ShipCrewRotation>(j, "rotation")?;
        let morale = required_field::<u8>(j, "morale")?;
        let wages = required_field::<u32>(j, "wages")?;
        Ok(ShipCrew { current, required, capacity, rotation, morale, wages })
    }
}

/// The engine of a ship.
#[derive(Debug, PartialEq, Eq)]
pub struct ShipEngine {
    pub symbol: ShipEngineSymbols,
    pub name: String,
    pub description: String,
    pub condition: Option<ShipCondition>,
    pub speed: u32,
    pub requirements: ShipRequirements,
}

/// The mathematical value of a `ShipEngine`.
pub struct ShipEngineModel {
    pub symbol: ShipEngineSymbols,
    pub name: Seq<char>,
    pub description: Seq<char>,
    pub condition: Option<u8>,
    pub speed: u32,
    pub requirements: ShipRequirementsModel,
}

impl FromJson for ShipEngine {
    type Model = ShipEngineModel;

    open spec fn model(&self) -> ShipEngineModel {
        ShipEngineModel {
            symbol: self.symbol.model(),
            name: self.name.model(),
            description: self.description.model(),
            condition: self.condition.model(),
            speed: self.speed.model(),
            requirements: self.requirements.model(),
        }
    }

    open spec fn parsed(j: JsonView, field: Seq<char>) -> Result<ShipEngineModel, DecodeErrorView> {
        match j {
            JsonView::Object(entries) => {
                let symbol = required_in::<ShipEngineSymbols>(entries, "symbol"@);
                let name = required_in::<String>(entries, "name"@);
                let description = required_in::<String>(entries, "description"@);
                let condition = optional_in::<ShipCondition>(entries, "condition"@);
                let speed = required_in::<u32>(entries, "speed"@);
                let requirements = required_in::<ShipRequirements>(entries, "requirements"@);
                if symbol is Err {
                    Err(symbol->Err_0)
                } else if name is Err {
                    Err(name->Err_0)
                } else if description is Err {
                    Err(description->Err_0)
                } else if condition is Err {
                    Err(condition->Err_0)
                } else if speed is Err {
                    Err(speed->Err_0)
                } else if requirements is Err {
                    Err(requirements->Err_0)
                } else {
                    Ok(ShipEngineModel {
                        symbol: symbol->Ok_0,
                        name: name->Ok_0,
                        description: description->Ok_0,
                        condition: condition->Ok_0,
                        speed: speed->Ok_0,
                        requirements: requirements->Ok_0,
                    })
                }
            },
            _ => Err(mismatch(j, field, Shape::Object)),
        }
    }

    fn from_json(j: &Json, field: &str) -> (r: Result<ShipEngine, DecodeError>) {
        match j {
            Json::Object(_) => {},
            _ => {
                return Err(mismatch_error(j, field, Shape::Object));
            },
        }
        let symbol = required_field::<ShipEngineSymbols>(j, "symbol")?;
        let name = required_field::<String>(j, "name")?;
        let description = required_field::<String>(j, "description")?;
        let condition = optional_field::<ShipCondition>(j, "condition")?;
        let speed = required_field::<u32>(j, "speed")?;
        let requirements = required_field::<ShipRequirements>(j, "requirements")?;
        Ok(ShipEngine { symbol, name, description, condition, speed, requirements })
    }
}

/// The frame of a ship.
#[derive(Debug, PartialEq, Eq)]
pub struct ShipFrame {
    pub symbol: ShipFrameSymbols,
    pub name: String,
    pub description: String,
    pub condition: Option<ShipCondition>,
    pub module_slots: i32,
    pub mounting_points: i32,
    pub fuel_capacity: i32,
    pub requirements: ShipRequirements,
}

/// The mathematical value of a `ShipFrame`.
pub struct ShipFrameModel {
    pub symbol: ShipFrameSymbols,
    pub name: Seq<char>,
    pub description: Seq<char>,
    pub condition: Option<u8>,
    pub module_slots: i32,
    pub mounting_points: i32,
    pub fuel_capacity: i32,
    pub requirements: ShipRequirementsModel,
}

impl FromJson for ShipFrame {
    type Model = ShipFrameModel;

    open spec fn model(&self) -> ShipFrameModel {
        ShipFrameModel {
            symbol: self.symbol.model(),
            name: self.name.model(),
            description: self.description.model(),
            condition: self.condition.model(),
            module_slots: self.module_slots.model(),
            mounting_points: self.mounting_points.model(),
            fuel_capacity: self.fuel_capacity.model(),
            requirements: self.requirements.model(),
        }
    }

    open spec fn parsed(j: JsonView, field: Seq<char>) -> Result<ShipFrameModel, DecodeErrorView> {
        match j {
            JsonView::Object(entries) => {
                let symbol = required_in::<ShipFrameSymbols>(entries, "symbol"@);
                let name = required_in::<String>(entries, "name"@);
                let description = required_in::<String>(entries, "description"@);
                let condition = optional_in::<ShipCondition>(entries, "condition"@);
                let module_slots = required_in::<i32>(entries, "moduleSlots"@);
                let mounting_points = required_in::<i32>(entries, "mountingPoints"@);
                let fuel_capacity = required_in::<i32>(entries, "fuelCapacity"@);
                let requirements = required_in::<ShipRequirements>(entries, "requirements"@);
                if symbol is Err {
                    Err(symbol->Err_0)
                } else if name is Err {
                    Err(name->Err_0)
                } else if description is Err {
                    Err(description->Err_0)
                } else if condition is Err {
                    Err(condition->Err_0)
                } else if module_slots is Err {
                    Err(module_slots->Err_0)
                } else if mounting_points is Err {
                    Err(mounting_points->Err_0)
                } else if fuel_capacity is Err {
                    Err(fuel_capacity->Err_0)
                } else if requirements is Err {
                    Err(requirements->Err_0)
                } else {
                    Ok(ShipFrameModel {
                        symbol: symbol->Ok_0,
                        name: name->Ok_0,
                        description: description->Ok_0,
                        condition: condition->Ok_0,
                        module_slots: module_slots->Ok_0,
                        mounting_points: mounting_points->Ok_0,
                        fuel_capacity: fuel_capacity->Ok_0,
                        requirements: requirements->Ok_0,
                    })
                }
            },
            _ => Err(mismatch(j, field, Shape::Object)),
        }
    }

    fn from_json(j: &Json, field: &str) -> (r: Result<ShipFrame, DecodeError>) {
        match j {
            Json::Object(_) => {},
            _ => {
                return Err(mismatch_error(j, field, Shape::Object));
            },
        }
        let symbol = required_field::<ShipFrameSymbols>(j, "symbol")?;
        let name = required_field::<String>(j, "name")?;
        let description = required_field::<String>(j, "description")?;
        let condition = optional_field::<ShipCondition>(j, "condition")?;
        let module_slots = required_field::<i32>(j, "moduleSlots")?;
        let mounting_points = required_field::<i32>(j, "mountingPoints")?;
        let fuel_capacity = required_field::<i32>(j, "fuelCapacity")?;
        let requirements = required_field::<ShipRequirements>(j, "requirements")?;
        Ok(ShipFrame { symbol, name, description, condition, module_slots, mounting_points, fuel_capacity, requirements })
    }
}

/// The fuel a ship holds.
#[derive(Debug, PartialEq, Eq)]
pub struct ShipFuel {
    pub current: u32,
    pub capacity: u32,
    pub consumed: Option<ShipFuelConsumption>,
}

/// The mathematical value of a `ShipFuel`.
pub struct ShipFuelModel {
    pub current: u32,
    pub capacity: u32,
    pub consumed: Option<ShipFuelConsumptionModel>,
}

impl FromJson for ShipFuel {
    type Model = ShipFuelModel;

    open spec fn model(&self) -> ShipFuelModel {
        ShipFuelModel {
            current: self.current.model(),
            capacity: self.capacity.model(),
            consumed: self.consumed.model(),
        }
    }

    open spec fn parsed(j: JsonView, field: Seq<char>) -> Result<ShipFuelModel, DecodeErrorView> {
        match j {
            JsonView::Object(entries) => {
                let current = required_in::<u32>(entries, "current"@);
                let capacity = required_in::<u32>(entries, "capacity"@);
                let consumed = optional_in::<ShipFuelConsumption>(entries, "consumed"@);
                if current is Err {
                    Err(current->Err_0)
                } else if capacity is Err {
                    Err(capacity->Err_0)
                } else if consumed is Err {
                    Err(consumed->Err_0)
                } else {
                    Ok(ShipFuelModel {
                        current: current->Ok_0,
                        capacity: capacity->Ok_0,
                        consumed: consumed->Ok_0,
                    })
                }
            },
            _ => Err(mismatch(j, field, Shape::Object)),
        }
    }

    fn from_json(j: &Json, field: &str) -> (r: Result<ShipFuel, DecodeError>) {
        match j {
            Json::Object(_) => {},
            _ => {
                return Err(mismatch_error(j, field, Shape::Object));
            },
        }
        let current = required_field::<u32>(j, "current")?;
        let capacity = required_field::<u32>(j, "capacity")?;
        let consumed = optional_field::<ShipFuelConsumption>(j, "consumed")?;
        Ok(ShipFuel { current, capacity, consumed })
    }
}

/// The fuel a ship used on its last journey.
#[derive(Debug, PartialEq, Eq)]
pub struct ShipFuelConsumption {
    pub amount: u32,
    pub timestamp: Timestamp,
}

/// The mathematical value of a `ShipFuelConsumption`.
pub struct ShipFuelConsumptionModel {
    pub amount: u32,
    pub timestamp: Timestamp,
}

impl FromJson for ShipFuelConsumption {
    type Model = ShipFuelConsumptionModel;

    open spec fn model(&self) -> ShipFuelConsumptionModel {
        ShipFuelConsumptionModel {
            amount: self.amount.model(),
            timestamp: self.timestamp.model(),
        }
    }

    open spec fn parsed(j: JsonView, field: Seq<char>) -> Result<ShipFuelConsumptionModel, DecodeErrorView> {
        match j {
            JsonView::Object(entries) => {
                let amount = required_in::<u32>(entries, "amount"@);
                let timestamp = required_in::<Timestamp>(entries, "timestamp"@);
                if amount is Err {
                    Err(amount->Err_0)
                } else if timestamp is Err {
                    Err(timestamp->Err_0)
                } else {
                    Ok(ShipFuelConsumptionModel {
                        amount: amount->Ok_0,
                        timestamp: timestamp->Ok_0,
                    })
                }
            },
            _ => Err(mismatch(j, field, Shape::Object)),
        }
    }

    fn from_json(j: &Json, field: &str) -> (r: Result<ShipFuelConsumption, DecodeError>) {
        match j {
            Json::Object(_) => {},
            _ => {
                return Err(mismatch_error(j, field, Shape::Object));
            },
        }
        let amount = required_field::<u32>(j, "amount")?;
        let timestamp = required_field::<Timestamp>(j, "timestamp")?;
        Ok(ShipFuelConsumption { amount, timestamp })
    }
}

/// A module installed in a ship.
#[derive(Debug, PartialEq, Eq)]
pub struct ShipModule {
    pub symbol: ShipModuleSymbols,
    pub capacity: Option<u32>,
    pub range: Option<u32>,
    pub name: String,
    pub description: Option<String>,
    pub requirements: ShipRequirements,
}

/// The mathematical value of a `ShipModule`.
pub struct ShipModuleModel {
    pub symbol: ShipModuleSymbols,
    pub capacity: Option<u32>,
    pub range: Option<u32>,
    pub name: Seq<char>,
    pub description: Option<Seq<char>>,
    pub requirements: ShipRequirementsModel,
}

impl FromJson for ShipModule {
    type Model = ShipModuleModel;

    open spec fn model(&self) -> ShipModuleModel {
        ShipModuleModel {
            symbol: self.symbol.model(),
            capacity: self.capacity.model(),
            range: self.range.model(),
            name: self.name.model(),
            description: self.description.model(),
            requirements: self.requirements.model(),
        }
    }

    open spec fn parsed(j: JsonView, field: Seq<char>) -> Result<ShipModuleModel, DecodeErrorView> {
        match j {
            JsonView::Object(entries) => {
                let symbol = required_in::<ShipModuleSymbols>(entries, "symbol"@);
                let capacity = optional_in::<u32>(entries, "capacity"@);
                let range = optional_in::<u32>(entries, "range"@);
                let name = required_in::<String>(entries, "name"@);
                let description = optional_in::<String>(entries, "description"@);
                let requirements = required_in::<ShipRequirements>(entries, "requirements"@);
                if symbol is Err {
                    Err(symbol->Err_0)
                } else if capacity is Err {
                    Err(capacity->Err_0)
                } else if range is Err {
                    Err(range->Err_0)
                } else if name is Err {
                    Err(name->Err_0)
                } else if description is Err {
                    Err(description->Err_0)
                } else if requirements is Err {
                    Err(requirements->Err_0)
                } else {
                    Ok(ShipModuleModel {
                        symbol: symbol->Ok_0,
                        capacity: capacity->Ok_0,
                        range: range->Ok_0,
                        name: name->Ok_0,
                        description: description->Ok_0,
                        requirements: requirements->Ok_0,
                    })
                }
            },
            _ => Err(mismatch(j, field, Shape::Object)),
        }
    }

    fn from_json(j: &Json, field: &str) -> (r: Result<ShipModule, DecodeError>) {
        match j {
            Json::Object(_) => {},
            _ => {
                return Err(mismatch_error(j, field, Shape::Object));
            },
        }
        let symbol = required_field::<ShipModuleSymbols>(j, "symbol")?;
        let capacity = optional_field::<u32>(j, "capacity")?;
        let range = optional_field::<u32>(j, "range")?;
        let name = required_field::<String>(j, "name")?;
        let description = optional_field::<String>(j, "description")?;
        let requirements = required_field::<ShipRequirements>(j, "requirements")?;
        Ok(ShipModule { symbol, capacity, range, name, description, requirements })
    }
}

/// A mount installed on a ship.
#[derive(Debug, PartialEq, Eq)]
pub struct ShipMount {
    pub symbol: ShipMountSymbols,
    pub name: String,
    pub description: Option<String>,
    pub strength: Option<u32>,
    pub deposits: Option<Vec<Deposits>>,
    pub requirements: ShipRequirements,
}

/// The mathematical value of a `ShipMount`.
pub struct ShipMountModel {
    pub symbol: ShipMountSymbols,
    pub name: Seq<char>,
    pub description: Option<Seq<char>>,
    pub strength: Option<u32>,
    pub deposits: Option<Seq<Deposits>>,
    pub requirements: ShipRequirementsModel,
}

impl FromJson for ShipMount {
    type Model = ShipMountModel;

    open spec fn model(&self) -> ShipMountModel {
        ShipMountModel {
            symbol: self.symbol.model(),
            name: self.name.model(),
            description: self.description.model(),
            strength: self.strength.model(),
            deposits: self.deposits.model(),
            requirements: self.requirements.model(),
        }
    }

    open spec fn parsed(j: JsonView, field: Seq<char>) -> Result<ShipMountModel, DecodeErrorView> {
        match j {
            JsonView::Object(entries) => {
                let symbol = required_in::<ShipMountSymbols>(entries, "symbol"@);
                let name = required_in::<String>(entries, "name"@);
                let description = optional_in::<String>(entries, "description"@);
                let strength = optional_in::<u32>(entries, "strength"@);
                let deposits = optional_in::<Vec<Deposits>>(entries, "deposits"@);
                let requirements = required_in::<ShipRequirements>(entries, "requirements"@);
                if symbol is Err {
                    Err(symbol->Err_0)
                } else if name is Err {
                    Err(name->Err_0)
                } else if description is Err {
                    Err(description->Err_0)
                } else if strength is Err {
                    Err(strength->Err_0)
                } else if deposits is Err {
                    Err(deposits->Err_0)
                } else if requirements is Err {
                    Err(requirements->Err_0)
                } else {
                    Ok(ShipMountModel {
                        symbol: symbol->Ok_0,
                        name: name->Ok_0,
                        description: description->Ok_0,
                        strength: strength->Ok_0,
                        deposits: deposits->Ok_0,
                        requirements: requirements->Ok_0,
                    })
                }
            },
            _ => Err(mismatch(j, field, Shape::Object)),
        }
    }

    fn from_json(j: &Json, field: &str) -> (r: Result<ShipMount, DecodeError>) {
        match j {
            Json::Object(_) => {},
            _ => {
                return Err(mismatch_error(j, field, Shape::Object));
            },
        }
        let symbol = required_field::<ShipMountSymbols>(j, "symbol")?;
        let name = required_field::<String>(j, "name")?;
        let description = optional_field::<String>(j, "description")?;
        let strength = optional_field::<u32>(j, "strength")?;
        let deposits = optional_field::<Vec<Deposits>>(j, "deposits")?;
        let requirements = required_field::<ShipRequirements>(j, "requirements")?;
        Ok(ShipMount { symbol, name, description, strength, deposits, requirements })
    }
}

/// Where a ship is and where it is going.
#[derive(Debug, PartialEq, Eq)]
pub struct ShipNav {
    pub system_symbol: String,
    pub waypoint_symbol: String,
    pub route: ShipNavRoute,
    pub status: ShipNavStatus,
    pub flight_mode: ShipNavFlightMode,
}

/// The mathematical value of a `ShipNav`.
pub struct ShipNavModel {
    pub system_symbol: Seq<char>,
    pub waypoint_symbol: Seq<char>,
    pub route: ShipNavRouteModel,
    pub status: ShipNavStatus,
    pub flight_mode: ShipNavFlightMode,
}

impl FromJson for ShipNav {
    type Model = ShipNavModel;

    open spec fn model(&self) -> ShipNavModel {
        ShipNavModel {
            system_symbol: self.system_symbol.model(),
            waypoint_symbol: self.waypoint_symbol.model(),
            route: self.route.model(),
            status: self.status.model(),
            flight_mode: self.flight_mode.model(),
        }
    }

    open spec fn parsed(j: JsonView, field: Seq<char>) -> Result<ShipNavModel, DecodeErrorView> {
        match j {
            JsonView::Object(entries) => {
                let system_symbol = required_in::<String>(entries, "systemSymbol"@);
                let waypoint_symbol = required_in::<String>(entries, "waypointSymbol"@);
                let route = required_in::<ShipNavRoute>(entries, "route"@);
                let status = required_in::<ShipNavStatus>(entries, "status"@);
                let flight_mode = required_in::<ShipNavFlightMode>(entries, "flightMode"@);
                if system_symbol is Err {
                    Err(system_symbol->Err_0)
                } else if waypoint_symbol is Err {
                    Err(waypoint_symbol->Err_0)
                } else if route is Err {
                    Err(route->Err_0)
                } else if status is Err {
                    Err(status->Err_0)
                } else if flight_mode is Err {
                    Err(flight_mode->Err_0)
                } else {
                    Ok(ShipNavModel {
                        system_symbol: system_symbol->Ok_0,
                        waypoint_symbol: waypoint_symbol->Ok_0,
                        route: route->Ok_0,
                        status: status->Ok_0,
                        flight_mode: flight_mode->Ok_0,
                    })
                }
            },
            _ => Err(mismatch(j, field, Shape::Object)),
        }
    }

    fn from_json(j: &Json, field: &str) -> (r: Result<ShipNav, DecodeError>) {
        match j {
            Json::Object(_) => {},
            _ => {
                return Err(mismatch_error(j, field, Shape::Object));
            },
        }
        let system_symbol = required_field::<String>(j, "systemSymbol")?;
        let waypoint_symbol = required_field::<String>(j, "waypointSymbol")?;
        let route = required_field::<ShipNavRoute>(j, "route")?;
        let status = required_field::<ShipNavStatus>(j, "status")?;
        let flight_mode = required_field::<ShipNavFlightMode>(j, "flightMode")?;
        Ok(ShipNav { system_symbol, waypoint_symbol, route, status, flight_mode })
    }
}

/// The route a ship is on.
#[derive(Debug, PartialEq, Eq)]
pub struct ShipNavRoute {
    pub destination: ShipNavRouteWaypoint,
    pub departure: ShipNavRouteWaypoint,
    pub departure_time: Timestamp,
    pub arrival: Timestamp,
}

/// The mathematical value of a `ShipNavRoute`.
pub struct ShipNavRouteModel {
    pub destination: ShipNavRouteWaypointModel,
    pub departure: ShipNavRouteWaypointModel,
    pub departure_time: Timestamp,
    pub arrival: Timestamp,
}

impl FromJson for ShipNavRoute {
    type Model = ShipNavRouteModel;

    open spec fn model(&self) -> ShipNavRouteModel {
        ShipNavRouteModel {
            destination: self.destination.model(),
            departure: self.departure.model(),
            departure_time: self.departure_time.model(),
            arrival: self.arrival.model(),
        }
    }

    open spec fn parsed(j: JsonView, field: Seq<char>) -> Result<ShipNavRouteModel, DecodeErrorView> {
        match j {
            JsonView::Object(entries) => {
                let destination = required_in::<ShipNavRouteWaypoint>(entries, "destination"@);
                let departure = required_in::<ShipNavRouteWaypoint>(entries, "departure"@);
                let departure_time = required_in::<Timestamp>(entries, "departureTime"@);
                let arrival = required_in::<Timestamp>(entries, "arrival"@);
                if destination is Err {
                    Err(destination->Err_0)
                } else if departure is Err {
                    Err(departure->Err_0)
                } else if departure_time is Err {
                    Err(departure_time->Err_0)
                } else if arrival is Err {
                    Err(arrival->Err_0)
                } else {
                    Ok(ShipNavRouteModel {
                        destination: destination->Ok_0,
                        departure: departure->Ok_0,
                        departure_time: departure_time->Ok_0,
                        arrival: arrival->Ok_0,
                    })
                }
            },
            _ => Err(mismatch(j, field, Shape::Object)),
        }
    }

    fn from_json(j: &Json, field: &str) -> (r: Result<ShipNavRoute, DecodeError>) {
        match j {
            Json::Object(_) => {},
            _ => {
                return Err(mismatch_error(j, field, Shape::Object));
            },
        }
        let destination = required_field::<ShipNavRouteWaypoint>(j, "destination")?;
        let departure = required_field::<ShipNavRouteWaypoint>(j, "departure")?;
        let departure_time = required_field::<Timestamp>(j, "departureTime")?;
        let arrival = required_field::<Timestamp>(j, "arrival")?;
        Ok(ShipNavRoute { destination, departure, departure_time, arrival })
    }
}

/// One end of a ship's route.
#[derive(Debug, PartialEq, Eq)]
pub struct ShipNavRouteWaypoint {
    pub symbol: String,
    pub kind: WaypointType,
    pub system_symbol: String,
    pub x: i32,
    pub y: i32,
}

/// The mathematical value of a `ShipNavRouteWaypoint`.
pub struct ShipNavRouteWaypointModel {
    pub symbol: Seq<char>,
    pub kind: WaypointType,
    pub system_symbol: Seq<char>,
    pub x: i32,
    pub y: i32,
}

impl FromJson for ShipNavRouteWaypoint {
    type Model = ShipNavRouteWaypointModel;

    open spec fn model(&self) -> ShipNavRouteWaypointModel {
        ShipNavRouteWaypointModel {
            symbol: self.symbol.model(),
            kind: self.kind.model(),
            system_symbol: self.system_symbol.model(),
            x: self.x.model(),
            y: self.y.model(),
        }
    }

    open spec fn parsed(j: JsonView, field: Seq<char>) -> Result<ShipNavRouteWaypointModel, DecodeErrorView> {
        match j {
            JsonView::Object(entries) => {
                let symbol = required_in::<String>(entries, "symbol"@);
                let kind = required_in::<WaypointType>(entries, "type"@);
                let system_symbol = required_in::<String>(entries, "systemSymbol"@);
                let x = required_in::<i32>(entries, "x"@);
                let y = required_in::<i32>(entries, "y"@);
                if symbol is Err {
                    Err(symbol->Err_0)
                } else if kind is Err {
                    Err(kind->Err_0)
                } else if system_symbol is Err {
                    Err(system_symbol->Err_0)
                } else if x is Err {
                    Err(x->Err_0)
                } else if y is Err {
                    Err(y->Err_0)
                } else {
                    Ok(ShipNavRouteWaypointModel {
                        symbol: symbol->Ok_0,
                        kind: kind->Ok_0,
                        system_symbol: system_symbol->Ok_0,
                        x: x->Ok_0,
                        y: y->Ok_0,
                    })
                }
            },
            _ => Err(mismatch(j, field, Shape::Object)),
        }
    }

    fn from_json(j: &Json, field: &str) -> (r: Result<ShipNavRouteWaypoint, DecodeError>) {
        match j {
            Json::Object(_) => {},
            _ => {
                return Err(mismatch_error(j, field, Shape::Object));
            },
        }
        let symbol = required_field::<String>(j, "symbol")?;
        let kind = required_field::<WaypointType>(j, "type")?;
        let system_symbol = required_field::<String>(j, "systemSymbol")?;
        let x = required_field::<i32>(j, "x")?;
        let y = required_field::<i32>(j, "y")?;
        Ok(ShipNavRouteWaypoint { symbol, kind, system_symbol, x, y })
    }
}

/// The reactor of a ship.
#[derive(Debug, PartialEq, Eq)]
pub struct ShipReactor {
    pub symbol: ShipReactorSymbols,
    pub name: String,
    pub description: String,
    pub condition: Option<ShipCondition>,
    pub power_output: u32,
    pub requirements: ShipRequirements,
}

/// The mathematical value of a `ShipReactor`.
pub struct ShipReactorModel {
    pub symbol: ShipReactorSymbols,
    pub name: Seq<char>,
    pub description: Seq<char>,
    pub condition: Option<u8>,
    pub power_output: u32,
    pub requirements: ShipRequirementsModel,
}

impl FromJson for ShipReactor {
    type Model = ShipReactorModel;

    open spec fn model(&self) -> ShipReactorModel {
        ShipReactorModel {
            symbol: self.symbol.model(),
            name: self.name.model(),
            description: self.description.model(),
            condition: self.condition.model(),
            power_output: self.power_output.model(),
            requirements: self.requirements.model(),
        }
    }

    open spec fn parsed(j: JsonView, field: Seq<char>) -> Result<ShipReactorModel, DecodeErrorView> {
        match j {
            JsonView::Object(entries) => {
                let symbol = required_in::<ShipReactorSymbols>(entries, "symbol"@);
                let name = required_in::<String>(entries, "name"@);
                let description = required_in::<String>(entries, "description"@);
                let condition = optional_in::<ShipCondition>(entries, "condition"@);
                let power_output = required_in::<u32>(entries, "powerOutput"@);
                let requirements = required_in::<ShipRequirements>(entries, "requirements"@);
                if symbol is Err {
                    Err(symbol->Err_0)
                } else if name is Err {
                    Err(name->Err_0)
                } else if description is Err {
                    Err(description->Err_0)
                } else if condition is Err {
                    Err(condition->Err_0)
                } else if power_output is Err {
                    Err(power_output->Err_0)
                } else if requirements is Err {
                    Err(requirements->Err_0)
                } else {
                    Ok(ShipReactorModel {
                        symbol: symbol->Ok_0,
                        name: name->Ok_0,
                        description: description->Ok_0,
                        condition: condition->Ok_0,
                        power_output: power_output->Ok_0,
                        requirements: requirements->Ok_0,
                    })
                }
            },
            _ => Err(mismatch(j, field, Shape::Object)),
        }
    }

    fn from_json(j: &Json, field: &str) -> (r: Result<ShipReactor, DecodeError>) {
        match j {
            Json::Object(_) => {},
            _ => {
                return Err(mismatch_error(j, field, Shape::Object));
            },
        }
        let symbol = required_field::<ShipReactorSymbols>(j, "symbol")?;
        let name = required_field::<String>(j, "name")?;
        let description = required_field::<String>(j, "description")?;
        let condition = optional_field::<ShipCondition>(j, "condition")?;
        let power_output = required_field::<u32>(j, "powerOutput")?;
        let requirements = required_field::<ShipRequirements>(j, "requirements")?;
        Ok(ShipReactor { symbol, name, description, condition, power_output, requirements })
    }
}

/// The registration of a ship.
#[derive(Debug, PartialEq, Eq)]
pub struct ShipRegistration {
    pub name: String,
    pub faction_symbol: String,
    pub role: ShipRole,
}

/// The mathematical value of a `ShipRegistration`.
pub struct ShipRegistrationModel {
    pub name: Seq<char>,
    pub faction_symbol: Seq<char>,
    pub role: ShipRole,
}

impl FromJson for ShipRegistration {
    type Model = ShipRegistrationModel;

    open spec fn model(&self) -> ShipRegistrationModel {
        ShipRegistrationModel {
            name: self.name.model(),
            faction_symbol: self.faction_symbol.model(),
            role: self.role.model(),
        }
    }

    open spec fn parsed(j: JsonView, field: Seq<char>) -> Result<ShipRegistrationModel, DecodeErrorView> {
        match j {
            JsonView::Object(entries) => {
                let name = required_in::<String>(entries, "name"@);
                let faction_symbol = required_in::<String>(entries, "factionSymbol"@);
                let role = required_in::<ShipRole>(entries, "role"@);
                if name is Err {
                    Err(name->Err_0)
                } else if faction_symbol is Err {
                    Err(faction_symbol->Err_0)
                } else if role is Err {
                    Err(role->Err_0)
                } else {
                    Ok(ShipRegistrationModel {
                        name: name->Ok_0,
                        faction_symbol: faction_symbol->Ok_0,
                        role: role->Ok_0,
                    })
                }
            },
            _ => Err(mismatch(j, field, Shape::Object)),
        }
    }

    fn from_json(j: &Json, field: &str) -> (r: Result<ShipRegistration, DecodeError>) {
        match j {
            Json::Object(_) => {},
            _ => {
                return Err(mismatch_error(j, field, Shape::Object));
            },
        }
        let name = required_field::<String>(j, "name")?;
        let faction_symbol = required_field::<String>(j, "factionSymbol")?;
        let role = required_field::<ShipRole>(j, "role")?;
        Ok(ShipRegistration { name, faction_symbol, role })
    }
}

/// What a part asks of the ship it is installed in.
#[derive(Debug, PartialEq, Eq)]
pub struct ShipRequirements {
    pub power: Option<i32>,
    pub crew: Option<i32>,
    pub slots: Option<i32>,
}

/// The mathematical value of a `ShipRequirements`.
pub struct ShipRequirementsModel {
    pub power: Option<i32>,
    pub crew: Option<i32>,
    pub slots: Option<i32>,
}

impl FromJson for ShipRequirements {
    type Model = ShipRequirementsModel;

    open spec fn model(&self) -> ShipRequirementsModel {
        ShipRequirementsModel {
            power: self.power.model(),
            crew: self.crew.model(),
            slots: self.slots.model(),
        }
    }

    open spec fn parsed(j: JsonView, field: Seq<char>) -> Result<ShipRequirementsModel, DecodeErrorView> {
        match j {
            JsonView::Object(entries) => {
                let power = optional_in::<i32>(entries, "power"@);
                let crew = optional_in::<i32>(entries, "crew"@);
                let slots = optional_in::<i32>(entries, "slots"@);
                if power is Err {
                    Err(power->Err_0)
                } else if crew is Err {
                    Err(crew->Err_0)
                } else if slots is Err {
                    Err(slots->Err_0)
                } else {
                    Ok(ShipRequirementsModel {
                        power: power->Ok_0,
                        crew: crew->Ok_0,
                        slots: slots->Ok_0,
                    })
                }
            },
            _ => Err(mismatch(j, field, Shape::Object)),
        }
    }

    fn from_json(j: &Json, field: &str) -> (r: Result<ShipRequirements, DecodeError>) {
        match j {
            Json::Object(_) => {},
            _ => {
                return Err(mismatch_error(j, field, Shape::Object));
            },
        }
        let power = optional_field::<i32>(j, "power")?;
        let crew = optional_field::<i32>(j, "crew")?;
        let slots = optional_field::<i32>(j, "slots")?;
        Ok(ShipRequirements { power, crew, slots })
    }
}

/// A type of ship, as a shipyard lists it.
#[derive(Debug, PartialEq, Eq)]
pub struct ShipTypeObject {
    pub kind: ShipType,
}

/// The mathematical value of a `ShipTypeObject`.
pub struct ShipTypeObjectModel {
    pub kind: ShipType,
}

impl FromJson for ShipTypeObject {
    type Model = ShipTypeObjectModel;

    open spec fn model(&self) -> ShipTypeObjectModel {
        ShipTypeObjectModel {
            kind: self.kind.model(),
        }
    }

    open spec fn parsed(j: JsonView, field: Seq<char>) -> Result<ShipTypeObjectModel, DecodeErrorView> {
        match j {
            JsonView::Object(entries) => {
                let kind = required_in::<ShipType>(entries, "type"@);
                if kind is Err {
                    Err(kind->Err_0)
                } else {
                    Ok(ShipTypeObjectModel {
                        kind: kind->Ok_0,
                    })
                }
            },
            _ => Err(mismatch(j, field, Shape::Object)),
        }
    }

    fn from_json(j: &Json, field: &str) -> (r: Result<ShipTypeObject, DecodeError>) {
        match j {
            Json::Object(_) => {},
            _ => {
                return Err(mismatch_error(j, field, Shape::Object));
            },
        }
        let kind = required_field::<ShipType>(j, "type")?;
        Ok(ShipTypeObject { kind })
    }
}

/// A shipyard: what it sells, and its recent transactions.
#[derive(Debug, PartialEq, Eq)]
pub struct Shipyard {
    pub symbol: String,
    pub ship_types: Vec<ShipTypeObject>,
    pub transactions: Vec<ShipyardTransaction>,
    pub ships: Vec<ShipyardShip>,
}

/// The mathematical value of a `Shipyard`.
pub struct ShipyardModel {
    pub symbol: Seq<char>,
    pub ship_types: Seq<ShipTypeObjectModel>,
    pub transactions: Seq<ShipyardTransactionModel>,
    pub ships: Seq<ShipyardShipModel>,
}

impl FromJson for Shipyard {
    type Model = ShipyardModel;

    open spec fn model(&self) -> ShipyardModel {
        ShipyardModel {
            symbol: self.symbol.model(),
            ship_types: self.ship_types.model(),
            transactions: self.transactions.model(),
            ships: self.ships.model(),
        }
    }

    open spec fn parsed(j: JsonView, field: Seq<char>) -> Result<ShipyardModel, DecodeErrorView> {
        match j {
            JsonView::Object(entries) => {
                let symbol = required_in::<String>(entries, "symbol"@);
                let ship_types = required_in::<Vec<ShipTypeObject>>(entries, "shipTypes"@);
                let transactions = required_in::<Vec<ShipyardTransaction>>(entries, "transactions"@);
                let ships = required_in::<Vec<ShipyardShip>>(entries, "ships"@);
                if symbol is Err {
                    Err(symbol->Err_0)
                } else if ship_types is Err {
                    Err(ship_types->Err_0)
                } else if transactions is Err {
                    Err(transactions->Err_0)
                } else if ships is Err {
                    Err(ships->Err_0)
                } else {
                    Ok(ShipyardModel {
                        symbol: symbol->Ok_0,
                        ship_types: ship_types->Ok_0,
                        transactions: transactions->Ok_0,
                        ships: ships->Ok_0,
                    })
                }
            },
            _ => Err(mismatch(j, field, Shape::Object)),
        }
    }

    fn from_json(j: &Json, field: &str) -> (r: Result<Shipyard, DecodeError>) {
        match j {
            Json::Object(_) => {},
            _ => {
                return Err(mismatch_error(j, field, Shape::Object));
            },
        }
        let symbol = required_field::<String>(j, "symbol")?;
        let ship_types = required_field::<Vec<ShipTypeObject>>(j, "shipTypes")?;
        let transactions = required_field::<Vec<ShipyardTransaction>>(j, "transactions")?;
        let ships = required_field::<Vec<ShipyardShip>>(j, "ships")?;
        Ok(Shipyard { symbol, ship_types, transactions, ships })
    }
}

/// A ship on offer at a shipyard.
#[derive(Debug, PartialEq, Eq)]
pub struct ShipyardShip {
    pub kind: Option<ShipType>,
    pub name: String,
    pub description: String,
    pub purchase_price: i32,
    pub frame: ShipFrame,
    pub reactor: ShipReactor,
    pub engine: ShipEngine,
    pub modules: Vec<ShipModule>,
    pub mounts: Vec<ShipMount>,
}

/// The mathematical value of a `ShipyardShip`.
pub struct ShipyardShipModel {
    pub kind: Option<ShipType>,
    pub name: Seq<char>,
    pub description: Seq<char>,
    pub purchase_price: i32,
    pub frame: ShipFrameModel,
    pub reactor: ShipReactorModel,
    pub engine: ShipEngineModel,
    pub modules: Seq<ShipModuleModel>,
    pub mounts: Seq<ShipMountModel>,
}

impl FromJson for ShipyardShip {
    type Model = ShipyardShipModel;

    open spec fn model(&self) -> ShipyardShipModel {
        ShipyardShipModel {
            kind: self.kind.model(),
            name: self.name.model(),
            description: self.description.model(),
            purchase_price: self.purchase_price.model(),
            frame: self.frame.model(),
            reactor: self.reactor.model(),
            engine: self.engine.model(),
            modules: self.modules.model(),
            mounts: self.mounts.model(),
        }
    }

    open spec fn parsed(j: JsonView, field: Seq<char>) -> Result<ShipyardShipModel, DecodeErrorView> {
        match j {
            JsonView::Object(entries) => {
                let kind = optional_in::<ShipType>(entries, "type"@);
                let name = required_in::<String>(entries, "name"@);
                let description = required_in::<String>(entries, "description"@);
                let purchase_price = required_in::<i32>(entries, "purchasePrice"@);
                let frame = required_in::<ShipFrame>(entries, "frame"@);
                let reactor = required_in::<ShipReactor>(entries, "reactor"@);
                let engine = required_in::<ShipEngine>(entries, "engine"@);
                let modules = required_in::<Vec<ShipModule>>(entries, "modules"@);
                let mounts = required_in::<Vec<ShipMount>>(entries, "mounts"@);
                if kind is Err {
                    Err(kind->Err_0)
                } else if name is Err {
                    Err(name->Err_0)
                } else if description is Err {
                    Err(description->Err_0)
                } else if purchase_price is Err {
                    Err(purchase_price->Err_0)
                } else if frame is Err {
                    Err(frame->Err_0)
                } else if reactor is Err {
                    Err(reactor->Err_0)
                } else if engine is Err {
                    Err(engine->Err_0)
                } else if modules is Err {
                    Err(modules->Err_0)
                } else if mounts is Err {
                    Err(mounts->Err_0)
                } else {
                    Ok(ShipyardShipModel {
                        kind: kind->Ok_0,
                        name: name->Ok_0,
                        description: description->Ok_0,
                        purchase_price: purchase_price->Ok_0,
                        frame: frame->Ok_0,
                        reactor: reactor->Ok_0,
                        engine: engine->Ok_0,
                        modules: modules->Ok_0,
                        mounts: mounts->Ok_0,
                    })
                }
            },
            _ => Err(mismatch(j, field, Shape::Object)),
        }
    }

    fn from_json(j: &Json, field: &str) -> (r: Result<ShipyardShip, DecodeError>) {
        match j {
            Json::Object(_) => {},
            _ => {
                return Err(mismatch_error(j, field, Shape::Object));
            },
        }
        let kind = optional_field::<ShipType>(j, "type")?;
        let name = required_field::<String>(j, "name")?;
        let description = required_field::<String>(j, "description")?;
        let purchase_price = required_field::<i32>(j, "purchasePrice")?;
        let frame = required_field::<ShipFrame>(j, "frame")?;
        let reactor = required_field::<ShipReactor>(j, "reactor")?;
        let engine = required_field::<ShipEngine>(j, "engine")?;
        let modules = required_field::<Vec<ShipModule>>(j, "modules")?;
        let mounts = required_field::<Vec<ShipMount>>(j, "mounts")?;
        Ok(ShipyardShip { kind, name, description, purchase_price, frame, reactor, engine, modules, mounts })
    }
}

/// One purchase at a shipyard.
#[derive(Debug, PartialEq, Eq)]
pub struct ShipyardTransaction {
    pub waypoint_symbol: String,
    pub ship_symbol: String,
    pub price: u32,
    pub agent_symbol: String,
    pub timestamp: Timestamp,
}

/// The mathematical value of a `ShipyardTransaction`.
pub struct ShipyardTransactionModel {
    pub waypoint_symbol: Seq<char>,
    pub ship_symbol: Seq<char>,
    pub price: u32,
    pub agent_symbol: Seq<char>,
    pub timestamp: Timestamp,
}

impl FromJson for ShipyardTransaction {
    type Model = ShipyardTransactionModel;

    open spec fn model(&self) -> ShipyardTransactionModel {
        ShipyardTransactionModel {
            waypoint_symbol: self.waypoint_symbol.model(),
            ship_symbol: self.ship_symbol.model(),
            price: self.price.model(),
            agent_symbol: self.agent_symbol.model(),
            timestamp: self.timestamp.model(),
        }
    }

    open spec fn parsed(j: JsonView, field: Seq<char>) -> Result<ShipyardTransactionModel, DecodeErrorView> {
        match j {
            JsonView::Object(entries) => {
                let waypoint_symbol = required_in::<String>(entries, "waypointSymbol"@);
                let ship_symbol = required_in::<String>(entries, "shipSymbol"@);
                let price = required_in::<u32>(entries, "price"@);
                let agent_symbol = required_in::<String>(entries, "agentSymbol"@);
                let timestamp = required_in::<Timestamp>(entries, "timestamp"@);
                if waypoint_symbol is Err {
                    Err(waypoint_symbol->Err_0)
                } else if ship_symbol is Err {
                    Err(ship_symbol->Err_0)
                } else if price is Err {
                    Err(price->Err_0)
                } else if agent_symbol is Err {
                    Err(agent_symbol->Err_0)
                } else if timestamp is Err {
                    Err(timestamp->Err_0)
                } else {
                    Ok(ShipyardTransactionModel {
                        waypoint_symbol: waypoint_symbol->Ok_0,
                        ship_symbol: ship_symbol->Ok_0,
                        price: price->Ok_0,
                        agent_symbol: agent_symbol->Ok_0,
                        timestamp: timestamp->Ok_0,
                    })
                }
            },
            _ => Err(mismatch(j, field, Shape::Object)),
        }
    }

    fn from_json(j: &Json, field: &str) -> (r: Result<ShipyardTransaction, DecodeError>) {
        match j {
            Json::Object(_) => {},
            _ => {
                return Err(mismatch_error(j, field, Shape::Object));
            },
        }
        let waypoint_symbol = required_field::<String>(j, "waypointSymbol")?;
        let ship_symbol = required_field::<String>(j, "shipSymbol")?;
        let price = required_field::<u32>(j, "price")?;
        let agent_symbol = required_field::<String>(j, "agentSymbol")?;
        let timestamp = required_field::<Timestamp>(j, "timestamp")?;
        Ok(ShipyardTransaction { waypoint_symbol, ship_symbol, price, agent_symbol, timestamp })
    }
}

/// A survey of the deposits at a waypoint.
#[derive(Debug, PartialEq, Eq)]
pub struct Survey {
    pub signature: String,
    pub symbol: String,
    pub deposits: Vec<SurveyDeposit>,
}

/// The mathematical value of a `Survey`.
pub struct SurveyModel {
    pub signature: Seq<char>,
    pub symbol: Seq<char>,
    pub deposits: Seq<SymbolicModel>,
}

impl FromJson for Survey {
    type Model = SurveyModel;

    open spec fn model(&self) -> SurveyModel {
        SurveyModel {
            signature: self.signature.model(),
            symbol: self.symbol.model(),
            deposits: self.deposits.model(),
        }
    }

    open spec fn parsed(j: JsonView, field: Seq<char>) -> Result<SurveyModel, DecodeErrorView> {
        match j {
            JsonView::Object(entries) => {
                let signature = required_in::<String>(entries, "signature"@);
                let symbol = required_in::<String>(entries, "symbol"@);
                let deposits = required_in::<Vec<SurveyDeposit>>(entries, "deposits"@);
                if signature is Err {
                    Err(signature->Err_0)
                } else if symbol is Err {
                    Err(symbol->Err_0)
                } else if deposits is Err {
                    Err(deposits->Err_0)
                } else {
                    Ok(SurveyModel {
                        signature: signature->Ok_0,
                        symbol: symbol->Ok_0,
                        deposits: deposits->Ok_0,
                    })
                }
            },
            _ => Err(mismatch(j, field, Shape::Object)),
        }
    }

    fn from_json(j: &Json, field: &str) -> (r: Result<Survey, DecodeError>) {
        match j {
            Json::Object(_) => {},
            _ => {
                return Err(mismatch_error(j, field, Shape::Object));
            },
        }
        let signature = required_field::<String>(j, "signature")?;
        let symbol = required_field::<String>(j, "symbol")?;
        let deposits = required_field::<Vec<SurveyDeposit>>(j, "deposits")?;
        Ok(Survey { signature, symbol, deposits })
    }
}

/// A star system and its waypoints.
#[derive(Debug, PartialEq, Eq)]
pub struct System {
    pub symbol: String,
    pub sector_symbol: String,
    pub kind: SystemType,
    pub x: i32,
    pub y: i32,
    pub waypoints: Vec<SystemWaypoint>,
    pub factions: Vec<SystemFaction>,
}

/// The mathematical value of a `System`.
pub struct SystemModel {
    pub symbol: Seq<char>,
    pub sector_symbol: Seq<char>,
    pub kind: SystemType,
    pub x: i32,
    pub y: i32,
    pub waypoints: Seq<SystemWaypointModel>,
    pub factions: Seq<SymbolicModel>,
}

impl FromJson for System {
    type Model = SystemModel;

    open spec fn model(&self) -> SystemModel {
        SystemModel {
            symbol: self.symbol.model(),
            sector_symbol: self.sector_symbol.model(),
            kind: self.kind.model(),
            x: self.x.model(),
            y: self.y.model(),
            waypoints: self.waypoints.model(),
            factions: self.factions.model(),
        }
    }

    open spec fn parsed(j: JsonView, field: Seq<char>) -> Result<SystemModel, DecodeErrorView> {
        match j {
            JsonView::Object(entries) => {
                let symbol = required_in::<String>(entries, "symbol"@);
                let sector_symbol = required_in::<String>(entries, "sectorSymbol"@);
                let kind = required_in::<SystemType>(entries, "type"@);
                let x = required_in::<i32>(entries, "x"@);
                let y = required_in::<i32>(entries, "y"@);
                let waypoints = required_in::<Vec<SystemWaypoint>>(entries, "waypoints"@);
                let factions = required_in::<Vec<SystemFaction>>(entries, "factions"@);
                if symbol is Err {
                    Err(symbol->Err_0)
                } else if sector_symbol is Err {
                    Err(sector_symbol->Err_0)
                } else if kind is Err {
                    Err(kind->Err_0)
                } else if x is Err {
                    Err(x->Err_0)
                } else if y is Err {
                    Err(y->Err_0)
                } else if waypoints is Err {
                    Err(waypoints->Err_0)
                } else if factions is Err {
                    Err(factions->Err_0)
                } else {
                    Ok(SystemModel {
                        symbol: symbol->Ok_0,
                        sector_symbol: sector_symbol->Ok_0,
                        kind: kind->Ok_0,
                        x: x->Ok_0,
                        y: y->Ok_0,
                        waypoints: waypoints->Ok_0,
                        factions: factions->Ok_0,
                    })
                }
            },
            _ => Err(mismatch(j, field, Shape::Object)),
        }
    }

    fn from_json(j: &Json, field: &str) -> (r: Result<System, DecodeError>) {
        match j {
            Json::Object(_) => {},
            _ => {
                return Err(mismatch_error(j, field, Shape::Object));
            },
        }
        let symbol = required_field::<String>(j, "symbol")?;
        let sector_symbol = required_field::<String>(j, "sectorSymbol")?;
        let kind = required_field::<SystemType>(j, "type")?;
        let x = required_field::<i32>(j, "x")?;
        let y = required_field::<i32>(j, "y")?;
        let waypoints = required_field::<Vec<SystemWaypoint>>(j, "waypoints")?;
        let factions = required_field::<Vec<SystemFaction>>(j, "factions")?;
        Ok(System { symbol, sector_symbol, kind, x, y, waypoints, factions })
    }
}

/// A waypoint as its system lists it.
#[derive(Debug, PartialEq, Eq)]
pub struct SystemWaypoint {
    pub symbol: String,
    pub kind: WaypointType,
    pub x: i32,
    pub y: i32,
}

/// The mathematical value of a `SystemWaypoint`.
pub struct SystemWaypointModel {
    pub symbol: Seq<char>,
    pub kind: WaypointType,
    pub x: i32,
    pub y: i32,
}

impl FromJson for SystemWaypoint {
    type Model = SystemWaypointModel;

    open spec fn model(&self) -> SystemWaypointModel {
        SystemWaypointModel {
            symbol: self.symbol.model(),
            kind: self.kind.model(),
            x: self.x.model(),
            y: self.y.model(),
        }
    }

    open spec fn parsed(j: JsonView, field: Seq<char>) -> Result<SystemWaypointModel, DecodeErrorView> {
        match j {
            JsonView::Object(entries) => {
                let symbol = required_in::<String>(entries, "symbol"@);
                let kind = required_in::<WaypointType>(entries, "type"@);
                let x = required_in::<i32>(entries, "x"@);
                let y = required_in::<i32>(entries, "y"@);
                if symbol is Err {
                    Err(symbol->Err_0)
                } else if kind is Err {
                    Err(kind->Err_0)
                } else if x is Err {
                    Err(x->Err_0)
                } else if y is Err {
                    Err(y->Err_0)
                } else {
                    Ok(SystemWaypointModel {
                        symbol: symbol->Ok_0,
                        kind: kind->Ok_0,
                        x: x->Ok_0,
                        y: y->Ok_0,
                    })
                }
            },
            _ => Err(mismatch(j, field, Shape::Object)),
        }
    }

    fn from_json(j: &Json, field: &str) -> (r: Result<SystemWaypoint, DecodeError>) {
        match j {
            Json::Object(_) => {},
            _ => {
                return Err(mismatch_error(j, field, Shape::Object));
            },
        }
        let symbol = required_field::<String>(j, "symbol")?;
        let kind = required_field::<WaypointType>(j, "type")?;
        let x = required_field::<i32>(j, "x")?;
        let y = required_field::<i32>(j, "y")?;
        Ok(SystemWaypoint { symbol, kind, x, y })
    }
}

/// A waypoint: a place within a system.
#[derive(Debug, PartialEq, Eq)]
pub struct Waypoint {
    pub symbol: String,
    pub kind: WaypointType,
    pub system_symbol: String,
    pub x: i32,
    pub y: i32,
    pub orbitals: Vec<WaypointOrbital>,
    pub faction: WaypointFaction,
    pub traits: Vec<WaypointTrait>,
    pub chart: Option<Chart>,
}

/// The mathematical value of a `Waypoint`.
pub struct WaypointModel {
    pub symbol: Seq<char>,
    pub kind: WaypointType,
    pub system_symbol: Seq<char>,
    pub x: i32,
    pub y: i32,
    pub orbitals: Seq<SymbolicModel>,
    pub faction: SymbolicModel,
    pub traits: Seq<TypedSymbolicModel<WaypointTraitSymbol>>,
    pub chart: Option<ChartModel>,
}

impl FromJson for Waypoint {
    type Model = WaypointModel;

    open spec fn model(&self) -> WaypointModel {
        WaypointModel {
            symbol: self.symbol.model(),
            kind: self.kind.model(),
            system_symbol: self.system_symbol.model(),
            x: self.x.model(),
            y: self.y.model(),
            orbitals: self.orbitals.model(),
            faction: self.faction.model(),
            traits: self.traits.model(),
            chart: self.chart.model(),
        }
    }

    open spec fn parsed(j: JsonView, field: Seq<char>) -> Result<WaypointModel, DecodeErrorView> {
        match j {
            JsonView::Object(entries) => {
                let symbol = required_in::<String>(entries, "symbol"@);
                let kind = required_in::<WaypointType>(entries, "type"@);
                let system_symbol = required_in::<String>(entries, "systemSymbol"@);
                let x = required_in::<i32>(entries, "x"@);
                let y = required_in::<i32>(entries, "y"@);
                let orbitals = required_in::<Vec<WaypointOrbital>>(entries, "orbitals"@);
                let faction = required_in::<WaypointFaction>(entries, "faction"@);
                let traits = required_in::<Vec<WaypointTrait>>(entries, "traits"@);
                let chart = optional_in::<Chart>(entries, "chart"@);
                if symbol is Err {
                    Err(symbol->Err_0)
                } else if kind is Err {
                    Err(kind->Err_0)
                } else if system_symbol is Err {
                    Err(system_symbol->Err_0)
                } else if x is Err {
                    Err(x->Err_0)
                } else if y is Err {
                    Err(y->Err_0)
                } else if orbitals is Err {
                    Err(orbitals->Err_0)
                } else if faction is Err {
                    Err(faction->Err_0)
                } else if traits is Err {
                    Err(traits->Err_0)
                } else if chart is Err {
                    Err(chart->Err_0)
                } else {
                    Ok(WaypointModel {
                        symbol: symbol->Ok_0,
                        kind: kind->Ok_0,
                        system_symbol: system_symbol->Ok_0,
                        x: x->Ok_0,
                        y: y->Ok_0,
                        orbitals: orbitals->Ok_0,
                        faction: faction->Ok_0,
                        traits: traits->Ok_0,
                        chart: chart->Ok_0,
                    })
                }
            },
            _ => Err(mismatch(j, field, Shape::Object)),
        }
    }

    fn from_json(j: &Json, field: &str) -> (r: Result<Waypoint, DecodeError>) {
        match j {
            Json::Object(_) => {},
            _ => {
                return Err(mismatch_error(j, field, Shape::Object));
            },
        }
        let symbol = required_field::<String>(j, "symbol")?;
        let kind = required_field::<WaypointType>(j, "type")?;
        let system_symbol = required_field::<String>(j, "systemSymbol")?;
        let x = required_field::<i32>(j, "x")?;
        let y = required_field::<i32>(j, "y")?;
        let orbitals = required_field::<Vec<WaypointOrbital>>(j, "orbitals")?;
        let faction = required_field::<WaypointFaction>(j, "faction")?;
        let traits = required_field::<Vec<WaypointTrait>>(j, "traits")?;
        let chart = optional_field::<Chart>(j, "chart")?;
        Ok(Waypoint { symbol, kind, system_symbol, x, y, orbitals, faction, traits, chart })
    }
}

/// Something known by its symbol alone.
#[derive(Debug, PartialEq, Eq)]
pub struct Symbolic {
    pub symbol: String,
}

/// The mathematical value of a `Symbolic`.
pub struct SymbolicModel {
    pub symbol: Seq<char>,
}

impl FromJson for Symbolic {
    type Model = SymbolicModel;

    open spec fn model(&self) -> SymbolicModel {
        SymbolicModel {
            symbol: self.symbol.model(),
        }
    }

    open spec fn parsed(j: JsonView, field: Seq<char>) -> Result<SymbolicModel, DecodeErrorView> {
        match j {
            JsonView::Object(entries) => {
                let symbol = required_in::<String>(entries, "symbol"@);
                if symbol is Err {
                    Err(symbol->Err_0)
                } else {
                    Ok(SymbolicModel {
                        symbol: symbol->Ok_0,
                    })
                }
            },
            _ => Err(mismatch(j, field, Shape::Object)),
        }
    }

    fn from_json(j: &Json, field: &str) -> (r: Result<Symbolic, DecodeError>) {
        match j {
            Json::Object(_) => {},
            _ => {
                return Err(mismatch_error(j, field, Shape::Object));
            },
        }
        let symbol = required_field::<String>(j, "symbol")?;
        Ok(Symbolic { symbol })
    }
}

/// A member of an enumeration with its name and description.
#[derive(Debug, PartialEq, Eq)]
pub struct TypedSymbolic<T> {
    pub symbol: T,
    pub name: String,
    pub description: String,
}

/// The mathematical value of a `TypedSymbolic`.
pub struct TypedSymbolicModel<M> {
    pub symbol: M,
    pub name: Seq<char>,
    pub description: Seq<char>,
}

impl<T: FromJson> FromJson for TypedSymbolic<T> {
    type Model = TypedSymbolicModel<T::Model>;

    open spec fn model(&self) -> TypedSymbolicModel<T::Model> {
        TypedSymbolicModel {
            symbol: self.symbol.model(),
            name: self.name.model(),
            description: self.description.model(),
        }
    }

    open spec fn parsed(j: JsonView, field: Seq<char>) -> Result<TypedSymbolicModel<T::Model>, DecodeErrorView> {
        match j {
            JsonView::Object(entries) => {
                let symbol = required_in::<T>(entries, "symbol"@);
                let name = required_in::<String>(entries, "name"@);
                let description = required_in::<String>(entries, "description"@);
                if symbol is Err {
                    Err(symbol->Err_0)
                } else if name is Err {
                    Err(name->Err_0)
                } else if description is Err {
                    Err(description->Err_0)
                } else {
                    Ok(TypedSymbolicModel {
                        symbol: symbol->Ok_0,
                        name: name->Ok_0,
                        description: description->Ok_0,
                    })
                }
            },
            _ => Err(mismatch(j, field, Shape::Object)),
        }
    }

    fn from_json(j: &Json, field: &str) -> (r: Result<TypedSymbolic<T>, DecodeError>) {
        match j {
            Json::Object(_) => {},
            _ => {
                return Err(mismatch_error(j, field, Shape::Object));
            },
        }
        let symbol = required_field::<T>(j, "symbol")?;
        let name = required_field::<String>(j, "name")?;
        let description = required_field::<String>(j, "description")?;
        Ok(TypedSymbolic { symbol, name, description })
    }
}

} // verus!
