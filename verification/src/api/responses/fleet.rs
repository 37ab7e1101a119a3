use vstd::prelude::*;
use crate::decode::{mismatch, mismatch_error, required_field, required_in, DecodeError, DecodeErrorView, FromJson, Shape};
use crate::json::{Json, JsonView};
use crate::schemas::{Agent, AgentModel, Chart, ChartModel, Cooldown, CooldownModel, Extraction, ExtractionModel, MarketTransaction, MarketTransactionModel, ScannedShip, ScannedShipModel, ScannedSystem, ScannedSystemModel, ScannedWaypoint, ScannedWaypointModel, Ship, ShipCargo, ShipCargoModel, ShipFuel, ShipFuelModel, ShipModel, ShipNav, ShipNavModel, Survey, SurveyModel, Waypoint, WaypointModel};

verus! {

/// The reply to listing ships.
pub type ListShips = Vec<Ship>;

/// The reply to asking for one ship.
pub type GetShip = Ship;

/// The reply to asking for a ship's cargo.
pub type GetShipCargo = ShipCargo;

/// The reply to asking for a ship's cooldown: none where the ship is ready.
pub type GetShipCooldown = Option<Cooldown>;

/// The reply to changing a ship's flight mode.
pub type PatchShipNav = ShipNav;

/// The reply to asking for a ship's navigation.
pub type GetShipNav = ShipNav;

/// An amount of a good that refining made or used up.
#[derive(Debug, PartialEq, Eq)]
pub struct Produce {
    pub trade_symbol: String,
    pub units: i32,
}

/// The mathematical value of a `Produce`.
pub struct ProduceModel {
    pub trade_symbol: Seq<char>,
    pub units: i32,
}

impl FromJson for Produce {
    type Model = ProduceModel;

    open spec fn model(&self) -> ProduceModel {
        ProduceModel {
            trade_symbol: self.trade_symbol.model(),
            units: self.units.model(),
        }
    }

    open spec fn parsed(j: JsonView, field: Seq<char>) -> Result<ProduceModel, DecodeErrorView> {
        match j {
            JsonView::Object(entries) => {
                let trade_symbol = required_in::<String>(entries, "tradeSymbol"@);
                let units = required_in::<i32>(entries, "units"@);
                if trade_symbol is Err {
                    Err(trade_symbol->Err_0)
                } else if units is Err {
                    Err(units->Err_0)
                } else {
                    Ok(ProduceModel {
                        trade_symbol: trade_symbol->Ok_0,
                        units: units->Ok_0,
                    })
                }
            },
            _ => Err(mismatch(j, field, Shape::Object)),
        }
    }

    fn from_json(j: &Json, field: &str) -> (r: Result<Produce, DecodeError>) {
        match j {
            Json::Object(_) => {},
            _ => {
                return Err(mismatch_error(j, field, Shape::Object));
            },
        }
        let trade_symbol = required_field::<String>(j, "tradeSymbol")?;
        let units = required_field::<i32>(j, "units")?;
        Ok(Produce { trade_symbol, units })
    }
}

/// The reply to buying a ship.
#[derive(Debug, PartialEq, Eq)]
pub struct PurchaseShip {
    pub agent: Agent,
    pub ship: Ship,
    pub transaction: MarketTransaction,
}

/// The mathematical value of a `PurchaseShip`.
pub struct PurchaseShipModel {
    pub agent: AgentModel,
    pub ship: ShipModel,
    pub transaction: MarketTransactionModel,
}

impl FromJson for PurchaseShip {
    type Model = PurchaseShipModel;

    open spec fn model(&self) -> PurchaseShipModel {
        PurchaseShipModel {
            agent: self.agent.model(),
            ship: self.ship.model(),
            transaction: self.transaction.model(),
        }
    }

    open spec fn parsed(j: JsonView, field: Seq<char>) -> Result<PurchaseShipModel, DecodeErrorView> {
        match j {
            JsonView::Object(entries) => {
                let agent = required_in::<Agent>(entries, "agent"@);
                let ship = required_in::<Ship>(entries, "ship"@);
                let transaction = required_in::<MarketTransaction>(entries, "transaction"@);
                if agent is Err {
                    Err(agent->Err_0)
                } else if ship is Err {
                    Err(ship->Err_0)
                } else if transaction is Err {
                    Err(transaction->Err_0)
                } else {
                    Ok(PurchaseShipModel {
                        agent: agent->Ok_0,
                        ship: ship->Ok_0,
                        transaction: transaction->Ok_0,
                    })
                }
            },
            _ => Err(mismatch(j, field, Shape::Object)),
        }
    }

    fn from_json(j: &Json, field: &str) -> (r: Result<PurchaseShip, DecodeError>) {
        match j {
            Json::Object(_) => {},
            _ => {
                return Err(mismatch_error(j, field, Shape::Object));
            },
        }
        let agent = required_field::<Agent>(j, "agent")?;
        let ship = required_field::<Ship>(j, "ship")?;
        let transaction = required_field::<MarketTransaction>(j, "transaction")?;
        Ok(PurchaseShip { agent, ship, transaction })
    }
}

/// The reply to moving a ship into orbit.
#[derive(Debug, PartialEq, Eq)]
pub struct OrbitShip {
    pub nav: ShipNav,
}

/// The mathematical value of an `OrbitShip`.
pub struct OrbitShipModel {
    pub nav: ShipNavModel,
}

impl FromJson for OrbitShip {
    type Model = OrbitShipModel;

    open spec fn model(&self) -> OrbitShipModel {
        OrbitShipModel {
            nav: self.nav.model(),
        }
    }

    open spec fn parsed(j: JsonView, field: Seq<char>) -> Result<OrbitShipModel, DecodeErrorView> {
        match j {
            JsonView::Object(entries) => {
                let nav = required_in::<ShipNav>(entries, "nav"@);
                if nav is Err {
                    Err(nav->Err_0)
                } else {
                    Ok(OrbitShipModel {
                        nav: nav->Ok_0,
                    })
                }
            },
            _ => Err(mismatch(j, field, Shape::Object)),
        }
    }

    fn from_json(j: &Json, field: &str) -> (r: Result<OrbitShip, DecodeError>) {
        match j {
            Json::Object(_) => {},
            _ => {
                return Err(mismatch_error(j, field, Shape::Object));
            },
        }
        let nav = required_field::<ShipNav>(j, "nav")?;
        Ok(OrbitShip { nav })
    }
}

/// The reply to refining goods aboard a ship.
#[derive(Debug, PartialEq, Eq)]
pub struct ShipRefine {
    pub cargo: ShipCargo,
    pub cooldown: Cooldown,
    pub produced: Produce,
    pub consumed: Produce,
}

/// The mathematical value of a `ShipRefine`.
pub struct ShipRefineModel {
    pub cargo: ShipCargoModel,
    pub cooldown: CooldownModel,
    pub produced: ProduceModel,
    pub consumed: ProduceModel,
}

impl FromJson for ShipRefine {
    type Model = ShipRefineModel;

    open spec fn model(&self) -> ShipRefineModel {
        ShipRefineModel {
            cargo: self.cargo.model(),
            cooldown: self.cooldown.model(),
            produced: self.produced.model(),
            consumed: self.consumed.model(),
        }
    }

    open spec fn parsed(j: JsonView, field: Seq<char>) -> Result<ShipRefineModel, DecodeErrorView> {
        match j {
            JsonView::Object(entries) => {
                let cargo = required_in::<ShipCargo>(entries, "cargo"@);
                let cooldown = required_in::<Cooldown>(entries, "cooldown"@);
                let produced = required_in::<Produce>(entries, "produced"@);
                let consumed = required_in::<Produce>(entries, "consumed"@);
                if cargo is Err {
                    Err(cargo->Err_0)
                } else if cooldown is Err {
                    Err(cooldown->Err_0)
                } else if produced is Err {
                    Err(produced->Err_0)
                } else if consumed is Err {
                    Err(consumed->Err_0)
                } else {
                    Ok(ShipRefineModel {
                        cargo: cargo->Ok_0,
                        cooldown: cooldown->Ok_0,
                        produced: produced->Ok_0,
                        consumed: consumed->Ok_0,
                    })
                }
            },
            _ => Err(mismatch(j, field, Shape::Object)),
        }
    }

    fn from_json(j: &Json, field: &str) -> (r: Result<ShipRefine, DecodeError>) {
        match j {
            Json::Object(_) => {},
            _ => {
                return Err(mismatch_error(j, field, Shape::Object));
            },
        }
        let cargo = required_field::<ShipCargo>(j, "cargo")?;
        let cooldown = required_field::<Cooldown>(j, "cooldown")?;
        let produced = required_field::<Produce>(j, "produced")?;
        let consumed = required_field::<Produce>(j, "consumed")?;
        Ok(ShipRefine { cargo, cooldown, produced, consumed })
    }
}

/// The reply to charting a waypoint.
#[derive(Debug, PartialEq, Eq)]
pub struct CreateChart {
    pub chart: Chart,
    pub waypoint: Waypoint,
}

/// The mathematical value of a `CreateChart`.
pub struct CreateChartModel {
    pub chart: ChartModel,
    pub waypoint: WaypointModel,
}

impl FromJson for CreateChart {
    type Model = CreateChartModel;

    open spec fn model(&self) -> CreateChartModel {
        CreateChartModel {
            chart: self.chart.model(),
            waypoint: self.waypoint.model(),
        }
    }

    open spec fn parsed(j: JsonView, field: Seq<char>) -> Result<CreateChartModel, DecodeErrorView> {
        match j {
            JsonView::Object(entries) => {
                let chart = required_in::<Chart>(entries, "chart"@);
                let waypoint = required_in::<Waypoint>(entries, "waypoint"@);
                if chart is Err {
                    Err(chart->Err_0)
                } else if waypoint is Err {
                    Err(waypoint->Err_0)
                } else {
                    Ok(CreateChartModel {
                        chart: chart->Ok_0,
                        waypoint: waypoint->Ok_0,
                    })
                }
            },
            _ => Err(mismatch(j, field, Shape::Object)),
        }
    }

    fn from_json(j: &Json, field: &str) -> (r: Result<CreateChart, DecodeError>) {
        match j {
            Json::Object(_) => {},
            _ => {
                return Err(mismatch_error(j, field, Shape::Object));
            },
        }
        let chart = required_field::<Chart>(j, "chart")?;
        let waypoint = required_field::<Waypoint>(j, "waypoint")?;
        Ok(CreateChart { chart, waypoint })
    }
}

/// The reply to docking a ship.
#[derive(Debug, PartialEq, Eq)]
pub struct DockShip {
    pub nav: ShipNav,
}

/// The mathematical value of a `DockShip`.
pub struct DockShipModel {
    pub nav: ShipNavModel,
}

impl FromJson for DockShip {
    type Model = DockShipModel;

    open spec fn model(&self) -> DockShipModel {
        DockShipModel {
            nav: self.nav.model(),
        }
    }

    open spec fn parsed(j: JsonView, field: Seq<char>) -> Result<DockShipModel, DecodeErrorView> {
        match j {
            JsonView::Object(entries) => {
                let nav = required_in::<ShipNav>(entries, "nav"@);
                if nav is Err {
                    Err(nav->Err_0)
                } else {
                    Ok(DockShipModel {
                        nav: nav->Ok_0,
                    })
                }
            },
            _ => Err(mismatch(j, field, Shape::Object)),
        }
    }

    fn from_json(j: &Json, field: &str) -> (r: Result<DockShip, DecodeError>) {
        match j {
            Json::Object(_) => {},
            _ => {
                return Err(mismatch_error(j, field, Shape::Object));
            },
        }
        let nav = required_field::<ShipNav>(j, "nav")?;
        Ok(DockShip { nav })
    }
}

/// The reply to surveying a waypoint.
#[derive(Debug, PartialEq, Eq)]
pub struct CreateSurvey {
    pub cooldown: Cooldown,
    pub surveys: Survey,
}

/// The mathematical value of a `CreateSurvey`.
pub struct CreateSurveyModel {
    pub cooldown: CooldownModel,
    pub surveys: SurveyModel,
}

impl FromJson for CreateSurvey {
    type Model = CreateSurveyModel;

    open spec fn model(&self) -> CreateSurveyModel {
        CreateSurveyModel {
            cooldown: self.cooldown.model(),
            surveys: self.surveys.model(),
        }
    }

    open spec fn parsed(j: JsonView, field: Seq<char>) -> Result<CreateSurveyModel, DecodeErrorView> {
        match j {
            JsonView::Object(entries) => {
                let cooldown = required_in::<Cooldown>(entries, "cooldown"@);
                let surveys = required_in::<Survey>(entries, "surveys"@);
                if cooldown is Err {
                    Err(cooldown->Err_0)
                } else if surveys is Err {
                    Err(surveys->Err_0)
                } else {
                    Ok(CreateSurveyModel {
                        cooldown: cooldown->Ok_0,
                        surveys: surveys->Ok_0,
                    })
                }
            },
            _ => Err(mismatch(j, field, Shape::Object)),
        }
    }

    fn from_json(j: &Json, field: &str) -> (r: Result<CreateSurvey, DecodeError>) {
        match j {
            Json::Object(_) => {},
            _ => {
                return Err(mismatch_error(j, field, Shape::Object));
            },
        }
        let cooldown = required_field::<Cooldown>(j, "cooldown")?;
        let surveys = required_field::<Survey>(j, "surveys")?;
        Ok(CreateSurvey { cooldown, surveys })
    }
}

/// The reply to extracting resources.
#[derive(Debug, PartialEq, Eq)]
pub struct ExtractResources {
    pub cooldown: Cooldown,
    pub extraction: Extraction,
    pub cargo: ShipCargo,
}

/// The mathematical value of an `ExtractResources`.
pub struct ExtractResourcesModel {
    pub cooldown: CooldownModel,
    pub extraction: ExtractionModel,
    pub cargo: ShipCargoModel,
}

impl FromJson for ExtractResources {
    type Model = ExtractResourcesModel;

    open spec fn model(&self) -> ExtractResourcesModel {
        ExtractResourcesModel {
            cooldown: self.cooldown.model(),
            extraction: self.extraction.model(),
            cargo: self.cargo.model(),
        }
    }

    open spec fn parsed(j: JsonView, field: Seq<char>) -> Result<ExtractResourcesModel, DecodeErrorView> {
        match j {
            JsonView::Object(entries) => {
                let cooldown = required_in::<Cooldown>(entries, "cooldown"@);
                let extraction = required_in::<Extraction>(entries, "extraction"@);
                let cargo = required_in::<ShipCargo>(entries, "cargo"@);
                if cooldown is Err {
                    Err(cooldown->Err_0)
                } else if extraction is Err {
                    Err(extraction->Err_0)
                } else if cargo is Err {
                    Err(cargo->Err_0)
                } else {
                    Ok(ExtractResourcesModel {
                        cooldown: cooldown->Ok_0,
                        extraction: extraction->Ok_0,
                        cargo: cargo->Ok_0,
                    })
                }
            },
            _ => Err(mismatch(j, field, Shape::Object)),
        }
    }

    fn from_json(j: &Json, field: &str) -> (r: Result<ExtractResources, DecodeError>) {
        match j {
            Json::Object(_) => {},
            _ => {
                return Err(mismatch_error(j, field, Shape::Object));
            },
        }
        let cooldown = required_field::<Cooldown>(j, "cooldown")?;
        let extraction = required_field::<Extraction>(j, "extraction")?;
        let cargo = required_field::<ShipCargo>(j, "cargo")?;
        Ok(ExtractResources { cooldown, extraction, cargo })
    }
}

/// The reply to jettisoning cargo.
#[derive(Debug, PartialEq, Eq)]
pub struct JettisonCargo {
    pub cargo: ShipCargo,
}

/// The mathematical value of a `JettisonCargo`.
pub struct JettisonCargoModel {
    pub cargo: ShipCargoModel,
}

impl FromJson for JettisonCargo {
    type Model = JettisonCargoModel;

    open spec fn model(&self) -> JettisonCargoModel {
        JettisonCargoModel {
            cargo: self.cargo.model(),
        }
    }

    open spec fn parsed(j: JsonView, field: Seq<char>) -> Result<JettisonCargoModel, DecodeErrorView> {
        match j {
            JsonView::Object(entries) => {
                let cargo = required_in::<ShipCargo>(entries, "cargo"@);
                if cargo is Err {
                    Err(cargo->Err_0)
                } else {
                    Ok(JettisonCargoModel {
                        cargo: cargo->Ok_0,
                    })
                }
            },
            _ => Err(mismatch(j, field, Shape::Object)),
        }
    }

    fn from_json(j: &Json, field: &str) -> (r: Result<JettisonCargo, DecodeError>) {
        match j {
            Json::Object(_) => {},
            _ => {
                return Err(mismatch_error(j, field, Shape::Object));
            },
        }
        let cargo = required_field::<ShipCargo>(j, "cargo")?;
        Ok(JettisonCargo { cargo })
    }
}

/// The reply to jumping a ship to another system.
#[derive(Debug, PartialEq, Eq)]
pub struct JumpShip {
    pub cooldown: Cooldown,
    pub nav: ShipNav,
}

/// The mathematical value of a `JumpShip`.
pub struct JumpShipModel {
    pub cooldown: CooldownModel,
    pub nav: ShipNavModel,
}

impl FromJson for JumpShip {
    type Model = JumpShipModel;

    open spec fn model(&self) -> JumpShipModel {
        JumpShipModel {
            cooldown: self.cooldown.model(),
            nav: self.nav.model(),
        }
    }

    open spec fn parsed(j: JsonView, field: Seq<char>) -> Result<JumpShipModel, DecodeErrorView> {
        match j {
            JsonView::Object(entries) => {
                let cooldown = required_in::<Cooldown>(entries, "cooldown"@);
                let nav = required_in::<ShipNav>(entries, "nav"@);
                if cooldown is Err {
                    Err(cooldown->Err_0)
                } else if nav is Err {
                    Err(nav->Err_0)
                } else {
                    Ok(JumpShipModel {
                        cooldown: cooldown->Ok_0,
                        nav: nav->Ok_0,
                    })
                }
            },
            _ => Err(mismatch(j, field, Shape::Object)),
        }
    }

    fn from_json(j: &Json, field: &str) -> (r: Result<JumpShip, DecodeError>) {
        match j {
            Json::Object(_) => {},
            _ => {
                return Err(mismatch_error(j, field, Shape::Object));
            },
        }
        let cooldown = required_field::<Cooldown>(j, "cooldown")?;
        let nav = required_field::<ShipNav>(j, "nav")?;
        Ok(JumpShip { cooldown, nav })
    }
}

/// The reply to sending a ship to a waypoint.
#[derive(Debug, PartialEq, Eq)]
pub struct NavigateShip {
    pub fuel: ShipFuel,
    pub nav: ShipNav,
}

/// The mathematical value of a `NavigateShip`.
pub struct NavigateShipModel {
    pub fuel: ShipFuelModel,
    pub nav: ShipNavModel,
}

impl FromJson for NavigateShip {
    type Model = NavigateShipModel;

    open spec fn model(&self) -> NavigateShipModel {
        NavigateShipModel {
            fuel: self.fuel.model(),
            nav: self.nav.model(),
        }
    }

    open spec fn parsed(j: JsonView, field: Seq<char>) -> Result<NavigateShipModel, DecodeErrorView> {
        match j {
            JsonView::Object(entries) => {
                let fuel = required_in::<ShipFuel>(entries, "fuel"@);
                let nav = required_in::<ShipNav>(entries, "nav"@);
                if fuel is Err {
                    Err(fuel->Err_0)
                } else if nav is Err {
                    Err(nav->Err_0)
                } else {
                    Ok(NavigateShipModel {
                        fuel: fuel->Ok_0,
                        nav: nav->Ok_0,
                    })
                }
            },
            _ => Err(mismatch(j, field, Shape::Object)),
        }
    }

    fn from_json(j: &Json, field: &str) -> (r: Result<NavigateShip, DecodeError>) {
        match j {
            Json::Object(_) => {},
            _ => {
                return Err(mismatch_error(j, field, Shape::Object));
            },
        }
        let fuel = required_field::<ShipFuel>(j, "fuel")?;
        let nav = required_field::<ShipNav>(j, "nav")?;
        Ok(NavigateShip { fuel, nav })
    }
}

/// The reply to warping a ship to another system.
#[derive(Debug, PartialEq, Eq)]
pub struct WarpShip {
    pub fuel: ShipFuel,
    pub nav: ShipNav,
}

/// The mathematical value of a `WarpShip`.
pub struct WarpShipModel {
    pub fuel: ShipFuelModel,
    pub nav: ShipNavModel,
}

impl FromJson for WarpShip {
    type Model = WarpShipModel;

    open spec fn model(&self) -> WarpShipModel {
        WarpShipModel {
            fuel: self.fuel.model(),
            nav: self.nav.model(),
        }
    }

    open spec fn parsed(j: JsonView, field: Seq<char>) -> Result<WarpShipModel, DecodeErrorView> {
        match j {
            JsonView::Object(entries) => {
                let fuel = required_in::<ShipFuel>(entries, "fuel"@);
                let nav = required_in::<ShipNav>(entries, "nav"@);
                if fuel is Err {
                    Err(fuel->Err_0)
                } else if nav is Err {
                    Err(nav->Err_0)
                } else {
                    Ok(WarpShipModel {
                        fuel: fuel->Ok_0,
                        nav: nav->Ok_0,
                    })
                }
            },
            _ => Err(mismatch(j, field, Shape::Object)),
        }
    }

    fn from_json(j: &Json, field: &str) -> (r: Result<WarpShip, DecodeError>) {
        match j {
            Json::Object(_) => {},
            _ => {
                return Err(mismatch_error(j, field, Shape::Object));
            },
        }
        let fuel = required_field::<ShipFuel>(j, "fuel")?;
        let nav = required_field::<ShipNav>(j, "nav")?;
        Ok(WarpShip { fuel, nav })
    }
}

/// The reply to selling cargo.
#[derive(Debug, PartialEq, Eq)]
pub struct SellCargo {
    pub agent: Agent,
    pub cargo: ShipCargo,
    pub transaction: MarketTransaction,
}

/// The mathematical value of a `SellCargo`.
pub struct SellCargoModel {
    pub agent: AgentModel,
    pub cargo: ShipCargoModel,
    pub transaction: MarketTransactionModel,
}

impl FromJson for SellCargo {
    type Model = SellCargoModel;

    open spec fn model(&self) -> SellCargoModel {
        SellCargoModel {
            agent: self.agent.model(),
            cargo: self.cargo.model(),
            transaction: self.transaction.model(),
        }
    }

    open spec fn parsed(j: JsonView, field: Seq<char>) -> Result<SellCargoModel, DecodeErrorView> {
        match j {
            JsonView::Object(entries) => {
                let agent = required_in::<Agent>(entries, "agent"@);
                let cargo = required_in::<ShipCargo>(entries, "cargo"@);
                let transaction = required_in::<MarketTransaction>(entries, "transaction"@);
                if agent is Err {
                    Err(agent->Err_0)
                } else if cargo is Err {
                    Err(cargo->Err_0)
                } else if transaction is Err {
                    Err(transaction->Err_0)
                } else {
                    Ok(SellCargoModel {
                        agent: agent->Ok_0,
                        cargo: cargo->Ok_0,
                        transaction: transaction->Ok_0,
                    })
                }
            },
            _ => Err(mismatch(j, field, Shape::Object)),
        }
    }

    fn from_json(j: &Json, field: &str) -> (r: Result<SellCargo, DecodeError>) {
        match j {
            Json::Object(_) => {},
            _ => {
                return Err(mismatch_error(j, field, Shape::Object));
            },
        }
        let agent = required_field::<Agent>(j, "agent")?;
        let cargo = required_field::<ShipCargo>(j, "cargo")?;
        let transaction = required_field::<MarketTransaction>(j, "transaction")?;
        Ok(SellCargo { agent, cargo, transaction })
    }
}

/// The reply to scanning for systems.
#[derive(Debug, PartialEq, Eq)]
pub struct ScanSystems {
    pub cooldown: Cooldown,
    pub systems: Vec<ScannedSystem>,
}

/// The mathematical value of a `ScanSystems`.
pub struct ScanSystemsModel {
    pub cooldown: CooldownModel,
    pub systems: Seq<ScannedSystemModel>,
}

impl FromJson for ScanSystems {
    type Model = ScanSystemsModel;

    open spec fn model(&self) -> ScanSystemsModel {
        ScanSystemsModel {
            cooldown: self.cooldown.model(),
            systems: self.systems.model(),
        }
    }

    open spec fn parsed(j: JsonView, field: Seq<char>) -> Result<ScanSystemsModel, DecodeErrorView> {
        match j {
            JsonView::Object(entries) => {
                let cooldown = required_in::<Cooldown>(entries, "cooldown"@);
                let systems = required_in::<Vec<ScannedSystem>>(entries, "systems"@);
                if cooldown is Err {
                    Err(cooldown->Err_0)
                } else if systems is Err {
                    Err(systems->Err_0)
                } else {
                    Ok(ScanSystemsModel {
                        cooldown: cooldown->Ok_0,
                        systems: systems->Ok_0,
                    })
                }
            },
            _ => Err(mismatch(j, field, Shape::Object)),
        }
    }

    fn from_json(j: &Json, field: &str) -> (r: Result<ScanSystems, DecodeError>) {
        match j {
            Json::Object(_) => {},
            _ => {
                return Err(mismatch_error(j, field, Shape::Object));
            },
        }
        let cooldown = required_field::<Cooldown>(j, "cooldown")?;
        let systems = required_field::<Vec<ScannedSystem>>(j, "systems")?;
        Ok(ScanSystems { cooldown, systems })
    }
}

/// The reply to scanning for waypoints.
#[derive(Debug, PartialEq, Eq)]
pub struct ScanWaypoints {
    pub cooldown: Cooldown,
    pub waypoints: Vec<ScannedWaypoint>,
}

/// The mathematical value of a `ScanWaypoints`.
pub struct ScanWaypointsModel {
    pub cooldown: CooldownModel,
    pub waypoints: Seq<ScannedWaypointModel>,
}

impl FromJson for ScanWaypoints {
    type Model = ScanWaypointsModel;

    open spec fn model(&self) -> ScanWaypointsModel {
        ScanWaypointsModel {
            cooldown: self.cooldown.model(),
            waypoints: self.waypoints.model(),
        }
    }

    open spec fn parsed(j: JsonView, field: Seq<char>) -> Result<ScanWaypointsModel, DecodeErrorView> {
        match j {
            JsonView::Object(entries) => {
                let cooldown = required_in::<Cooldown>(entries, "cooldown"@);
                let waypoints = required_in::<Vec<ScannedWaypoint>>(entries, "waypoints"@);
                if cooldown is Err {
                    Err(cooldown->Err_0)
                } else if waypoints is Err {
                    Err(waypoints->Err_0)
                } else {
                    Ok(ScanWaypointsModel {
                        cooldown: cooldown->Ok_0,
                        waypoints: waypoints->Ok_0,
                    })
                }
            },
            _ => Err(mismatch(j, field, Shape::Object)),
        }
    }

    fn from_json(j: &Json, field: &str) -> (r: Result<ScanWaypoints, DecodeError>) {
        match j {
            Json::Object(_) => {},
            _ => {
                return Err(mismatch_error(j, field, Shape::Object));
            },
        }
        let cooldown = required_field::<Cooldown>(j, "cooldown")?;
        let waypoints = required_field::<Vec<ScannedWaypoint>>(j, "waypoints")?;
        Ok(ScanWaypoints { cooldown, waypoints })
    }
}

/// The reply to scanning for ships.
#[derive(Debug, PartialEq, Eq)]
pub struct ScanShips {
    pub cooldown: Cooldown,
    pub ships: Vec<ScannedShip>,
}

/// The mathematical value of a `ScanShips`.
pub struct ScanShipsModel {
    pub cooldown: CooldownModel,
    pub ships: Seq<ScannedShipModel>,
}

impl FromJson for ScanShips {
    type Model = ScanShipsModel;

    open spec fn model(&self) -> ScanShipsModel {
        ScanShipsModel {
            cooldown: self.cooldown.model(),
            ships: self.ships.model(),
        }
    }

    open spec fn parsed(j: JsonView, field: Seq<char>) -> Result<ScanShipsModel, DecodeErrorView> {
        match j {
            JsonView::Object(entries) => {
                let cooldown = required_in::<Cooldown>(entries, "cooldown"@);
                let ships = required_in::<Vec<ScannedShip>>(entries, "ships"@);
                if cooldown is Err {
                    Err(cooldown->Err_0)
                } else if ships is Err {
                    Err(ships->Err_0)
                } else {
                    Ok(ScanShipsModel {
                        cooldown: cooldown->Ok_0,
                        ships: ships->Ok_0,
                    })
                }
            },
            _ => Err(mismatch(j, field, Shape::Object)),
        }
    }

    fn from_json(j: &Json, field: &str) -> (r: Result<ScanShips, DecodeError>) {
        match j {
            Json::Object(_) => {},
            _ => {
                return Err(mismatch_error(j, field, Shape::Object));
            },
        }
        let cooldown = required_field::<Cooldown>(j, "cooldown")?;
        let ships = required_field::<Vec<ScannedShip>>(j, "ships")?;
        Ok(ScanShips { cooldown, ships })
    }
}

/// The reply to refuelling a ship.
#[derive(Debug, PartialEq, Eq)]
pub struct RefuelShip {
    pub agent: Agent,
    pub fuel: ShipFuel,
}

/// The mathematical value of a `RefuelShip`.
pub struct RefuelShipModel {
    pub agent: AgentModel,
    pub fuel: ShipFuelModel,
}

impl FromJson for RefuelShip {
    type Model = RefuelShipModel;

    open spec fn model(&self) -> RefuelShipModel {
        RefuelShipModel {
            agent: self.agent.model(),
            fuel: self.fuel.model(),
        }
    }

    open spec fn parsed(j: JsonView, field: Seq<char>) -> Result<RefuelShipModel, DecodeErrorView> {
        match j {
            JsonView::Object(entries) => {
                let agent = required_in::<Agent>(entries, "agent"@);
                let fuel = required_in::<ShipFuel>(entries, "fuel"@);
                if agent is Err {
                    Err(agent->Err_0)
                } else if fuel is Err {
                    Err(fuel->Err_0)
                } else {
                    Ok(RefuelShipModel {
                        agent: agent->Ok_0,
                        fuel: fuel->Ok_0,
                    })
                }
            },
            _ => Err(mismatch(j, field, Shape::Object)),
        }
    }

    fn from_json(j: &Json, field: &str) -> (r: Result<RefuelShip, DecodeError>) {
        match j {
            Json::Object(_) => {},
            _ => {
                return Err(mismatch_error(j, field, Shape::Object));
            },
        }
        let agent = required_field::<Agent>(j, "agent")?;
        let fuel = required_field::<ShipFuel>(j, "fuel")?;
        Ok(RefuelShip { agent, fuel })
    }
}

/// The reply to buying cargo.
#[derive(Debug, PartialEq, Eq)]
pub struct PurchaseCargo {
    pub agent: Agent,
    pub cargo: ShipCargo,
    pub transaction: MarketTransaction,
}

/// The mathematical value of a `PurchaseCargo`.
pub struct PurchaseCargoModel {
    pub agent: AgentModel,
    pub cargo: ShipCargoModel,
    pub transaction: MarketTransactionModel,
}

impl FromJson for PurchaseCargo {
    type Model = PurchaseCargoModel;

    open spec fn model(&self) -> PurchaseCargoModel {
        PurchaseCargoModel {
            agent: self.agent.model(),
            cargo: self.cargo.model(),
            transaction: self.transaction.model(),
        }
    }

    open spec fn parsed(j: JsonView, field: Seq<char>) -> Result<PurchaseCargoModel, DecodeErrorView> {
        match j {
            JsonView::Object(entries) => {
                let agent = required_in::<Agent>(entries, "agent"@);
                let cargo = required_in::<ShipCargo>(entries, "cargo"@);
                let transaction = required_in::<MarketTransaction>(entries, "transaction"@);
                if agent is Err {
                    Err(agent->Err_0)
                } else if cargo is Err {
                    Err(cargo->Err_0)
                } else if transaction is Err {
                    Err(transaction->Err_0)
                } else {
                    Ok(PurchaseCargoModel {
                        agent: agent->Ok_0,
                        cargo: cargo->Ok_0,
                        transaction: transaction->Ok_0,
                    })
                }
            },
            _ => Err(mismatch(j, field, Shape::Object)),
        }
    }

    fn from_json(j: &Json, field: &str) -> (r: Result<PurchaseCargo, DecodeError>) {
        match j {
            Json::Object(_) => {},
            _ => {
                return Err(mismatch_error(j, field, Shape::Object));
            },
        }
        let agent = required_field::<Agent>(j, "agent")?;
        let cargo = required_field::<ShipCargo>(j, "cargo")?;
        let transaction = required_field::<MarketTransaction>(j, "transaction")?;
        Ok(PurchaseCargo { agent, cargo, transaction })
    }
}

/// The reply to moving cargo between ships.
#[derive(Debug, PartialEq, Eq)]
pub struct TransferCargo {
    pub cargo: ShipCargo,
}

/// The mathematical value of a `TransferCargo`.
pub struct TransferCargoModel {
    pub cargo: ShipCargoModel,
}

impl FromJson for TransferCargo {
    type Model = TransferCargoModel;

    open spec fn model(&self) -> TransferCargoModel {
        TransferCargoModel {
            cargo: self.cargo.model(),
        }
    }

    open spec fn parsed(j: JsonView, field: Seq<char>) -> Result<TransferCargoModel, DecodeErrorView> {
        match j {
            JsonView::Object(entries) => {
                let cargo = required_in::<ShipCargo>(entries, "cargo"@);
                if cargo is Err {
                    Err(cargo->Err_0)
                } else {
                    Ok(TransferCargoModel {
                        cargo: cargo->Ok_0,
                    })
                }
            },
            _ => Err(mismatch(j, field, Shape::Object)),
        }
    }

    fn from_json(j: &Json, field: &str) -> (r: Result<TransferCargo, DecodeError>) {
        match j {
            Json::Object(_) => {},
            _ => {
                return Err(mismatch_error(j, field, Shape::Object));
            },
        }
        let cargo = required_field::<ShipCargo>(j, "cargo")?;
        Ok(TransferCargo { cargo })
    }
}

} // verus!
