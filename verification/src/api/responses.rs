use vstd::prelude::*;
use crate::decode::{mismatch, mismatch_error, required_field, required_in, DecodeError, DecodeErrorView, FromJson, Shape};
use crate::json::{Json, JsonView};
use crate::schemas::{Agent, AgentModel, Contract, ContractModel, Faction, FactionModel, Ship, ShipModel};

pub mod agents;
pub mod contracts;
pub mod fleet;
pub mod systems;

verus! {

/// The reply to asking for the agent's own details.
pub type MyAgentDetails = Agent;

/// The reply to a registration: the token, and what the new agent starts with.
#[derive(Debug, PartialEq, Eq)]
pub struct Register {
    pub token: String,
    pub agent: Agent,
    pub contract: Contract,
    pub faction: Faction,
    pub ship: Ship,
}

/// The mathematical value of a `Register`.
pub struct RegisterModel {
    pub token: Seq<char>,
    pub agent: AgentModel,
    pub contract: ContractModel,
    pub faction: FactionModel,
    pub ship: ShipModel,
}

impl FromJson for Register {
    type Model = RegisterModel;

    open spec fn model(&self) -> RegisterModel {
        RegisterModel {
            token: self.token.model(),
            agent: self.agent.model(),
            contract: self.contract.model(),
            faction: self.faction.model(),
            ship: self.ship.model(),
        }
    }

    open spec fn parsed(j: JsonView, field: Seq<char>) -> Result<RegisterModel, DecodeErrorView> {
        match j {
            JsonView::Object(entries) => {
                let token = required_in::<String>(entries, "token"@);
                let agent = required_in::<Agent>(entries, "agent"@);
                let contract = required_in::<Contract>(entries, "contract"@);
                let faction = required_in::<Faction>(entries, "faction"@);
                let ship = required_in::<Ship>(entries, "ship"@);
                if token is Err {
                    Err(token->Err_0)
                } else if agent is Err {
                    Err(agent->Err_0)
                } else if contract is Err {
                    Err(contract->Err_0)
                } else if faction is Err {
                    Err(faction->Err_0)
                } else if ship is Err {
                    Err(ship->Err_0)
                } else {
                    Ok(RegisterModel {
                        token: token->Ok_0,
                        agent: agent->Ok_0,
                        contract: contract->Ok_0,
                        faction: faction->Ok_0,
                        ship: ship->Ok_0,
                    })
                }
            },
            _ => Err(mismatch(j, field, Shape::Object)),
        }
    }

    fn from_json(j: &Json, field: &str) -> (r: Result<Register, DecodeError>) {
        match j {
            Json::Object(_) => {},
            _ => {
                return Err(mismatch_error(j, field, Shape::Object));
            },
        }
        let token = required_field::<String>(j, "token")?;
        let agent = required_field::<Agent>(j, "agent")?;
        let contract = required_field::<Contract>(j, "contract")?;
        let faction = required_field::<Faction>(j, "faction")?;
        let ship = required_field::<Ship>(j, "ship")?;
        Ok(Register { token, agent, contract, faction, ship })
    }
}

} // verus!
