use vstd::prelude::*;
use crate::decode::{mismatch, mismatch_error, required_field, required_in, DecodeError, DecodeErrorView, FromJson, Shape};
use crate::json::{Json, JsonView};
use crate::schemas::{Agent, AgentModel, Contract, ContractModel, ShipCargo, ShipCargoModel};

verus! {

/// The reply to listing contracts.
pub type ListContracts = Vec<Contract>;

/// The reply to asking for one contract.
pub type GetContract = Contract;

/// The reply to accepting a contract.
#[derive(Debug, PartialEq, Eq)]
pub struct AcceptContract {
    pub agent: Agent,
    pub contract: Contract,
}

/// The mathematical value of an `AcceptContract`.
pub struct AcceptContractModel {
    pub agent: AgentModel,
    pub contract: ContractModel,
}

impl FromJson for AcceptContract {
    type Model = AcceptContractModel;

    open spec fn model(&self) -> AcceptContractModel {
        AcceptContractModel {
            agent: self.agent.model(),
            contract: self.contract.model(),
        }
    }

    open spec fn parsed(j: JsonView, field: Seq<char>) -> Result<AcceptContractModel, DecodeErrorView> {
        match j {
            JsonView::Object(entries) => {
                let agent = required_in::<Agent>(entries, "agent"@);
                let contract = required_in::<Contract>(entries, "contract"@);
                if agent is Err {
                    Err(agent->Err_0)
                } else if contract is Err {
                    Err(contract->Err_0)
                } else {
                    Ok(AcceptContractModel {
                        agent: agent->Ok_0,
                        contract: contract->Ok_0,
                    })
                }
            },
            _ => Err(mismatch(j, field, Shape::Object)),
        }
    }

    fn from_json(j: &Json, field: &str) -> (r: Result<AcceptContract, DecodeError>) {
        match j {
            Json::Object(_) => {},
            _ => {
                return Err(mismatch_error(j, field, Shape::Object));
            },
        }
        let agent = required_field::<Agent>(j, "agent")?;
        let contract = required_field::<Contract>(j, "contract")?;
        Ok(AcceptContract { agent, contract })
    }
}

/// The reply to delivering goods for a contract.
#[derive(Debug, PartialEq, Eq)]
pub struct DeliverContract {
    pub contract: Contract,
    pub cargo: ShipCargo,
}

/// The mathematical value of a `DeliverContract`.
pub struct DeliverContractModel {
    pub contract: ContractModel,
    pub cargo: ShipCargoModel,
}

impl FromJson for DeliverContract {
    type Model = DeliverContractModel;

    open spec fn model(&self) -> DeliverContractModel {
        DeliverContractModel {
            contract: self.contract.model(),
            cargo: self.cargo.model(),
        }
    }

    open spec fn parsed(j: JsonView, field: Seq<char>) -> Result<DeliverContractModel, DecodeErrorView> {
        match j {
            JsonView::Object(entries) => {
                let contract = required_in::<Contract>(entries, "contract"@);
                let cargo = required_in::<ShipCargo>(entries, "cargo"@);
                if contract is Err {
                    Err(contract->Err_0)
                } else if cargo is Err {
                    Err(cargo->Err_0)
                } else {
                    Ok(DeliverContractModel {
                        contract: contract->Ok_0,
                        cargo: cargo->Ok_0,
                    })
                }
            },
            _ => Err(mismatch(j, field, Shape::Object)),
        }
    }

    fn from_json(j: &Json, field: &str) -> (r: Result<DeliverContract, DecodeError>) {
        match j {
            Json::Object(_) => {},
            _ => {
                return Err(mismatch_error(j, field, Shape::Object));
            },
        }
        let contract = required_field::<Contract>(j, "contract")?;
        let cargo = required_field::<ShipCargo>(j, "cargo")?;
        Ok(DeliverContract { contract, cargo })
    }
}

/// The reply to fulfilling a contract.
#[derive(Debug, PartialEq, Eq)]
pub struct FulfillContract {
    pub agent: Agent,
    pub contract: Contract,
}

/// The mathematical value of a `FulfillContract`.
pub struct FulfillContractModel {
    pub agent: AgentModel,
    pub contract: ContractModel,
}

impl FromJson for FulfillContract {
    type Model = FulfillContractModel;

    open spec fn model(&self) -> FulfillContractModel {
        FulfillContractModel {
            agent: self.agent.model(),
            contract: self.contract.model(),
        }
    }

    open spec fn parsed(j: JsonView, field: Seq<char>) -> Result<FulfillContractModel, DecodeErrorView> {
        match j {
            JsonView::Object(entries) => {
                let agent = required_in::<Agent>(entries, "agent"@);
                let contract = required_in::<Contract>(entries, "contract"@);
                if agent is Err {
                    Err(agent->Err_0)
                } else if contract is Err {
                    Err(contract->Err_0)
                } else {
                    Ok(FulfillContractModel {
                        agent: agent->Ok_0,
                        contract: contract->Ok_0,
                    })
                }
            },
            _ => Err(mismatch(j, field, Shape::Object)),
        }
    }

    fn from_json(j: &Json, field: &str) -> (r: Result<FulfillContract, DecodeError>) {
        match j {
            Json::Object(_) => {},
            _ => {
                return Err(mismatch_error(j, field, Shape::Object));
            },
        }
        let agent = required_field::<Agent>(j, "agent")?;
        let contract = required_field::<Contract>(j, "contract")?;
        Ok(FulfillContract { agent, contract })
    }
}

} // verus!
