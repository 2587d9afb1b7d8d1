//! The two storage slots of a contract instance, and what a call is told of
//! its environment and its sender.
use vstd::prelude::*;

use crate::error::ContractError;

verus! {

/// The contract instance's storage: the owner, written when the instance is
/// instantiated, and the identifier of its collection or token, written once
/// when that is created.
#[derive(Debug, Clone, PartialEq, Eq)]
pub struct Store {
    pub owner: Option<String>,
    pub identifier: Option<String>,
}

/// What a call knows of the chain: the address of this contract instance.
#[derive(Debug, Clone, PartialEq, Eq)]
pub struct Env {
    pub contract_address: String,
}

/// What a call knows of its sender.
#[derive(Debug, Clone, PartialEq, Eq)]
pub struct MessageInfo {
    pub sender: String,
}

/// The identifier that a guarded call (mint, burn) works on, or why it is
/// refused: `Unauthorized` for anyone but the owner, then `NotFound` while no
/// identifier is stored.
pub open spec fn guarded_identifier(store: Store, sender: Seq<char>) -> Result<String, ContractError> {
    if !store.is_owner(sender) {
        Err(ContractError::Unauthorized)
    } else {
        match store.identifier {
            Some(id) => Ok(id),
            None => Err(ContractError::NotFound),
        }
    }
}

impl Store {
    /// `sender` is the stored owner.
    pub open spec fn is_owner(&self, sender: Seq<char>) -> bool {
        self.owner matches Some(o) && o@ == sender
    }

    /// A store in which nothing has been written.
    pub fn new() -> (r: Store)
        ensures
            r.owner is None,
            r.identifier is None,
    {
        Store { owner: None, identifier: None }
    }

    /// The owner gate: succeeds exactly when `sender` is the stored owner.
    pub fn assert_owner(&self, sender: &String) -> (r: Result<(), ContractError>)
        ensures
            r is Ok <==> self.is_owner(sender@),
            r is Err ==> r == Err::<(), ContractError>(ContractError::Unauthorized),
    {
        match &self.owner {
            Some(o) => {
                if o.eq(sender) {
                    Ok(())
                } else {
                    Err(ContractError::Unauthorized)
                }
            },
            None => Err(ContractError::Unauthorized),
        }
    }

    /// The stored identifier, or `NotFound` while none is stored.
    pub fn load_identifier(&self) -> (r: Result<String, ContractError>)
        ensures
            match self.identifier {
                Some(id) => r == Ok::<String, ContractError>(id),
                None => r == Err::<String, ContractError>(ContractError::NotFound),
            },
    {
        match &self.identifier {
            Some(id) => Ok(id.clone()),
            None => Err(ContractError::NotFound),
        }
    }

    /// The owner gate, then the stored identifier: what a mint or burn works on.
    pub fn guarded_identifier(&self, sender: &String) -> (r: Result<String, ContractError>)
        ensures
            r == guarded_identifier(*self, sender@),
    {
        match self.assert_owner(sender) {
            Ok(()) => {},
            Err(e) => return Err(e),
        }
        self.load_identifier()
    }
}

} // verus!
