//! The capability module: a single-address authorization gate.
//!
//! Every owner-gated mutation of any module consults this record before any
//! state change or queued effect; a failed check aborts the whole call with
//! `Unauthorized` and no state change.
use vstd::prelude::*;

use crate::error::ContractError;
use crate::response::{empty_effects, Response};
use crate::types::valid_addr;

verus! {

/// The one capability record of a contract instance.
#[derive(Debug, PartialEq, Eq)]
pub struct Ownable {
    pub owner: String,
}

/// The instantiate sub-payload of the capability module.
#[derive(Debug, PartialEq, Eq)]
pub struct OwnableInit {
    pub owner: String,
}

/// Execute messages routed to the capability module.
#[derive(Debug, PartialEq, Eq)]
pub enum OwnableExecuteMsg {
    /// Hand the capability to another address; only its current holder may.
    UpdateOwner { new_owner: String },
}

/// Query messages routed to the capability module.
#[derive(Debug, PartialEq, Eq)]
pub enum OwnableQueryMsg {
    IsOwner(String),
}

impl Ownable {
    /// The stored owner is always a well-formed address.
    pub open spec fn wf(&self) -> bool {
        valid_addr(self.owner@)
    }

    /// Creates the capability record at instantiation.
    pub fn instantiate(init: OwnableInit) -> (r: Result<(Ownable, Response), ContractError>)
        ensures
            valid_addr(init.owner@) <==> r is Ok,
            r matches Ok(p) ==> p.0.owner == init.owner && p.0.wf() && empty_effects(p.1),
            r matches Err(e) ==> e == ContractError::Validation,
    {
        if !addr_is_valid_string(&init.owner) {
            return Err(ContractError::Validation);
        }
        Ok((Ownable { owner: init.owner }, Response::new()))
    }

    /// Whether `addr` holds the capability.
    pub fn is_owner(&self, addr: &String) -> (r: bool)
        ensures
            r == (addr@ == self.owner@),
    {
        *addr == self.owner
    }

    /// Fails with `Unauthorized` unless `caller` holds the capability.
    pub fn require_owner(&self, caller: &String) -> (r: Result<(), ContractError>)
        ensures
            r is Ok <==> caller@ == self.owner@,
            r matches Err(e) ==> e == ContractError::Unauthorized,
    {
        if *caller == self.owner {
            Ok(())
        } else {
            Err(ContractError::Unauthorized)
        }
    }

    /// Hands the capability to `new_owner`; gated on the current holder.
    pub fn update_owner(&mut self, caller: &String, new_owner: String) -> (r: Result<
        Response,
        ContractError,
    >)
        ensures
            caller@ != old(self).owner@ ==> (r matches Err(e) && e == ContractError::Unauthorized),
            caller@ == old(self).owner@ && !valid_addr(new_owner@) ==> (r matches Err(e) && e
                == ContractError::Validation),
            caller@ == old(self).owner@ && valid_addr(new_owner@) ==> r is Ok && final(self).owner
                == new_owner,
            r is Ok <==> caller@ == old(self).owner@ && valid_addr(new_owner@),
            r matches Ok(resp) ==> empty_effects(resp),
            r is Err ==> *final(self) == *old(self),
            old(self).wf() ==> final(self).wf(),
    {
        if *caller != self.owner {
            return Err(ContractError::Unauthorized);
        }
        if !addr_is_valid_string(&new_owner) {
            return Err(ContractError::Validation);
        }
        self.owner = new_owner;
        Ok(Response::new())
    }

    /// Answers a capability query.
    pub fn query(&self, msg: &OwnableQueryMsg) -> (r: bool)
        ensures
            msg matches OwnableQueryMsg::IsOwner(a) ==> r == (a@ == self.owner@),
    {
        match msg {
            OwnableQueryMsg::IsOwner(addr) => self.is_owner(addr),
        }
    }
}

/// The address-format check, on an owned string.
pub fn addr_is_valid_string(s: &String) -> (r: bool)
    ensures
        r == valid_addr(s@),
{
    crate::types::addr_is_valid(s.as_str())
}

} // verus!
