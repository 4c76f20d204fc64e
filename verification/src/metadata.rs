//! The metadata module: one descriptive record per contract instance.
//!
//! The record is created at instantiation and only ever replaced wholesale:
//! callers that need a single-field change read the record, derive a new one,
//! and write it back whole.  Mutation is gated by the capability module.
use vstd::prelude::*;

use crate::error::ContractError;
use crate::ownable::Ownable;
use crate::response::{empty_effects, Response};

verus! {

/// The metadata module's state, holding a record of type `T`.
#[derive(Debug, PartialEq, Eq)]
pub struct Metadata<T> {
    pub record: Option<T>,
}

/// The instantiate sub-payload of the metadata module.
#[derive(Debug, PartialEq, Eq)]
pub struct MetadataInit<T> {
    pub metadata: T,
}

/// Execute messages routed to the metadata module.
#[derive(Debug, PartialEq, Eq)]
pub enum MetadataExecuteMsg<T> {
    /// Replace the record wholesale; no partial merge exists.
    SetMetadata(T),
}

/// Query messages routed to the metadata module.
#[derive(Debug, PartialEq, Eq)]
pub enum MetadataQueryMsg {
    GetMetadata,
}

/// The state after a successful wholesale replacement.
pub open spec fn spec_set_metadata<T>(m: T) -> Metadata<T> {
    Metadata { record: Some(m) }
}

/// What a read of the record yields.
pub open spec fn spec_get_metadata<T>(s: Metadata<T>) -> Option<T> {
    s.record
}

impl<T> Metadata<T> {
    /// Stores the initial record at instantiation.
    pub fn instantiate(init: MetadataInit<T>) -> (r: (Metadata<T>, Response))
        ensures
            r.0 == spec_set_metadata(init.metadata),
            empty_effects(r.1),
    {
        (Metadata { record: Some(init.metadata) }, Response::new())
    }

    /// Replaces the record wholesale; gated on the capability holder.
    pub fn set_metadata(&mut self, ownable: &Ownable, caller: &String, new_record: T) -> (r: Result<
        Response,
        ContractError,
    >)
        ensures
            caller@ != ownable.owner@ ==> (r matches Err(e) && e == ContractError::Unauthorized
                && *final(self) == *old(self)),
            caller@ == ownable.owner@ ==> r is Ok && *final(self) == spec_set_metadata(
                new_record,
            ),
            r matches Ok(resp) ==> empty_effects(resp),
    {
        ownable.require_owner(caller)?;
        self.record = Some(new_record);
        Ok(Response::new())
    }

    /// Reads the record; absent only before instantiation stored it.
    pub fn get_metadata(&self) -> (r: Result<&T, ContractError>)
        ensures
            spec_get_metadata(*self) matches Some(rec) ==> (r matches Ok(out) && *out == rec),
            spec_get_metadata(*self) is None ==> (r matches Err(e) && e == ContractError::NotFound),
    {
        match &self.record {
            Some(rec) => Ok(rec),
            None => Err(ContractError::NotFound),
        }
    }
}

/// The metadata round trip: replacing the record and then reading it yields
/// exactly the record written, for every record.  `set_metadata` ensures the
/// post-state is `spec_set_metadata(m)` whenever the caller holds the
/// capability, and `get_metadata` returns `spec_get_metadata` of its state;
/// this law closes the loop between the two.
pub proof fn lemma_metadata_round_trip<T>(m: T)
    ensures
        spec_get_metadata(spec_set_metadata(m)) == Some(m),
{
}

} // verus!
