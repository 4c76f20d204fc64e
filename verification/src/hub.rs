//! The hub contract: the capability and metadata modules composed.
//!
//! A hub holds one descriptive record and its capability gate.  Updating the
//! record's address-valued field is a documented two-step internal
//! composition: the current record is read, a new record is derived, and the
//! metadata module's wholesale replacement runs with it.
use vstd::prelude::*;

use crate::error::ContractError;
use crate::metadata::{
    spec_get_metadata, spec_set_metadata, Metadata, MetadataInit, MetadataQueryMsg,
};
use crate::ownable::{
    addr_is_valid_string, Ownable, OwnableExecuteMsg, OwnableInit, OwnableQueryMsg,
};
use crate::response::{empty_effects, merge_responses, Attribute, Event, Response};
use crate::token::{clone_opt_string, clone_string_vec};
use crate::types::{valid_addr, Env, MessageInfo};
use crate::version::{semver_lt, SemVer, VersionInfo};

verus! {

/// One social link of a hub.
#[derive(Debug, PartialEq, Eq)]
pub struct SocialLinks {
    pub name: String,
    pub url: String,
}

impl Clone for SocialLinks {
    fn clone(&self) -> (res: Self)
        ensures
            res == *self,
    {
        SocialLinks { name: self.name.clone(), url: self.url.clone() }
    }
}

/// The hub contract's descriptive record.
#[derive(Debug, PartialEq, Eq)]
pub struct HubMetadata {
    pub name: String,
    pub hub_url: String,
    pub description: String,
    pub tags: Vec<String>,
    pub social_links: Vec<SocialLinks>,
    pub creator: String,
    pub thumbnail_image_url: String,
    pub banner_image_url: String,
    /// The linked seat contract, once one registered itself.
    pub seat_contract: Option<String>,
}

/// `a` carries the same descriptive data as `b`, field for field (lists
/// compared by their values).
pub open spec fn same_hub_metadata(a: HubMetadata, b: HubMetadata) -> bool {
    &&& a.name == b.name
    &&& a.hub_url == b.hub_url
    &&& a.description == b.description
    &&& a.tags@ == b.tags@
    &&& a.social_links@ == b.social_links@
    &&& a.creator == b.creator
    &&& a.thumbnail_image_url == b.thumbnail_image_url
    &&& a.banner_image_url == b.banner_image_url
    &&& a.seat_contract == b.seat_contract
}

/// Copies a social link list, preserving it value for value.
pub fn clone_social_links(v: &Vec<SocialLinks>) -> (r: Vec<SocialLinks>)
    ensures
        r@ == v@,
{
    let mut out: Vec<SocialLinks> = Vec::new();
    let mut i: usize = 0;
    while i < v.len()
        invariant
            i <= v@.len(),
            out@.len() == i,
            forall|k: int| 0 <= k < i ==> out@[k] == v@[k],
        decreases v@.len() - i,
    {
        out.push(v[i].clone());
        i = i + 1;
    }
    proof {
        assert(out@ =~= v@);
    }
    out
}

impl Clone for HubMetadata {
    fn clone(&self) -> (res: Self)
        ensures
            same_hub_metadata(res, *self),
    {
        HubMetadata {
            name: self.name.clone(),
            hub_url: self.hub_url.clone(),
            description: self.description.clone(),
            tags: clone_string_vec(&self.tags),
            social_links: clone_social_links(&self.social_links),
            creator: self.creator.clone(),
            thumbnail_image_url: self.thumbnail_image_url.clone(),
            banner_image_url: self.banner_image_url.clone(),
            seat_contract: clone_opt_string(&self.seat_contract),
        }
    }
}

/// The persisted owner record, as the host convention stores it.
#[derive(Debug, PartialEq, Eq)]
pub struct Config {
    pub owner: String,
}

/// The address-valued metadata fields that can be updated in place.
#[derive(Debug, PartialEq, Eq)]
pub enum MetadataField {
    SeatContract(String),
}

/// The migrate payload: the owner the migrated instance is rewritten to.
#[derive(Debug, PartialEq, Eq)]
pub struct HubMigrateMsg {
    pub owner: String,
}

/// The composite instantiate payload: one sub-payload per module.
#[derive(Debug, PartialEq, Eq)]
pub struct HubInstantiateMsg {
    pub ownable: OwnableInit,
    pub metadata: MetadataInit<HubMetadata>,
}

/// Execute messages of the hub contract.
#[derive(Debug, PartialEq, Eq)]
pub enum HubExecuteMsg {
    Ownable(OwnableExecuteMsg),
    /// Derive a new record with the given field replaced and store it whole.
    UpdateMetadata(MetadataField),
}

/// Query messages of the hub contract.
#[derive(Debug, PartialEq, Eq)]
pub enum HubQueryMsg {
    Ownable(OwnableQueryMsg),
    Metadata(MetadataQueryMsg),
}

/// Typed query results of the hub contract.
#[derive(Debug, PartialEq, Eq)]
pub enum HubQueryResp {
    IsOwner(bool),
    Metadata(HubMetadata),
}

/// The hub contract's identity tag.
pub open spec fn hub_identity() -> Seq<char> {
    "crates.io:hub"@
}

/// `v` is `m` with the linked seat contract replaced by `seat` and every
/// other field kept.
pub open spec fn spec_with_seat(m: HubMetadata, seat: Seq<char>, v: HubMetadata) -> bool {
    &&& v.name == m.name
    &&& v.hub_url == m.hub_url
    &&& v.description == m.description
    &&& v.tags@ == m.tags@
    &&& v.social_links@ == m.social_links@
    &&& v.creator == m.creator
    &&& v.thumbnail_image_url == m.thumbnail_image_url
    &&& v.banner_image_url == m.banner_image_url
    &&& (v.seat_contract matches Some(s) && s@ == seat)
}

/// The whole persisted state of one hub contract instance.
#[derive(Debug, PartialEq, Eq)]
pub struct HubModules {
    pub version: VersionInfo,
    pub ownable: Ownable,
    pub metadata: Metadata<HubMetadata>,
}

impl Default for HubModules {
    /// An empty, not yet instantiated state.
    fn default() -> (s: HubModules)
        ensures
            s.metadata.record is None,
    {
        HubModules {
            version: VersionInfo {
                contract: String::new(),
                version: SemVer { major: 0, minor: 0, patch: 0 },
            },
            ownable: Ownable { owner: String::new() },
            metadata: Metadata { record: None },
        }
    }
}

impl HubModules {
    /// Assembles a state from already-built module states.
    pub fn new(ownable_module: Ownable, metadata_module: Metadata<HubMetadata>) -> (s: HubModules)
        ensures
            s.ownable == ownable_module,
            s.metadata == metadata_module,
    {
        HubModules {
            version: VersionInfo {
                contract: String::new(),
                version: SemVer { major: 0, minor: 0, patch: 0 },
            },
            ownable: ownable_module,
            metadata: metadata_module,
        }
    }

    /// Runs the capability and metadata instantiations in order and merges
    /// their partial effects after the hub's own instantiation event.  Fails
    /// only on a malformed owner address, and changes nothing then.
    pub fn instantiate(&mut self, env: &Env, info: &MessageInfo, msg: HubInstantiateMsg) -> (r:
        Result<Response, ContractError>)
        ensures
            r is Ok <==> valid_addr(msg.ownable.owner@),
            r matches Err(e) ==> e == ContractError::Validation && *final(self) == *old(self),
            r is Ok ==> ({
                &&& final(self).version.contract@ == hub_identity()
                &&& final(self).version.version == crate::seat::spec_running_version()
                &&& final(self).ownable.owner == msg.ownable.owner
                &&& final(self).metadata == spec_set_metadata(msg.metadata.metadata)
            }),
            r matches Ok(resp) ==> resp.messages@.len() == 0 && resp.attributes@.len() == 0
                && resp.data is None && resp.events@.len() == 1 && resp.events@[0].ty@
                == "hub-instantiate"@ && resp.events@[0].attributes@.len() == 1
                && resp.events@[0].attributes@[0].key@ == "contract_address"@
                && resp.events@[0].attributes@[0].value == env.contract_address,
    {
        let ownable_result = Ownable::instantiate(msg.ownable);
        let (new_ownable, r1) = match ownable_result {
            Ok(p) => p,
            Err(e) => {
                return Err(e);
            },
        };
        let (new_metadata, r2) = Metadata::instantiate(msg.metadata);
        let mut event_attributes: Vec<Attribute> = Vec::new();
        event_attributes.push(
            Attribute {
                key: "contract_address".to_owned(),
                value: env.contract_address.clone(),
            },
        );
        let mut base = Response::new();
        base.events.push(Event { ty: "hub-instantiate".to_owned(), attributes: event_attributes });
        let mut parts: Vec<Response> = Vec::new();
        parts.push(r1);
        parts.push(r2);
        proof {
            crate::response::lemma_all_empty(parts@);
        }
        let resp = merge_responses(base, parts);
        self.version = VersionInfo {
            contract: "crates.io:hub".to_owned(),
            version: SemVer { major: 0, minor: 1, patch: 0 },
        };
        self.ownable = new_ownable;
        self.metadata = new_metadata;
        Ok(resp)
    }

    /// Routes one execute message.  Both messages are owner-gated; every
    /// failure leaves the whole persisted state unchanged.
    pub fn execute(&mut self, env: &Env, info: &MessageInfo, msg: HubExecuteMsg) -> (r: Result<
        Response,
        ContractError,
    >)
        ensures
            r is Err ==> *final(self) == *old(self),
            info.sender@ != old(self).ownable.owner@ ==> (r matches Err(e) && e
                == ContractError::Unauthorized),
            final(self).version == old(self).version,
            msg matches HubExecuteMsg::Ownable(OwnableExecuteMsg::UpdateOwner { new_owner }) ==> ({
                &&& (r is Ok <==> info.sender@ == old(self).ownable.owner@ && valid_addr(
                    new_owner@,
                ))
                &&& (info.sender@ == old(self).ownable.owner@ && !valid_addr(new_owner@) ==> (
                r matches Err(e) && e == ContractError::Validation))
                &&& (r is Ok ==> final(self).ownable.owner == new_owner)
                &&& final(self).metadata == old(self).metadata
            }),
            msg matches HubExecuteMsg::UpdateMetadata(MetadataField::SeatContract(addr)) ==> ({
                &&& (info.sender@ == old(self).ownable.owner@ && old(self).metadata.record is None
                    ==> (r matches Err(e) && e == ContractError::NotFound))
                &&& (info.sender@ == old(self).ownable.owner@ && old(self).metadata.record is Some
                    && !valid_addr(addr@) ==> (r matches Err(e) && e == ContractError::Validation))
                &&& (r is Ok <==> info.sender@ == old(self).ownable.owner@ && old(
                    self,
                ).metadata.record is Some && valid_addr(addr@))
                &&& (r is Ok ==> (final(self).metadata.record matches Some(v) && spec_with_seat(
                    old(self).metadata.record->Some_0,
                    addr@,
                    v,
                )))
                &&& final(self).ownable == old(self).ownable
            }),
            r matches Ok(resp) ==> empty_effects(resp),
    {
        match msg {
            HubExecuteMsg::Ownable(omsg) => match omsg {
                OwnableExecuteMsg::UpdateOwner { new_owner } => self.ownable.update_owner(
                    &info.sender,
                    new_owner,
                ),
            },
            HubExecuteMsg::UpdateMetadata(field) => {
                self.ownable.require_owner(&info.sender)?;
                let current = match self.metadata.get_metadata() {
                    Ok(rec) => rec.clone(),
                    Err(e) => {
                        return Err(e);
                    },
                };
                match field {
                    MetadataField::SeatContract(addr) => current.update_seat_contract(
                        self,
                        info,
                        addr,
                    ),
                }
            },
        }
    }

    /// Answers one read-only query; no state change and no effects.
    pub fn query(&self, msg: HubQueryMsg) -> (r: Result<HubQueryResp, ContractError>)
        ensures
            msg matches HubQueryMsg::Ownable(OwnableQueryMsg::IsOwner(a)) ==> (r matches Ok(
                HubQueryResp::IsOwner(b),
            ) && b == (a@ == self.ownable.owner@)),
            msg matches HubQueryMsg::Metadata(MetadataQueryMsg::GetMetadata) ==> ({
                &&& spec_get_metadata(self.metadata) matches Some(rec) ==> (r matches Ok(
                    HubQueryResp::Metadata(out),
                ) && same_hub_metadata(out, rec))
                &&& spec_get_metadata(self.metadata) is None ==> (r matches Err(e) && e
                    == ContractError::NotFound)
            }),
    {
        match msg {
            HubQueryMsg::Ownable(omsg) => Ok(HubQueryResp::IsOwner(self.ownable.query(&omsg))),
            HubQueryMsg::Metadata(_mmsg) => {
                let rec = self.metadata.get_metadata()?;
                Ok(HubQueryResp::Metadata(rec.clone()))
            },
        }
    }

    /// Rewrites the stored owner and bumps the stored version; permitted
    /// only from the same contract identity and a strictly older stored
    /// version, and changes nothing otherwise.
    pub fn migrate(&mut self, msg: HubMigrateMsg) -> (r: Result<Response, ContractError>)
        ensures
            old(self).version.contract@ != hub_identity() ==> (r matches Err(e) && e
                == ContractError::InvalidState),
            old(self).version.contract@ == hub_identity() && !semver_lt(
                old(self).version.version,
                crate::seat::spec_running_version(),
            ) ==> (r matches Err(e) && e == ContractError::InvalidState),
            old(self).version.contract@ == hub_identity() && semver_lt(
                old(self).version.version,
                crate::seat::spec_running_version(),
            ) && !valid_addr(msg.owner@) ==> (r matches Err(e) && e == ContractError::Validation),
            r is Ok <==> old(self).version.contract@ == hub_identity() && semver_lt(
                old(self).version.version,
                crate::seat::spec_running_version(),
            ) && valid_addr(msg.owner@),
            r is Err ==> *final(self) == *old(self),
            r matches Ok(resp) ==> empty_effects(resp),
            r is Ok ==> final(self).ownable.owner == msg.owner && final(self).version.version
                == crate::seat::spec_running_version() && final(self).version.contract@
                == hub_identity(),
            r is Ok ==> final(self).metadata == old(self).metadata,
    {
        let expected: String = "crates.io:hub".to_owned();
        if self.version.contract != expected {
            return Err(ContractError::InvalidState);
        }
        let running = SemVer { major: 0, minor: 1, patch: 0 };
        if !self.version.version.precedes(&running) {
            return Err(ContractError::InvalidState);
        }
        if !addr_is_valid_string(&msg.owner) {
            return Err(ContractError::Validation);
        }
        self.ownable.owner = msg.owner;
        self.version = VersionInfo { contract: expected, version: running };
        Ok(Response::new())
    }
}

impl HubMetadata {
    /// Derives a record with `address` as the linked seat contract and
    /// stores it whole through the metadata module; gated like any
    /// replacement.
    pub fn update_seat_contract(
        self,
        modules: &mut HubModules,
        info: &MessageInfo,
        address: String,
    ) -> (r: Result<Response, ContractError>)
        ensures
            info.sender@ != old(modules).ownable.owner@ ==> (r matches Err(e) && e
                == ContractError::Unauthorized && *final(modules) == *old(modules)),
            info.sender@ == old(modules).ownable.owner@ && !valid_addr(address@) ==> (
            r matches Err(e) && e == ContractError::Validation && *final(modules) == *old(modules)),
            r is Ok <==> info.sender@ == old(modules).ownable.owner@ && valid_addr(address@),
            r is Ok ==> (final(modules).metadata.record matches Some(v) && spec_with_seat(
                self,
                address@,
                v,
            )),
            r matches Ok(resp) ==> empty_effects(resp),
            final(modules).ownable == old(modules).ownable,
            final(modules).version == old(modules).version,
    {
        if !addr_is_valid_string(&address) {
            if modules.ownable.is_owner(&info.sender) {
                return Err(ContractError::Validation);
            } else {
                return Err(ContractError::Unauthorized);
            }
        }
        let new_metadata = HubMetadata {
            seat_contract: Some(address),
            name: self.name,
            hub_url: self.hub_url,
            description: self.description,
            tags: self.tags,
            social_links: self.social_links,
            creator: self.creator,
            thumbnail_image_url: self.thumbnail_image_url,
            banner_image_url: self.banner_image_url,
        };
        modules.metadata.set_metadata(&modules.ownable, &info.sender, new_metadata)
    }
}

} // verus!
