//! The seat contract: the full marketplace composition.
//!
//! One instance composes the capability, metadata, token, redemption,
//! listing and primary sale modules over one persisted state.  Instantiate
//! runs every module in a fixed order and merges their partial effects;
//! execute routes one tagged message to exactly one module; query is
//! read-only.  Every owner-gated operation checks the capability before any
//! state change, so a failed check leaves all persisted records unchanged.
use vstd::prelude::*;

use crate::error::ContractError;
use crate::metadata::{
    spec_get_metadata, spec_set_metadata, Metadata, MetadataExecuteMsg, MetadataInit,
    MetadataQueryMsg,
};
use crate::ownable::{
    addr_is_valid_string, Ownable, OwnableExecuteMsg, OwnableInit, OwnableQueryMsg,
};
use crate::redeemable::{
    has_redeemed, Redeemable, RedeemableExecuteMsg, RedeemableInit, RedeemableQueryMsg,
};
use crate::response::{empty_effects, merge_responses, OutboundMsg, Response};
use crate::sales::{
    has_active, same_sale, spec_bump, spec_halt, PrimarySale, Sales, SalesExecuteMsg, SalesInit,
    SalesQueryMsg,
};
use crate::sellable::{
    chosen_index, has_listing, input_price, is_first_min, price_at, Listing, Sellable,
    SellableExecuteMsg, SellableInit, SellableQueryMsg,
};
use crate::token::{
    clone_opt_string, clone_string_vec, has_token, mint_post, spec_cursor, spec_page_limit,
    spec_tokens_of, take_up_to, token_at, token_authorized, transfer_post, TokenExecuteMsg,
    TokenInfo, TokenInit, TokenMetadata, TokenQueryMsg, Tokens,
};
use crate::types::{spec_covers, spec_paid, valid_addr, Env, MessageInfo};
use crate::version::{semver_lt, SemVer, VersionInfo};

verus! {

/// One benefit a seat grants its holder.
#[derive(Debug, PartialEq, Eq)]
pub struct SeatBenefits {
    pub name: String,
    pub status: String,
}

impl Clone for SeatBenefits {
    fn clone(&self) -> (res: Self)
        ensures
            res == *self,
    {
        SeatBenefits { name: self.name.clone(), status: self.status.clone() }
    }
}

/// Which names the seat's image composition shows.
#[derive(Clone, Copy, Debug, PartialEq, Eq, Structural)]
pub struct ImageSettings {
    pub seat_name: bool,
    pub hub_name: bool,
}

/// The seat contract's descriptive record.
#[derive(Debug, PartialEq, Eq)]
pub struct SeatMetadata {
    pub name: String,
    pub image_uri: String,
    pub description: String,
    pub benefits: Vec<SeatBenefits>,
    pub template_number: u8,
    pub image_settings: ImageSettings,
}

/// `a` carries the same descriptive data as `b`, field for field (benefit
/// lists compared by their values).
pub open spec fn same_seat_metadata(a: SeatMetadata, b: SeatMetadata) -> bool {
    &&& a.name == b.name
    &&& a.image_uri == b.image_uri
    &&& a.description == b.description
    &&& a.benefits@ == b.benefits@
    &&& a.template_number == b.template_number
    &&& a.image_settings == b.image_settings
}

/// Copies a benefit list, preserving it value for value.
pub fn clone_benefits(v: &Vec<SeatBenefits>) -> (r: Vec<SeatBenefits>)
    ensures
        r@ == v@,
{
    let mut out: Vec<SeatBenefits> = Vec::new();
    let mut i: usize = 0;
    while i < v.len()
        invariant
            i <= v@.len(),
            out@.len() == i,
            forall|k: int| 0 <= k < i ==> out@[k] == v@[k],
        decreases v@.len() - i,
    {
        out.push(v[i].clone());
        i = i + 1;
    }
    proof {
        assert(out@ =~= v@);
    }
    out
}

impl Clone for SeatMetadata {
    fn clone(&self) -> (res: Self)
        ensures
            same_seat_metadata(res, *self),
    {
        SeatMetadata {
            name: self.name.clone(),
            image_uri: self.image_uri.clone(),
            description: self.description.clone(),
            benefits: clone_benefits(&self.benefits),
            template_number: self.template_number,
            image_settings: self.image_settings,
        }
    }
}

/// The persisted owner record, as the host convention stores it.
#[derive(Debug, PartialEq, Eq)]
pub struct Config {
    pub owner: String,
}

/// The migrate payload: the owner the migrated instance is rewritten to.
#[derive(Debug, PartialEq, Eq)]
pub struct MigrateMsg {
    pub owner: String,
}

/// The composite instantiate payload: one sub-payload per module.  A caller
/// may omit the listing sub-payload; the listing set then starts empty.
#[derive(Debug, PartialEq, Eq)]
pub struct InstantiateMsg {
    pub ownable: OwnableInit,
    pub metadata: MetadataInit<SeatMetadata>,
    pub seat_token: TokenInit,
    pub redeemable: RedeemableInit,
    pub sellable: Option<SellableInit>,
    pub sales: SalesInit,
    pub hub_contract: String,
}

/// Execute messages: one tagged sub-message per module.
#[derive(Debug, PartialEq, Eq)]
pub enum ExecuteMsg {
    Ownable(OwnableExecuteMsg),
    Metadata(MetadataExecuteMsg<SeatMetadata>),
    SeatToken(TokenExecuteMsg),
    Redeemable(RedeemableExecuteMsg),
    Sellable(SellableExecuteMsg),
    Sales(SalesExecuteMsg),
}

/// Query messages: one tagged sub-message per module, plus the seat roster.
#[derive(Debug, PartialEq, Eq)]
pub enum QueryMsg {
    Ownable(OwnableQueryMsg),
    Metadata(MetadataQueryMsg),
    SeatToken(TokenQueryMsg),
    Redeemable(RedeemableQueryMsg),
    Sellable(SellableQueryMsg),
    Sales(SalesQueryMsg),
    AllSeats,
}

/// One row of the seat roster: a token joined with its listing state.
#[derive(Debug, PartialEq, Eq)]
pub struct SeatInfo {
    pub token_id: String,
    pub listed_price: Option<u64>,
    pub owner: String,
    pub approvals: Vec<String>,
    pub token_uri: Option<String>,
    pub extension: TokenMetadata,
}

/// Typed query results.
#[derive(Debug, PartialEq, Eq)]
pub enum QueryResp {
    IsOwner(bool),
    Metadata(SeatMetadata),
    NumTokens(usize),
    OwnerOf(String),
    OwnerTokens(Vec<String>),
    IsRedeemed(bool),
    ListedTokens(Vec<Listing>),
    PrimarySales(Vec<PrimarySale>),
    ActivePrimarySale(Option<PrimarySale>),
    AllSeats(Vec<SeatInfo>),
}

/// The seat contract's identity tag.
pub open spec fn seat_identity() -> Seq<char> {
    "crates.io:seat"@
}

/// The semantic version of this code.
pub open spec fn spec_running_version() -> SemVer {
    SemVer { major: 0, minor: 1, patch: 0 }
}

/// Whether an execute message is gated on the capability holder.
pub open spec fn owner_gated(msg: ExecuteMsg) -> bool {
    match msg {
        ExecuteMsg::Ownable(_) => true,
        ExecuteMsg::Metadata(_) => true,
        ExecuteMsg::Sellable(SellableExecuteMsg::List { .. }) => true,
        ExecuteMsg::Sales(SalesExecuteMsg::CreatePrimarySale { .. }) => true,
        ExecuteMsg::Sales(SalesExecuteMsg::HaltSale) => true,
        _ => false,
    }
}

/// The whole persisted state of one seat contract instance.
#[derive(Debug, PartialEq, Eq)]
pub struct SeatModules {
    pub version: VersionInfo,
    pub hub_contract: String,
    pub ownable: Ownable,
    pub metadata: Metadata<SeatMetadata>,
    pub seat_token: Tokens,
    pub redeemable: Redeemable,
    pub sellable_token: Sellable,
    pub sales: Sales,
}

impl SeatModules {
    /// All per-module invariants at once.
    pub open spec fn wf(&self) -> bool {
        &&& self.seat_token.wf()
        &&& self.redeemable.wf()
        &&& self.sellable_token.wf()
        &&& self.sales.wf()
    }

    /// An empty, not yet instantiated state.
    pub fn new() -> (s: SeatModules)
        ensures
            s.wf(),
            s.metadata.record is None,
            s.seat_token.entries@.len() == 0,
            s.redeemable.redeemed@.len() == 0,
            s.sellable_token.listings@.len() == 0,
            s.sales.history@.len() == 0,
    {
        SeatModules {
            version: VersionInfo {
                contract: String::new(),
                version: SemVer { major: 0, minor: 0, patch: 0 },
            },
            hub_contract: String::new(),
            ownable: Ownable { owner: String::new() },
            metadata: Metadata { record: None },
            seat_token: Tokens {
                name: String::new(),
                symbol: String::new(),
                minter: String::new(),
                entries: Vec::new(),
            },
            redeemable: Redeemable { redeemed: Vec::new() },
            sellable_token: Sellable { listings: Vec::new() },
            sales: Sales { history: Vec::new() },
        }
    }

    /// Runs every module's instantiation in the fixed order capability,
    /// metadata, token, redemption, primary sale, listing, merges their
    /// partial effects, and queues one message registering this seat with
    /// the hub contract.  Fails only on a malformed hub or owner address,
    /// and changes nothing then.
    pub fn instantiate(&mut self, env: &Env, info: &MessageInfo, msg: InstantiateMsg) -> (r: Result<
        Response,
        ContractError,
    >)
        ensures
            r is Ok <==> valid_addr(msg.hub_contract@) && valid_addr(msg.ownable.owner@),
            r matches Err(e) ==> e == ContractError::Validation && *final(self) == *old(self),
            r is Ok ==> final(self).wf(),
            r is Ok ==> ({
                &&& final(self).version.contract@ == seat_identity()
                &&& final(self).version.version == spec_running_version()
                &&& final(self).hub_contract == msg.hub_contract
                &&& final(self).ownable.owner == msg.ownable.owner
                &&& final(self).metadata == spec_set_metadata(msg.metadata.metadata)
                &&& final(self).seat_token.entries@.len() == 0
                &&& final(self).seat_token.name == msg.seat_token.name
                &&& final(self).seat_token.symbol == msg.seat_token.symbol
                &&& final(self).seat_token.minter == msg.seat_token.minter
                &&& forall|id: Seq<char>|
                    has_redeemed(final(self).redeemable.redeemed@, id) == has_redeemed(
                        msg.redeemable.locked_items@,
                        id,
                    )
                &&& final(self).sales.history@.len() == 0
                &&& (msg.sellable matches Some(si) ==> forall|id: Seq<char>|
                    {
                        &&& (#[trigger] input_price(si.tokens@, id)) matches Some(p)
                            ==> has_listing(final(self).sellable_token.listings@, id) && price_at(
                            final(self).sellable_token.listings@,
                            id,
                        ) == p
                        &&& input_price(si.tokens@, id) is None ==> !has_listing(
                            final(self).sellable_token.listings@,
                            id,
                        )
                    })
                &&& (msg.sellable is None ==> forall|id: Seq<char>|
                    !has_listing(final(self).sellable_token.listings@, id))
            }),
            r matches Ok(resp) ==> resp.events@.len() == 0 && resp.attributes@.len() == 0
                && resp.data is None && resp.messages@.len() == 1 && (resp.messages@[0] matches
            OutboundMsg::RegisterSeat { hub, seat } && hub == msg.hub_contract && seat
                == env.contract_address),
    {
        if !addr_is_valid_string(&msg.hub_contract) {
            return Err(ContractError::Validation);
        }
        let ownable_result = Ownable::instantiate(msg.ownable);
        let (new_ownable, r1) = match ownable_result {
            Ok(p) => p,
            Err(e) => {
                return Err(e);
            },
        };
        let (new_metadata, r2) = Metadata::instantiate(msg.metadata);
        let (new_token, r3) = Tokens::instantiate(msg.seat_token);
        let (new_redeemable, r4) = Redeemable::instantiate(msg.redeemable);
        let (new_sales, r5) = Sales::instantiate(msg.sales);
        let sellable_init = match msg.sellable {
            Some(si) => si,
            None => SellableInit { tokens: Vec::new() },
        };
        let ghost sellable_entries: Seq<Listing> = sellable_init.tokens@;
        let (new_sellable, r6) = Sellable::instantiate(sellable_init);
        let mut parts: Vec<Response> = Vec::new();
        parts.push(r1);
        parts.push(r2);
        parts.push(r3);
        parts.push(r4);
        parts.push(r5);
        parts.push(r6);
        proof {
            crate::response::lemma_all_empty(parts@);
        }
        let mut resp = merge_responses(Response::new(), parts);
        resp.messages.push(
            OutboundMsg::RegisterSeat {
                hub: msg.hub_contract.clone(),
                seat: env.contract_address.clone(),
            },
        );
        self.version = VersionInfo {
            contract: "crates.io:seat".to_owned(),
            version: SemVer { major: 0, minor: 1, patch: 0 },
        };
        self.hub_contract = msg.hub_contract;
        self.ownable = new_ownable;
        self.metadata = new_metadata;
        self.seat_token = new_token;
        self.redeemable = new_redeemable;
        self.sellable_token = new_sellable;
        self.sales = new_sales;
        proof {
            if msg.sellable is None {
                assert forall|id: Seq<char>| !has_listing(
                    self.sellable_token.listings@,
                    id,
                ) by {
                    assert(input_price(sellable_entries, id) is None);
                }
            }
        }
        Ok(resp)
    }

    /// Routes one execute message to its module.  Every owner-gated message
    /// from a caller other than the capability holder fails with
    /// `Unauthorized`; every failure of any kind leaves the whole persisted
    /// state unchanged.
    pub fn execute(&mut self, env: &Env, info: &MessageInfo, msg: ExecuteMsg) -> (r: Result<
        Response,
        ContractError,
    >)
        requires
            old(self).wf(),
        ensures
            final(self).wf(),
            r is Err ==> *final(self) == *old(self),
            owner_gated(msg) && info.sender@ != old(self).ownable.owner@ ==> (r matches Err(e)
                && e == ContractError::Unauthorized),
            final(self).version == old(self).version,
            final(self).hub_contract == old(self).hub_contract,
            !(msg is Ownable) ==> final(self).ownable == old(self).ownable,
            !(msg is Metadata) ==> final(self).metadata == old(self).metadata,
            !(msg is SeatToken || msg matches ExecuteMsg::Sellable(SellableExecuteMsg::Buy) || msg
                matches ExecuteMsg::Sales(SalesExecuteMsg::BuyItem(_))) ==> final(self).seat_token
                == old(self).seat_token,
            !(msg is Redeemable) ==> final(self).redeemable == old(self).redeemable,
            !(msg is Sellable) ==> final(self).sellable_token == old(self).sellable_token,
            !(msg is Sales) ==> final(self).sales == old(self).sales,
            final(self).seat_token.name == old(self).seat_token.name,
            final(self).seat_token.symbol == old(self).seat_token.symbol,
            final(self).seat_token.minter == old(self).seat_token.minter,
            msg matches ExecuteMsg::Ownable(OwnableExecuteMsg::UpdateOwner { new_owner }) ==> ({
                &&& (r is Ok <==> info.sender@ == old(self).ownable.owner@ && valid_addr(
                    new_owner@,
                ))
                &&& (info.sender@ == old(self).ownable.owner@ && !valid_addr(new_owner@) ==> (
                r matches Err(e) && e == ContractError::Validation))
                &&& (r is Ok ==> final(self).ownable.owner == new_owner)
            }),
            msg matches ExecuteMsg::Metadata(MetadataExecuteMsg::SetMetadata(m)) ==> ({
                &&& (r is Ok <==> info.sender@ == old(self).ownable.owner@)
                &&& (r is Ok ==> final(self).metadata == spec_set_metadata(m))
            }),
            msg matches ExecuteMsg::SeatToken(TokenExecuteMsg::Mint(mm)) ==> ({
                &&& (info.sender@ != old(self).seat_token.minter@ ==> (r matches Err(e) && e
                    == ContractError::Unauthorized))
                &&& (info.sender@ == old(self).seat_token.minter@ && has_token(
                    old(self).seat_token.entries@,
                    mm.token_id@,
                ) ==> (r matches Err(e) && e == ContractError::AlreadyExists))
                &&& (info.sender@ == old(self).seat_token.minter@ && !has_token(
                    old(self).seat_token.entries@,
                    mm.token_id@,
                ) && !valid_addr(mm.owner@) ==> (r matches Err(e) && e
                    == ContractError::Validation))
                &&& (r is Ok <==> info.sender@ == old(self).seat_token.minter@ && !has_token(
                    old(self).seat_token.entries@,
                    mm.token_id@,
                ) && valid_addr(mm.owner@))
                &&& (r is Ok ==> mint_post(
                    old(self).seat_token.entries@,
                    final(self).seat_token.entries@,
                    mm,
                ))
            }),
            msg matches ExecuteMsg::SeatToken(TokenExecuteMsg::TransferNft {
                recipient,
                token_id,
            }) ==> ({
                &&& (!has_token(old(self).seat_token.entries@, token_id@) ==> (r matches Err(e)
                    && e == ContractError::NotFound))
                &&& (has_token(old(self).seat_token.entries@, token_id@) && !token_authorized(
                    token_at(old(self).seat_token.entries@, token_id@),
                    info.sender@,
                ) ==> (r matches Err(e) && e == ContractError::Unauthorized))
                &&& (has_token(old(self).seat_token.entries@, token_id@) && token_authorized(
                    token_at(old(self).seat_token.entries@, token_id@),
                    info.sender@,
                ) && !valid_addr(recipient@) ==> (r matches Err(e) && e
                    == ContractError::Validation))
                &&& (r is Ok <==> has_token(old(self).seat_token.entries@, token_id@)
                    && token_authorized(
                    token_at(old(self).seat_token.entries@, token_id@),
                    info.sender@,
                ) && valid_addr(recipient@))
                &&& (r is Ok ==> transfer_post(
                    old(self).seat_token.entries@,
                    final(self).seat_token.entries@,
                    token_id@,
                    recipient@,
                ))
            }),
            msg matches ExecuteMsg::SeatToken(TokenExecuteMsg::Approve { spender, token_id })
                ==> ({
                &&& (!has_token(old(self).seat_token.entries@, token_id@) ==> (r matches Err(e)
                    && e == ContractError::NotFound))
                &&& (has_token(old(self).seat_token.entries@, token_id@) && token_at(
                    old(self).seat_token.entries@,
                    token_id@,
                ).owner@ != info.sender@ ==> (r matches Err(e) && e
                    == ContractError::Unauthorized))
                &&& (has_token(old(self).seat_token.entries@, token_id@) && token_at(
                    old(self).seat_token.entries@,
                    token_id@,
                ).owner@ == info.sender@ && !valid_addr(spender@) ==> (r matches Err(e) && e
                    == ContractError::Validation))
                &&& (r is Ok <==> has_token(old(self).seat_token.entries@, token_id@) && token_at(
                    old(self).seat_token.entries@,
                    token_id@,
                ).owner@ == info.sender@ && valid_addr(spender@))
                &&& (r is Ok ==> token_at(final(self).seat_token.entries@, token_id@).approvals@
                    == token_at(old(self).seat_token.entries@, token_id@).approvals@.push(spender))
            }),
            msg matches ExecuteMsg::Redeemable(RedeemableExecuteMsg::RedeemItem(id)) ==> ({
                &&& (has_redeemed(old(self).redeemable.redeemed@, id@) ==> (r matches Err(e) && e
                    == ContractError::AlreadyExists))
                &&& (r is Ok <==> !has_redeemed(old(self).redeemable.redeemed@, id@))
                &&& (r is Ok ==> final(self).redeemable.redeemed@
                    == old(self).redeemable.redeemed@.push(id))
            }),
            msg matches ExecuteMsg::Sellable(SellableExecuteMsg::List { listings }) ==> ({
                &&& (r is Ok <==> info.sender@ == old(self).ownable.owner@)
                &&& (r is Ok ==> forall|id: Seq<char>|
                    {
                        &&& (#[trigger] input_price(listings@, id)) matches Some(p)
                            ==> has_listing(final(self).sellable_token.listings@, id) && price_at(
                            final(self).sellable_token.listings@,
                            id,
                        ) == p
                        &&& input_price(listings@, id) is None ==> has_listing(
                            final(self).sellable_token.listings@,
                            id,
                        ) == has_listing(old(self).sellable_token.listings@, id) && (has_listing(
                            old(self).sellable_token.listings@,
                            id,
                        ) ==> crate::sellable::listing_at(final(self).sellable_token.listings@, id)
                            == crate::sellable::listing_at(
                            old(self).sellable_token.listings@,
                            id,
                        ))
                    })
            }),
            msg matches ExecuteMsg::Sellable(SellableExecuteMsg::Buy) ==> ({
                let book = old(self).sellable_token.listings@;
                &&& (book.len() > 0 ==> is_first_min(book, chosen_index(book)))
                &&& (book.len() == 0 ==> (r matches Err(e) && e == ContractError::NotFound))
                &&& (book.len() > 0 && spec_paid(info.funds@, env.native_denom@) < book[
                    chosen_index(book)
                ].price as int ==> (r matches Err(e) && e == ContractError::InsufficientFunds))
                &&& (book.len() > 0 && spec_paid(info.funds@, env.native_denom@) >= book[
                    chosen_index(book)
                ].price as int && !has_token(
                    old(self).seat_token.entries@,
                    book[chosen_index(book)].token_id@,
                ) ==> (r matches Err(e) && e == ContractError::NotFound))
                &&& (book.len() > 0 && spec_paid(info.funds@, env.native_denom@) >= book[
                    chosen_index(book)
                ].price as int && has_token(
                    old(self).seat_token.entries@,
                    book[chosen_index(book)].token_id@,
                ) && !valid_addr(info.sender@) ==> (r matches Err(e) && e
                    == ContractError::Validation))
                &&& (r is Ok <==> book.len() > 0 && spec_paid(info.funds@, env.native_denom@)
                    >= book[chosen_index(book)].price as int && has_token(
                    old(self).seat_token.entries@,
                    book[chosen_index(book)].token_id@,
                ) && valid_addr(info.sender@))
                &&& (r is Ok ==> final(self).sellable_token.listings@ == book.remove(
                    chosen_index(book),
                ) && transfer_post(
                    old(self).seat_token.entries@,
                    final(self).seat_token.entries@,
                    book[chosen_index(book)].token_id@,
                    info.sender@,
                ))
                &&& (r matches Ok(resp) ==> resp.messages@.len() == 1 && (resp.messages@[0] matches
                OutboundMsg::Send { to_address, amount } && to_address@
                    == old(self).ownable.owner@ && amount@ == info.funds@))
            }),
            msg matches ExecuteMsg::Sales(SalesExecuteMsg::CreatePrimarySale {
                total_supply,
                start_time,
                end_time,
                price,
            }) ==> ({
                &&& (info.sender@ == old(self).ownable.owner@ && has_active(
                    old(self).sales.history@,
                    env.block_time,
                ) ==> (r matches Err(e) && e == ContractError::InvalidState))
                &&& (r is Ok <==> info.sender@ == old(self).ownable.owner@ && !has_active(
                    old(self).sales.history@,
                    env.block_time,
                ))
                &&& (r is Ok ==> final(self).sales.history@ == old(self).sales.history@.push(
                    (PrimarySale {
                        total_supply,
                        start_time,
                        end_time,
                        price,
                        tokens_minted: 0,
                        disabled: false,
                    }),
                ))
            }),
            msg matches ExecuteMsg::Sales(SalesExecuteMsg::BuyItem(mm)) ==> ({
                &&& (!has_active(old(self).sales.history@, env.block_time) ==> (r matches Err(e)
                    && e == ContractError::InvalidState))
                &&& (has_active(old(self).sales.history@, env.block_time) && !spec_covers(
                    info.funds@,
                    old(self).sales.history@.last().price@,
                ) ==> (r matches Err(e) && e == ContractError::InsufficientFunds))
                &&& (has_active(old(self).sales.history@, env.block_time) && spec_covers(
                    info.funds@,
                    old(self).sales.history@.last().price@,
                ) && has_token(old(self).seat_token.entries@, mm.token_id@) ==> (r matches Err(e)
                    && e == ContractError::AlreadyExists))
                &&& (has_active(old(self).sales.history@, env.block_time) && spec_covers(
                    info.funds@,
                    old(self).sales.history@.last().price@,
                ) && !has_token(old(self).seat_token.entries@, mm.token_id@) && !valid_addr(
                    mm.owner@,
                ) ==> (r matches Err(e) && e == ContractError::Validation))
                &&& (r is Ok <==> has_active(old(self).sales.history@, env.block_time)
                    && spec_covers(info.funds@, old(self).sales.history@.last().price@)
                    && !has_token(old(self).seat_token.entries@, mm.token_id@) && valid_addr(
                    mm.owner@,
                ))
                &&& (r is Ok ==> final(self).sales.history@ == old(self).sales.history@.update(
                    old(self).sales.history@.len() - 1,
                    spec_bump(old(self).sales.history@.last()),
                ) && mint_post(
                    old(self).seat_token.entries@,
                    final(self).seat_token.entries@,
                    mm,
                ))
            }),
            msg matches ExecuteMsg::Sales(SalesExecuteMsg::HaltSale) ==> ({
                &&& (info.sender@ == old(self).ownable.owner@ && old(self).sales.history@.len()
                    == 0 ==> (r matches Err(e) && e == ContractError::NotFound))
                &&& (r is Ok <==> info.sender@ == old(self).ownable.owner@
                    && old(self).sales.history@.len() > 0)
                &&& (r is Ok ==> final(self).sales.history@ == old(self).sales.history@.update(
                    old(self).sales.history@.len() - 1,
                    spec_halt(old(self).sales.history@.last()),
                ) && forall|t: u64| !has_active(final(self).sales.history@, t))
            }),
            !(msg matches ExecuteMsg::Sellable(SellableExecuteMsg::Buy)) ==> (r matches Ok(resp)
                ==> empty_effects(resp)),
    {
        match msg {
            ExecuteMsg::Ownable(omsg) => match omsg {
                OwnableExecuteMsg::UpdateOwner { new_owner } => self.ownable.update_owner(
                    &info.sender,
                    new_owner,
                ),
            },
            ExecuteMsg::Metadata(mmsg) => match mmsg {
                MetadataExecuteMsg::SetMetadata(m) => self.metadata.set_metadata(
                    &self.ownable,
                    &info.sender,
                    m,
                ),
            },
            ExecuteMsg::SeatToken(tmsg) => match tmsg {
                TokenExecuteMsg::Mint(mm) => {
                    if info.sender != self.seat_token.minter {
                        return Err(ContractError::Unauthorized);
                    }
                    self.seat_token.mint(mm)
                },
                TokenExecuteMsg::TransferNft { recipient, token_id } => self.seat_token.transfer(
                    &info.sender,
                    recipient,
                    &token_id,
                ),
                TokenExecuteMsg::Approve { spender, token_id } => self.seat_token.approve(
                    &info.sender,
                    spender,
                    &token_id,
                ),
            },
            ExecuteMsg::Redeemable(rmsg) => match rmsg {
                RedeemableExecuteMsg::RedeemItem(id) => self.redeemable.redeem_item(id),
            },
            ExecuteMsg::Sellable(smsg) => match smsg {
                SellableExecuteMsg::List { listings } => self.sellable_token.list(
                    &self.ownable,
                    &info.sender,
                    listings,
                ),
                SellableExecuteMsg::Buy => self.sellable_token.buy(
                    &mut self.seat_token,
                    &self.ownable.owner,
                    &info.sender,
                    &info.funds,
                    &env.native_denom,
                ),
            },
            ExecuteMsg::Sales(smsg) => match smsg {
                SalesExecuteMsg::CreatePrimarySale { total_supply, start_time, end_time, price } => self
                    .sales.create_primary_sale(
                    &self.ownable,
                    &info.sender,
                    total_supply,
                    start_time,
                    end_time,
                    price,
                    env.block_time,
                ),
                SalesExecuteMsg::BuyItem(mm) => self.sales.buy_item(
                    &mut self.seat_token,
                    &info.funds,
                    mm,
                    env.block_time,
                ),
                SalesExecuteMsg::HaltSale => self.sales.halt_sale(&self.ownable, &info.sender),
            },
        }
    }

    /// Answers one read-only query; no state change and no effects.
    pub fn query(&self, env: &Env, msg: QueryMsg) -> (r: Result<QueryResp, ContractError>)
        requires
            self.wf(),
        ensures
            msg matches QueryMsg::Ownable(OwnableQueryMsg::IsOwner(a)) ==> (r matches Ok(
                QueryResp::IsOwner(b),
            ) && b == (a@ == self.ownable.owner@)),
            msg matches QueryMsg::Metadata(MetadataQueryMsg::GetMetadata) ==> ({
                &&& spec_get_metadata(self.metadata) matches Some(rec) ==> (r matches Ok(
                    QueryResp::Metadata(out),
                ) && same_seat_metadata(out, rec))
                &&& spec_get_metadata(self.metadata) is None ==> (r matches Err(e) && e
                    == ContractError::NotFound)
            }),
            msg matches QueryMsg::SeatToken(TokenQueryMsg::NumTokens) ==> (r matches Ok(
                QueryResp::NumTokens(n),
            ) && n == self.seat_token.entries@.len()),
            msg matches QueryMsg::SeatToken(TokenQueryMsg::OwnerOf { token_id }) ==> ({
                &&& has_token(self.seat_token.entries@, token_id@) ==> (r matches Ok(
                    QueryResp::OwnerOf(o),
                ) && o@ == token_at(self.seat_token.entries@, token_id@).owner@)
                &&& !has_token(self.seat_token.entries@, token_id@) ==> (r matches Err(e) && e
                    == ContractError::NotFound)
            }),
            msg matches QueryMsg::SeatToken(TokenQueryMsg::Tokens { owner, start_after, limit })
                ==> (r matches Ok(QueryResp::OwnerTokens(ids)) && ids.deep_view() == take_up_to(
                spec_tokens_of(self.seat_token.entries@, owner@, spec_cursor(start_after)),
                spec_page_limit(limit),
            )),
            msg matches QueryMsg::Redeemable(RedeemableQueryMsg::IsRedeemed(id)) ==> (r matches Ok(
                QueryResp::IsRedeemed(b),
            ) && b == has_redeemed(self.redeemable.redeemed@, id@)),
            msg matches QueryMsg::Sellable(SellableQueryMsg::ListedTokens { start_after, limit })
                ==> (r matches Ok(QueryResp::ListedTokens(ls))
                && ls@ == crate::sellable::listings_up_to(
                crate::sellable::spec_listed(
                    self.sellable_token.listings@,
                    spec_cursor(start_after),
                ),
                spec_page_limit(limit),
            )),
            msg matches QueryMsg::Sales(SalesQueryMsg::PrimarySales) ==> (r matches Ok(
                QueryResp::PrimarySales(hs),
            ) && hs@.len() == self.sales.history@.len() && forall|k: int|
                0 <= k < hs@.len() ==> same_sale(hs@[k], self.sales.history@[k])),
            msg matches QueryMsg::Sales(SalesQueryMsg::ActivePrimarySale) ==> ({
                &&& has_active(self.sales.history@, env.block_time) ==> (r matches Ok(
                    QueryResp::ActivePrimarySale(Some(s)),
                ) && same_sale(s, self.sales.history@.last()))
                &&& !has_active(self.sales.history@, env.block_time) ==> (r matches Ok(
                    QueryResp::ActivePrimarySale(a),
                ) && a is None)
            }),
            msg is AllSeats ==> (r matches Ok(QueryResp::AllSeats(rows)) && rows@.len()
                == self.seat_token.entries@.len() && forall|k: int|
                0 <= k < rows@.len() ==> seat_info_matches(
                    rows@[k],
                    self.seat_token.entries@[k],
                    self.sellable_token.listings@,
                )),
    {
        match msg {
            QueryMsg::Ownable(omsg) => Ok(QueryResp::IsOwner(self.ownable.query(&omsg))),
            QueryMsg::Metadata(_mmsg) => {
                let rec = self.metadata.get_metadata()?;
                Ok(QueryResp::Metadata(rec.clone()))
            },
            QueryMsg::SeatToken(tmsg) => match tmsg {
                TokenQueryMsg::NumTokens => Ok(QueryResp::NumTokens(self.seat_token.num_tokens())),
                TokenQueryMsg::OwnerOf { token_id } => {
                    let owner = self.seat_token.owner_of(&token_id)?;
                    Ok(QueryResp::OwnerOf(owner))
                },
                TokenQueryMsg::Tokens { owner, start_after, limit } => Ok(
                    QueryResp::OwnerTokens(
                        self.seat_token.tokens_by_owner(&owner, start_after, limit),
                    ),
                ),
            },
            QueryMsg::Redeemable(rmsg) => Ok(QueryResp::IsRedeemed(self.redeemable.query(&rmsg))),
            QueryMsg::Sellable(smsg) => match smsg {
                SellableQueryMsg::ListedTokens { start_after, limit } => Ok(
                    QueryResp::ListedTokens(
                        self.sellable_token.listed_tokens(start_after, limit),
                    ),
                ),
            },
            QueryMsg::Sales(smsg) => match smsg {
                SalesQueryMsg::PrimarySales => {
                    let history = self.sales.primary_sales();
                    let mut out: Vec<PrimarySale> = Vec::new();
                    let mut i: usize = 0;
                    while i < history.len()
                        invariant
                            i <= history@.len(),
                            out@.len() == i,
                            forall|k: int| 0 <= k < i ==> same_sale(out@[k], history@[k]),
                        decreases history@.len() - i,
                    {
                        out.push(history[i].clone());
                        i = i + 1;
                    }
                    Ok(QueryResp::PrimarySales(out))
                },
                SalesQueryMsg::ActivePrimarySale => {
                    let active = self.sales.active_primary_sale(env.block_time);
                    match active {
                        Some(sale) => Ok(QueryResp::ActivePrimarySale(Some(sale.clone()))),
                        None => Ok(QueryResp::ActivePrimarySale(None)),
                    }
                },
            },
            QueryMsg::AllSeats => Ok(QueryResp::AllSeats(self.get_all_seats())),
        }
    }

    /// The seat roster: every token joined with its listing price, ascending
    /// by token id.
    pub fn get_all_seats(&self) -> (r: Vec<SeatInfo>)
        requires
            self.wf(),
        ensures
            r@.len() == self.seat_token.entries@.len(),
            forall|k: int|
                0 <= k < r@.len() ==> seat_info_matches(
                    r@[k],
                    self.seat_token.entries@[k],
                    self.sellable_token.listings@,
                ),
    {
        let mut out: Vec<SeatInfo> = Vec::new();
        let mut i: usize = 0;
        while i < self.seat_token.entries.len()
            invariant
                self.wf(),
                i <= self.seat_token.entries@.len(),
                out@.len() == i,
                forall|k: int|
                    0 <= k < i ==> seat_info_matches(
                        out@[k],
                        self.seat_token.entries@[k],
                        self.sellable_token.listings@,
                    ),
            decreases self.seat_token.entries@.len() - i,
        {
            let entry = &self.seat_token.entries[i];
            let listed_price = self.sellable_token.price_of(&entry.token_id);
            out.push(
                SeatInfo {
                    token_id: entry.token_id.clone(),
                    listed_price,
                    owner: entry.owner.clone(),
                    approvals: clone_string_vec(&entry.approvals),
                    token_uri: clone_opt_string(&entry.token_uri),
                    extension: entry.extension.clone(),
                },
            );
            i = i + 1;
        }
        out
    }

    /// Rewrites the stored owner and bumps the stored version; permitted
    /// only from the same contract identity and a strictly older stored
    /// version, and changes nothing otherwise.
    pub fn migrate(&mut self, msg: MigrateMsg) -> (r: Result<Response, ContractError>)
        ensures
            old(self).version.contract@ != seat_identity() ==> (r matches Err(e) && e
                == ContractError::InvalidState),
            old(self).version.contract@ == seat_identity() && !semver_lt(
                old(self).version.version,
                spec_running_version(),
            ) ==> (r matches Err(e) && e == ContractError::InvalidState),
            old(self).version.contract@ == seat_identity() && semver_lt(
                old(self).version.version,
                spec_running_version(),
            ) && !valid_addr(msg.owner@) ==> (r matches Err(e) && e == ContractError::Validation),
            r is Ok <==> old(self).version.contract@ == seat_identity() && semver_lt(
                old(self).version.version,
                spec_running_version(),
            ) && valid_addr(msg.owner@),
            r is Err ==> *final(self) == *old(self),
            r matches Ok(resp) ==> empty_effects(resp),
            r is Ok ==> final(self).ownable.owner == msg.owner && final(self).version.version
                == spec_running_version() && final(self).version.contract@ == seat_identity(),
            r is Ok ==> final(self).metadata == old(self).metadata,
            r is Ok ==> final(self).seat_token == old(self).seat_token,
            r is Ok ==> final(self).redeemable == old(self).redeemable,
            r is Ok ==> final(self).sellable_token == old(self).sellable_token,
            r is Ok ==> final(self).sales == old(self).sales,
            r is Ok ==> final(self).hub_contract == old(self).hub_contract,
            old(self).wf() ==> final(self).wf(),
    {
        let expected: String = "crates.io:seat".to_owned();
        if self.version.contract != expected {
            return Err(ContractError::InvalidState);
        }
        let running = SemVer { major: 0, minor: 1, patch: 0 };
        if !self.version.version.precedes(&running) {
            return Err(ContractError::InvalidState);
        }
        if !addr_is_valid_string(&msg.owner) {
            return Err(ContractError::Validation);
        }
        self.ownable.owner = msg.owner;
        self.version = VersionInfo { contract: expected, version: running };
        Ok(Response::new())
    }
}

/// One roster row matches its ledger entry: same token data, and the listing
/// price exactly when the token is listed.
pub open spec fn seat_info_matches(row: SeatInfo, entry: TokenInfo, book: Seq<Listing>) -> bool {
    &&& row.token_id == entry.token_id
    &&& row.owner == entry.owner
    &&& row.approvals@ == entry.approvals@
    &&& row.token_uri == entry.token_uri
    &&& row.extension == entry.extension
    &&& (has_listing(book, entry.token_id@) ==> row.listed_price == Some(
        price_at(book, entry.token_id@),
    ))
    &&& (!has_listing(book, entry.token_id@) ==> row.listed_price is None)
}

} // verus!
