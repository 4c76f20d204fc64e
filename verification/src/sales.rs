//! The primary sale module: time-windowed, quantity-capped minting sales.
//!
//! A sale's lifecycle stage is never stored: every query recomputes it from
//! the stored fields and the block time the host supplies, so there is no
//! second source of truth to drift.  Sale records accumulate in an
//! append-only history; the most recently created one is the current sale.
//! Reaching the supply cap marks the record disabled in the same atomic step,
//! so later queries see a terminal state without recomputation ambiguity.
use vstd::prelude::*;

use crate::error::ContractError;
use crate::ownable::Ownable;
use crate::response::{empty_effects, Response};
use crate::token::{has_token, mint_post, MintMsg, Tokens};
use crate::types::{clone_coins, covers_price, spec_covers, Coin};

verus! {

/// One primary sale record.
#[derive(Debug, PartialEq, Eq)]
pub struct PrimarySale {
    pub total_supply: u64,
    /// Window bounds, in seconds of block time, inclusive on both ends.
    pub start_time: u64,
    pub end_time: u64,
    /// The exact asking price: every listed coin must be covered.
    pub price: Vec<Coin>,
    pub tokens_minted: u64,
    /// Set by an explicit halt, or automatically on exhaustion.
    pub disabled: bool,
}

/// `a` carries the same sale data as `b`, field for field (coin lists
/// compared by their values).
pub open spec fn same_sale(a: PrimarySale, b: PrimarySale) -> bool {
    &&& a.total_supply == b.total_supply
    &&& a.start_time == b.start_time
    &&& a.end_time == b.end_time
    &&& a.price@ == b.price@
    &&& a.tokens_minted == b.tokens_minted
    &&& a.disabled == b.disabled
}

impl Clone for PrimarySale {
    fn clone(&self) -> (res: Self)
        ensures
            same_sale(res, *self),
    {
        PrimarySale {
            total_supply: self.total_supply,
            start_time: self.start_time,
            end_time: self.end_time,
            price: clone_coins(&self.price),
            tokens_minted: self.tokens_minted,
            disabled: self.disabled,
        }
    }
}

/// A sale's lifecycle stage, always derived, never stored.
#[derive(Clone, Copy, Debug, PartialEq, Eq, Structural)]
pub enum SaleStatus {
    Scheduled,
    Active,
    Exhausted,
    Ended,
    Halted,
}

/// The instantiate sub-payload of the primary sale module.
#[derive(Debug, PartialEq, Eq)]
pub struct SalesInit {}

/// Execute messages routed to the primary sale module.
#[derive(Debug, PartialEq, Eq)]
pub enum SalesExecuteMsg {
    /// Open a new sale; owner-gated.
    CreatePrimarySale { total_supply: u64, start_time: u64, end_time: u64, price: Vec<Coin> },
    /// Mint one token from the current sale against the attached payment.
    BuyItem(MintMsg),
    /// Disable the current sale, whatever its stage; owner-gated.
    HaltSale,
}

/// Query messages routed to the primary sale module.
#[derive(Debug, PartialEq, Eq)]
pub enum SalesQueryMsg {
    PrimarySales,
    ActivePrimarySale,
}

/// The effective status of a sale at block time `now`.  Exhaustion (supply
/// reached) overrides everything; a disabled record is halted; otherwise the
/// time window decides, inclusive on both ends.
pub open spec fn spec_status(s: PrimarySale, now: u64) -> SaleStatus {
    if s.tokens_minted >= s.total_supply {
        SaleStatus::Exhausted
    } else if s.disabled {
        SaleStatus::Halted
    } else if now < s.start_time {
        SaleStatus::Scheduled
    } else if now <= s.end_time {
        SaleStatus::Active
    } else {
        SaleStatus::Ended
    }
}

/// The current (most recently created) sale exists and is active at `now`.
pub open spec fn has_active(h: Seq<PrimarySale>, now: u64) -> bool {
    h.len() > 0 && spec_status(h.last(), now) == SaleStatus::Active
}

/// A sale record after one successful purchase: one more minted, and
/// disabled when that purchase reached the supply cap.
pub open spec fn spec_bump(s: PrimarySale) -> PrimarySale {
    PrimarySale {
        total_supply: s.total_supply,
        start_time: s.start_time,
        end_time: s.end_time,
        price: s.price,
        tokens_minted: (s.tokens_minted + 1) as u64,
        disabled: s.disabled || s.tokens_minted + 1 >= s.total_supply,
    }
}

/// A sale record after an explicit halt.
pub open spec fn spec_halt(s: PrimarySale) -> PrimarySale {
    PrimarySale {
        total_supply: s.total_supply,
        start_time: s.start_time,
        end_time: s.end_time,
        price: s.price,
        tokens_minted: s.tokens_minted,
        disabled: true,
    }
}

/// A disabled sale is never active, at any block time: its status is either
/// `Exhausted` or `Halted`.
pub proof fn lemma_disabled_never_active(s: PrimarySale)
    requires
        s.disabled,
    ensures
        forall|t: u64| spec_status(s, t) != SaleStatus::Active,
{
}

/// Halting the current sale makes the active sale query come back empty at
/// once, at every block time, regardless of remaining supply or time window.
pub proof fn lemma_halt_deactivates(h0: Seq<PrimarySale>, h1: Seq<PrimarySale>)
    requires
        h0.len() > 0,
        h1 == h0.update(h0.len() - 1, spec_halt(h0.last())),
    ensures
        forall|t: u64| !has_active(h1, t),
{
    assert(h1.last() == spec_halt(h0.last()));
    lemma_disabled_never_active(h1.last());
}

/// Selling the last item of a sale exhausts it: after a purchase that
/// reaches the supply cap, the record is disabled, its status is `Exhausted`
/// at every block time, and the active sale query comes back empty.
pub proof fn lemma_exhaustion(s: PrimarySale, now: u64)
    requires
        spec_status(s, now) == SaleStatus::Active,
        s.total_supply == s.tokens_minted + 1,
    ensures
        spec_bump(s).disabled,
        forall|t: u64| spec_status(spec_bump(s), t) == SaleStatus::Exhausted,
        forall|t: u64, h: Seq<PrimarySale>|
            h.len() > 0 && h.last() == spec_bump(s) ==> !has_active(h, t),
{
}

/// The primary sale module's state: the append-only sale history.
#[derive(Debug, PartialEq, Eq)]
pub struct Sales {
    pub history: Vec<PrimarySale>,
}

impl Sales {
    /// The module's invariant: no record's minted count ever exceeds its
    /// total supply.
    pub open spec fn wf(&self) -> bool {
        forall|i: int|
            0 <= i < self.history@.len() ==> #[trigger] self.history@[i].tokens_minted
                <= self.history@[i].total_supply
    }

    /// Creates an empty sale history at instantiation.
    pub fn instantiate(init: SalesInit) -> (r: (Sales, Response))
        ensures
            r.0.history@.len() == 0,
            r.0.wf(),
            empty_effects(r.1),
    {
        (Sales { history: Vec::new() }, Response::new())
    }

    /// The effective status of `sale` at block time `now`.
    pub fn effective_status(sale: &PrimarySale, now: u64) -> (r: SaleStatus)
        ensures
            r == spec_status(*sale, now),
    {
        if sale.tokens_minted >= sale.total_supply {
            SaleStatus::Exhausted
        } else if sale.disabled {
            SaleStatus::Halted
        } else if now < sale.start_time {
            SaleStatus::Scheduled
        } else if now <= sale.end_time {
            SaleStatus::Active
        } else {
            SaleStatus::Ended
        }
    }

    /// Opens a new sale; owner-gated, and refused while the current sale is
    /// still active.  On success exactly one record is appended; on failure
    /// the history is unchanged.
    pub fn create_primary_sale(
        &mut self,
        ownable: &Ownable,
        caller: &String,
        total_supply: u64,
        start_time: u64,
        end_time: u64,
        price: Vec<Coin>,
        now: u64,
    ) -> (r: Result<Response, ContractError>)
        requires
            old(self).wf(),
        ensures
            final(self).wf(),
            caller@ != ownable.owner@ ==> (r matches Err(e) && e == ContractError::Unauthorized
                && *final(self) == *old(self)),
            caller@ == ownable.owner@ && has_active(old(self).history@, now) ==> (r matches Err(e)
                && e == ContractError::InvalidState && *final(self) == *old(self)),
            r is Ok <==> caller@ == ownable.owner@ && !has_active(old(self).history@, now),
            r matches Ok(resp) ==> empty_effects(resp),
            r is Ok ==> final(self).history@ == old(self).history@.push(
                (PrimarySale {
                    total_supply,
                    start_time,
                    end_time,
                    price,
                    tokens_minted: 0,
                    disabled: false,
                }),
            ),
    {
        ownable.require_owner(caller)?;
        if self.history.len() > 0 {
            let last = self.history.len() - 1;
            let status = Self::effective_status(&self.history[last], now);
            if status == SaleStatus::Active {
                return Err(ContractError::InvalidState);
            }
        }
        self.history.push(
            PrimarySale { total_supply, start_time, end_time, price, tokens_minted: 0, disabled: false },
        );
        Ok(Response::new())
    }

    /// Mints one token from the current sale.  Fails with `InvalidState`
    /// when no sale is active at `now`, with `InsufficientFunds` when the
    /// attached payment does not cover the sale's price, and propagates the
    /// ledger's error on a duplicate id or malformed owner; nothing changes
    /// on failure.  On success the minted count rises by one and the record
    /// is disabled in the same step when the cap is reached.
    ///
    /// A payment covering the price is accepted; overpaying is not an error.
    /// The error taxonomy defines only a payment below the required price as
    /// a payment failure, and the secondary-market purchase accepts
    /// exact-match or greater in the same way.
    pub fn buy_item(
        &mut self,
        tokens: &mut Tokens,
        funds: &Vec<Coin>,
        mint: MintMsg,
        now: u64,
    ) -> (r: Result<Response, ContractError>)
        requires
            old(self).wf(),
            old(tokens).wf(),
        ensures
            final(self).wf(),
            final(tokens).wf(),
            !has_active(old(self).history@, now) ==> (r matches Err(e) && e
                == ContractError::InvalidState),
            has_active(old(self).history@, now) && !spec_covers(
                funds@,
                old(self).history@.last().price@,
            ) ==> (r matches Err(e) && e == ContractError::InsufficientFunds),
            has_active(old(self).history@, now) && spec_covers(
                funds@,
                old(self).history@.last().price@,
            ) && has_token(old(tokens).entries@, mint.token_id@) ==> (r matches Err(e) && e
                == ContractError::AlreadyExists),
            has_active(old(self).history@, now) && spec_covers(
                funds@,
                old(self).history@.last().price@,
            ) && !has_token(old(tokens).entries@, mint.token_id@) && !crate::types::valid_addr(
                mint.owner@,
            ) ==> (r matches Err(e) && e == ContractError::Validation),
            r is Ok <==> has_active(old(self).history@, now) && spec_covers(
                funds@,
                old(self).history@.last().price@,
            ) && !has_token(old(tokens).entries@, mint.token_id@) && crate::types::valid_addr(
                mint.owner@,
            ),
            r is Err ==> *final(self) == *old(self) && *final(tokens) == *old(tokens),
            r matches Ok(resp) ==> empty_effects(resp),
            r is Ok ==> final(self).history@ == old(self).history@.update(
                old(self).history@.len() - 1,
                spec_bump(old(self).history@.last()),
            ),
            r is Ok ==> mint_post(old(tokens).entries@, final(tokens).entries@, mint),
            final(tokens).name == old(tokens).name && final(tokens).symbol == old(tokens).symbol,
            final(tokens).minter == old(tokens).minter,
    {
        if self.history.len() == 0 {
            return Err(ContractError::InvalidState);
        }
        let last = self.history.len() - 1;
        let status = Self::effective_status(&self.history[last], now);
        if status != SaleStatus::Active {
            return Err(ContractError::InvalidState);
        }
        if !covers_price(funds, &self.history[last].price) {
            return Err(ContractError::InsufficientFunds);
        }
        let mint_result = tokens.mint(mint);
        let resp = match mint_result {
            Ok(resp) => resp,
            Err(e) => {
                return Err(e);
            },
        };
        let ghost h0: Seq<PrimarySale> = self.history@;
        let sale = self.history.remove(last);
        proof {
            assert(sale.tokens_minted < sale.total_supply);
        }
        let new_minted = sale.tokens_minted + 1;
        let bumped = PrimarySale {
            total_supply: sale.total_supply,
            start_time: sale.start_time,
            end_time: sale.end_time,
            price: sale.price,
            tokens_minted: new_minted,
            disabled: sale.disabled || new_minted >= sale.total_supply,
        };
        self.history.push(bumped);
        proof {
            assert(self.history@ =~= h0.update(h0.len() - 1, spec_bump(h0.last())));
        }
        Ok(resp)
    }

    /// Disables the current sale, whatever its stage; owner-gated.  Usable
    /// even before the sale turns active, to cancel a scheduled sale.
    pub fn halt_sale(&mut self, ownable: &Ownable, caller: &String) -> (r: Result<
        Response,
        ContractError,
    >)
        requires
            old(self).wf(),
        ensures
            final(self).wf(),
            caller@ != ownable.owner@ ==> (r matches Err(e) && e == ContractError::Unauthorized
                && *final(self) == *old(self)),
            caller@ == ownable.owner@ && old(self).history@.len() == 0 ==> (r matches Err(e) && e
                == ContractError::NotFound && *final(self) == *old(self)),
            r is Ok <==> caller@ == ownable.owner@ && old(self).history@.len() > 0,
            r matches Ok(resp) ==> empty_effects(resp),
            r is Ok ==> final(self).history@ == old(self).history@.update(
                old(self).history@.len() - 1,
                spec_halt(old(self).history@.last()),
            ),
            r is Ok ==> forall|t: u64| !has_active(final(self).history@, t),
    {
        ownable.require_owner(caller)?;
        if self.history.len() == 0 {
            return Err(ContractError::NotFound);
        }
        let ghost h0: Seq<PrimarySale> = self.history@;
        let last = self.history.len() - 1;
        let sale = self.history.remove(last);
        let halted = PrimarySale {
            total_supply: sale.total_supply,
            start_time: sale.start_time,
            end_time: sale.end_time,
            price: sale.price,
            tokens_minted: sale.tokens_minted,
            disabled: true,
        };
        self.history.push(halted);
        proof {
            assert(self.history@ =~= h0.update(h0.len() - 1, spec_halt(h0.last())));
            lemma_halt_deactivates(h0, self.history@);
        }
        Ok(Response::new())
    }

    /// The current sale, only while it is active at `now`.
    pub fn active_primary_sale(&self, now: u64) -> (r: Option<&PrimarySale>)
        ensures
            has_active(self.history@, now) ==> (r matches Some(s) && *s == self.history@.last()),
            !has_active(self.history@, now) ==> r is None,
    {
        if self.history.len() == 0 {
            return None;
        }
        let last = self.history.len() - 1;
        let status = Self::effective_status(&self.history[last], now);
        if status == SaleStatus::Active {
            Some(&self.history[last])
        } else {
            None
        }
    }

    /// The whole append-only sale history.
    pub fn primary_sales(&self) -> (r: &Vec<PrimarySale>)
        ensures
            r@ == self.history@,
    {
        &self.history
    }
}

} // verus!
