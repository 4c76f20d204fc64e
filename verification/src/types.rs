//! Plain values exchanged with the host ledger runtime.
//!
//! The host hands every call an environment (block time, the contract's own
//! address, the chain's native fee denomination) and a message info (caller
//! address, attached payment).  Amounts are denominated coins; a payment is a
//! list of coins whose denominations the host guarantees to be distinct.
use vstd::prelude::*;

verus! {

/// An amount of one denomination.
#[derive(Debug, PartialEq, Eq)]
pub struct Coin {
    pub denom: String,
    pub amount: u64,
}

impl Clone for Coin {
    fn clone(&self) -> (res: Self)
        ensures
            res == *self,
    {
        Coin { denom: self.denom.clone(), amount: self.amount }
    }
}

/// What the host supplies about the block being executed.
#[derive(Debug)]
pub struct Env {
    /// Block time in seconds; the only clock the core ever sees.
    pub block_time: u64,
    /// The executing contract's own address.
    pub contract_address: String,
    /// The chain's native denomination, in which secondary listings are priced.
    pub native_denom: String,
}

/// Who calls, and what payment the call carries.
#[derive(Debug)]
pub struct MessageInfo {
    pub sender: String,
    pub funds: Vec<Coin>,
}

/// The amount attached under `denom`: the first matching coin, or zero.
/// The host delivers payments with at most one coin per denomination, so the
/// first match is the only one.
pub open spec fn spec_paid(funds: Seq<Coin>, denom: Seq<char>) -> int
    decreases funds.len(),
{
    if funds.len() == 0 {
        0
    } else if funds[0].denom@ == denom {
        funds[0].amount as int
    } else {
        spec_paid(funds.skip(1), denom)
    }
}

/// The payment covers every coin of `price`.
pub open spec fn spec_covers(funds: Seq<Coin>, price: Seq<Coin>) -> bool {
    forall|i: int|
        0 <= i < price.len() ==> spec_paid(funds, price[i].denom@) >= price[i].amount as int
}

/// Copies a list of coins, preserving it value for value.
pub fn clone_coins(v: &Vec<Coin>) -> (r: Vec<Coin>)
    ensures
        r@ == v@,
{
    let mut out: Vec<Coin> = Vec::new();
    let mut i: usize = 0;
    while i < v.len()
        invariant
            i <= v@.len(),
            out@.len() == i,
            forall|k: int| 0 <= k < i ==> out@[k] == v@[k],
        decreases v@.len() - i,
    {
        out.push(v[i].clone());
        i = i + 1;
    }
    proof {
        assert(out@ =~= v@);
    }
    out
}

/// An address the core accepts: non-empty and at most 90 characters, the
/// shape check the host's address format allows us to make locally.
pub open spec fn valid_addr(s: Seq<char>) -> bool {
    1 <= s.len() <= 90
}

/// Checks the local address-format rule.
pub fn addr_is_valid(s: &str) -> (r: bool)
    ensures
        r == valid_addr(s@),
{
    let n: usize = s.unicode_len();
    1 <= n && n <= 90
}

/// Looks up the amount attached under `denom`.
pub fn paid_amount(funds: &Vec<Coin>, denom: &String) -> (r: u64)
    ensures
        r as int == spec_paid(funds@, denom@),
{
    let mut i: usize = 0;
    proof {
        assert(funds@.skip(0) =~= funds@);
    }
    while i < funds.len()
        invariant
            i <= funds@.len(),
            spec_paid(funds@, denom@) == spec_paid(funds@.skip(i as int), denom@),
        decreases funds@.len() - i,
    {
        proof {
            assert(funds@.skip(i as int)[0] == funds@[i as int]);
        }
        if funds[i].denom == *denom {
            return funds[i].amount;
        }
        proof {
            assert(funds@.skip(i as int).skip(1) =~= funds@.skip(i + 1));
        }
        i = i + 1;
    }
    proof {
        assert(funds@.skip(i as int).len() == 0);
    }
    0
}

/// Checks that the attached payment covers every coin of `price`.
pub fn covers_price(funds: &Vec<Coin>, price: &Vec<Coin>) -> (r: bool)
    ensures
        r == spec_covers(funds@, price@),
{
    let mut i: usize = 0;
    while i < price.len()
        invariant
            i <= price@.len(),
            forall|k: int|
                0 <= k < i ==> spec_paid(funds@, price@[k].denom@) >= price@[k].amount as int,
        decreases price@.len() - i,
    {
        let paid = paid_amount(funds, &price[i].denom);
        if paid < price[i].amount {
            return false;
        }
        i = i + 1;
    }
    true
}

} // verus!
