//! The redemption module: token ids marked permanently redeemed.
//!
//! Membership is monotonic: an id enters the set once and is never removed.
//! Redeeming an already redeemed id fails with a definite error rather than
//! silently succeeding.  Redemption is a usage-state flag consulted by
//! callers; it does not itself lock a token out of listing or transfer.
use vstd::prelude::*;

use crate::error::ContractError;
use crate::response::{empty_effects, Response};

verus! {

/// Some stored id equals `id`.
pub open spec fn has_redeemed(s: Seq<String>, id: Seq<char>) -> bool {
    exists|i: int| 0 <= i < s.len() && s[i]@ == id
}

/// Some id among the first `n` equals `id`.
pub open spec fn has_item_before(items: Seq<String>, n: int, id: Seq<char>) -> bool {
    exists|k: int| 0 <= k < n && items[k]@ == id
}

/// The instantiate sub-payload of the redemption module.
#[derive(Debug, PartialEq, Eq)]
pub struct RedeemableInit {
    pub locked_items: Vec<String>,
}

/// Execute messages routed to the redemption module.
#[derive(Debug, PartialEq, Eq)]
pub enum RedeemableExecuteMsg {
    RedeemItem(String),
}

/// Query messages routed to the redemption module.
#[derive(Debug, PartialEq, Eq)]
pub enum RedeemableQueryMsg {
    IsRedeemed(String),
}

/// The set of redeemed ids, stored without duplicates.
#[derive(Debug, PartialEq, Eq)]
pub struct Redeemable {
    pub redeemed: Vec<String>,
}

impl Redeemable {
    /// No id is stored twice.
    pub open spec fn wf(&self) -> bool {
        forall|i: int, j: int|
            0 <= i < j < self.redeemed@.len() ==> self.redeemed@[i]@ != self.redeemed@[j]@
    }

    /// Creates the set at instantiation, from the initially locked ids.
    pub fn instantiate(init: RedeemableInit) -> (r: (Redeemable, Response))
        ensures
            r.0.wf(),
            forall|id: Seq<char>|
                has_redeemed(r.0.redeemed@, id) == has_redeemed(init.locked_items@, id),
            empty_effects(r.1),
    {
        let mut set = Redeemable { redeemed: Vec::new() };
        let items = init.locked_items;
        let mut i: usize = 0;
        while i < items.len()
            invariant
                i <= items@.len(),
                set.wf(),
                forall|id: Seq<char>|
                    has_redeemed(set.redeemed@, id) == has_item_before(items@, i as int, id),
            decreases items@.len() - i,
        {
            let ghost before: Seq<String> = set.redeemed@;
            let cur = items[i].clone();
            let absent = !set.is_redeemed(&cur);
            if absent {
                set.redeemed.push(cur);
            }
            proof {
                if absent {
                    assert(set.redeemed@.last()@ == items@[i as int]@);
                    assert forall|a: int, b: int|
                        0 <= a < b < set.redeemed@.len() implies set.redeemed@[a]@
                        != set.redeemed@[b]@ by {
                        if b == before.len() {
                            assert(set.redeemed@[a] == before[a]);
                            assert(!has_redeemed(before, items@[i as int]@));
                        }
                    }
                }
                assert forall|id: Seq<char>|
                    has_redeemed(set.redeemed@, id) == has_item_before(items@, i + 1, id) by {
                    if has_item_before(items@, i + 1, id) {
                        let k = choose|k: int| 0 <= k < i + 1 && items@[k]@ == id;
                        if k < i {
                            assert(has_item_before(items@, i as int, id));
                            let w = choose|w: int| 0 <= w < before.len() && before[w]@ == id;
                            assert(set.redeemed@[w]@ == id);
                        } else {
                            if has_redeemed(before, id) {
                                let w = choose|w: int| 0 <= w < before.len() && before[w]@ == id;
                                assert(set.redeemed@[w]@ == id);
                            } else {
                                assert(set.redeemed@.last()@ == id);
                            }
                        }
                        assert(has_redeemed(set.redeemed@, id));
                    }
                    if has_redeemed(set.redeemed@, id) {
                        let w = choose|w: int| 0 <= w < set.redeemed@.len() && set.redeemed@[w]@ == id;
                        if w < before.len() {
                            assert(before[w]@ == id);
                            assert(has_item_before(items@, i as int, id));
                            let k = choose|k: int| 0 <= k < i && items@[k]@ == id;
                            assert(has_item_before(items@, i + 1, id));
                        } else {
                            assert(items@[i as int]@ == id);
                            assert(has_item_before(items@, i + 1, id));
                        }
                    }
                }
            }
            i = i + 1;
        }
        proof {
            assert forall|id: Seq<char>|
                has_item_before(items@, i as int, id) == has_redeemed(items@, id) by {
                if has_item_before(items@, i as int, id) {
                    let k = choose|k: int| 0 <= k < i && items@[k]@ == id;
                    assert(has_redeemed(items@, id));
                }
                if has_redeemed(items@, id) {
                    let w = choose|w: int| 0 <= w < items@.len() && items@[w]@ == id;
                    assert(has_item_before(items@, i as int, id));
                }
            }
        }
        (set, Response::new())
    }

    /// Whether `token_id` has been redeemed.
    pub fn is_redeemed(&self, token_id: &String) -> (r: bool)
        ensures
            r == has_redeemed(self.redeemed@, token_id@),
    {
        let mut i: usize = 0;
        while i < self.redeemed.len()
            invariant
                i <= self.redeemed@.len(),
                forall|k: int| 0 <= k < i ==> self.redeemed@[k]@ != token_id@,
            decreases self.redeemed@.len() - i,
        {
            if self.redeemed[i] == *token_id {
                return true;
            }
            i = i + 1;
        }
        false
    }

    /// Marks `token_id` redeemed; fails if it already is, changing nothing.
    pub fn redeem_item(&mut self, token_id: String) -> (r: Result<Response, ContractError>)
        requires
            old(self).wf(),
        ensures
            final(self).wf(),
            r is Ok <==> !has_redeemed(old(self).redeemed@, token_id@),
            r matches Err(e) ==> e == ContractError::AlreadyExists && *final(self) == *old(self),
            r matches Ok(resp) ==> empty_effects(resp),
            r is Ok ==> final(self).redeemed@ == old(self).redeemed@.push(token_id),
            r is Ok ==> has_redeemed(final(self).redeemed@, token_id@),
            forall|id2: Seq<char>|
                has_redeemed(old(self).redeemed@, id2) ==> has_redeemed(
                    final(self).redeemed@,
                    id2,
                ),
    {
        if self.is_redeemed(&token_id) {
            return Err(ContractError::AlreadyExists);
        }
        let ghost before: Seq<String> = self.redeemed@;
        self.redeemed.push(token_id);
        proof {
            assert(self.redeemed@.last()@ == token_id@);
            assert forall|id2: Seq<char>| has_redeemed(before, id2) implies has_redeemed(
                self.redeemed@,
                id2,
            ) by {
                let w = choose|w: int| 0 <= w < before.len() && before[w]@ == id2;
                assert(self.redeemed@[w]@ == id2);
            }
        }
        Ok(Response::new())
    }

    /// Answers a redemption query.
    pub fn query(&self, msg: &RedeemableQueryMsg) -> (r: bool)
        ensures
            msg matches RedeemableQueryMsg::IsRedeemed(id) ==> r == has_redeemed(
                self.redeemed@,
                id@,
            ),
    {
        match msg {
            RedeemableQueryMsg::IsRedeemed(id) => self.is_redeemed(id),
        }
    }
}

} // verus!
