//! The listing module: fixed asking prices for minted tokens.
//!
//! Listing is owner-gated and bulk: each submitted entry is inserted or
//! overwritten.  A buyer attaches payment and names no token: the purchase
//! resolves to the lowest-priced listing (first in id order among equals),
//! and succeeds when the attached payment in the chain's native denomination
//! covers that price.  On success the listing entry is removed, the token
//! moves to the buyer, and the payment is forwarded to the contract owner.
//! Prices are in the chain's native denomination, supplied by the host.
use vstd::prelude::*;

use crate::error::ContractError;
use crate::ownable::Ownable;
use crate::response::{empty_effects, OutboundMsg, Response};
use crate::strcmp::{
    lemma_str_lt_connected, lemma_str_lt_irreflexive, lemma_str_lt_transitive, str_lt, str_lt_exec,
};
use crate::token::{spec_cursor, spec_page_limit, transfer_post, Tokens};
use crate::types::{clone_coins, spec_paid, Coin};

verus! {

/// One listing: a token id and its asking price.
#[derive(Debug, PartialEq, Eq)]
pub struct Listing {
    pub token_id: String,
    pub price: u64,
}

impl Clone for Listing {
    fn clone(&self) -> (res: Self)
        ensures
            res == *self,
    {
        Listing { token_id: self.token_id.clone(), price: self.price }
    }
}

/// The instantiate sub-payload of the listing module.
#[derive(Debug, PartialEq, Eq)]
pub struct SellableInit {
    pub tokens: Vec<Listing>,
}

/// Execute messages routed to the listing module.
#[derive(Debug, PartialEq, Eq)]
pub enum SellableExecuteMsg {
    /// Insert or overwrite each submitted listing; owner-gated.
    List { listings: Vec<Listing> },
    /// Buy the lowest-priced listing covered by the attached payment.
    Buy,
}

/// Query messages routed to the listing module.
#[derive(Debug, PartialEq, Eq)]
pub enum SellableQueryMsg {
    ListedTokens { start_after: Option<String>, limit: Option<usize> },
}

/// Listings stand in strictly ascending id order.
pub open spec fn listings_sorted(s: Seq<Listing>) -> bool {
    forall|i: int, j: int| 0 <= i < j < s.len() ==> str_lt(s[i].token_id@, s[j].token_id@)
}

/// Some listing carries `id`.
pub open spec fn has_listing(s: Seq<Listing>, id: Seq<char>) -> bool {
    exists|i: int| 0 <= i < s.len() && s[i].token_id@ == id
}

/// The index of the listing carrying `id` (unique while sorted).
pub open spec fn listing_index(s: Seq<Listing>, id: Seq<char>) -> int {
    choose|i: int| 0 <= i < s.len() && s[i].token_id@ == id
}

/// The listing carrying `id`.
pub open spec fn listing_at(s: Seq<Listing>, id: Seq<char>) -> Listing {
    s[listing_index(s, id)]
}

/// The asking price of the listing carrying `id`.
pub open spec fn price_at(s: Seq<Listing>, id: Seq<char>) -> u64 {
    listing_at(s, id).price
}

/// `c` is the index a purchase resolves to: a cheapest listing, and the
/// first one in id order among equally cheap ones.
pub open spec fn is_first_min(s: Seq<Listing>, c: int) -> bool {
    &&& 0 <= c < s.len()
    &&& forall|k: int| 0 <= k < s.len() ==> s[c].price <= s[k].price
    &&& forall|k: int| 0 <= k < c ==> s[k].price > s[c].price
}

/// The index a purchase resolves to.
pub open spec fn chosen_index(s: Seq<Listing>) -> int {
    choose|c: int| is_first_min(s, c)
}

/// The price a bulk `List` submission assigns to `id`: its last entry for
/// `id` wins, as with keys of a map built from the entries in order.
pub open spec fn input_price(inp: Seq<Listing>, id: Seq<char>) -> Option<u64>
    decreases inp.len(),
{
    if inp.len() == 0 {
        None
    } else if inp.last().token_id@ == id {
        Some(inp.last().price)
    } else {
        input_price(inp.drop_last(), id)
    }
}

/// In a sorted listing vector, an id determines its index.
pub proof fn lemma_sorted_listing_unique(s: Seq<Listing>)
    requires
        listings_sorted(s),
    ensures
        forall|i: int, j: int|
            0 <= i < s.len() && 0 <= j < s.len() && s[i].token_id@ == s[j].token_id@ ==> i == j,
{
    assert forall|i: int, j: int|
        0 <= i < s.len() && 0 <= j < s.len() && s[i].token_id@ == s[j].token_id@ implies i
        == j by {
        if i < j {
            assert(str_lt(s[i].token_id@, s[j].token_id@));
            lemma_str_lt_irreflexive(s[i].token_id@);
        }
        if j < i {
            assert(str_lt(s[j].token_id@, s[i].token_id@));
            lemma_str_lt_irreflexive(s[i].token_id@);
        }
    }
}

/// At most one index is the first cheapest one.
pub proof fn lemma_first_min_unique(s: Seq<Listing>, c1: int, c2: int)
    requires
        is_first_min(s, c1),
        is_first_min(s, c2),
    ensures
        c1 == c2,
{
    if c1 < c2 {
        assert(s[c1].price > s[c2].price);
        assert(s[c2].price >= s[c1].price);
    }
    if c2 < c1 {
        assert(s[c2].price > s[c1].price);
        assert(s[c1].price >= s[c2].price);
    }
}

/// The purchase of a strictly cheapest listing resolves to that listing:
/// when every other listing is pricier, the listing at `c` is the one a
/// `Buy` picks.  Together with `buy`'s contract this yields the law that
/// buying a token at exactly its listed price, while everything else costs
/// more, removes that listing and hands that token to the buyer.
pub proof fn lemma_buy_picks_cheapest(s: Seq<Listing>, c: int)
    requires
        0 <= c < s.len(),
        forall|k: int| 0 <= k < s.len() && k != c ==> s[k].price > s[c].price,
    ensures
        is_first_min(s, c),
        chosen_index(s) == c,
{
    assert(is_first_min(s, c));
    lemma_first_min_unique(s, c, chosen_index(s));
}

/// What remains after a purchase removed position `pos` from a sorted
/// listing vector: still sorted, the sold id gone, all others untouched.
proof fn lemma_remove_listing(olds: Seq<Listing>, news: Seq<Listing>, pos: int)
    requires
        listings_sorted(olds),
        0 <= pos < olds.len(),
        news == olds.remove(pos),
    ensures
        listings_sorted(news),
        news.len() == olds.len() - 1,
        !has_listing(news, olds[pos].token_id@),
        forall|id2: Seq<char>|
            id2 != olds[pos].token_id@ ==> has_listing(news, id2) == has_listing(olds, id2) && (
            has_listing(olds, id2) ==> listing_at(news, id2) == listing_at(olds, id2)),
{
    lemma_sorted_listing_unique(olds);
    assert forall|k: int| 0 <= k < news.len() implies news[k] == olds[if k < pos {
        k
    } else {
        k + 1
    }] by {}
    assert forall|i: int, j: int| 0 <= i < j < news.len() implies str_lt(
        news[i].token_id@,
        news[j].token_id@,
    ) by {}
    lemma_sorted_listing_unique(news);
    let id = olds[pos].token_id@;
    assert forall|k: int| 0 <= k < news.len() implies news[k].token_id@ != id by {
        let ko: int = if k < pos {
            k
        } else {
            k + 1
        };
        assert(news[k] == olds[ko]);
    }
    assert forall|id2: Seq<char>| id2 != id implies has_listing(news, id2) == has_listing(
        olds,
        id2,
    ) && (has_listing(olds, id2) ==> listing_at(news, id2) == listing_at(olds, id2)) by {
        if has_listing(olds, id2) {
            let w = listing_index(olds, id2);
            assert(0 <= w < olds.len() && olds[w].token_id@ == id2);
            assert(w != pos);
            let wn: int = if w < pos {
                w
            } else {
                w - 1
            };
            assert(news[wn] == olds[w]);
            assert(has_listing(news, id2));
            assert(listing_index(news, id2) == wn);
        }
        if has_listing(news, id2) {
            let w = choose|w: int| 0 <= w < news.len() && news[w].token_id@ == id2;
            let ko: int = if w < pos {
                w
            } else {
                w + 1
            };
            assert(olds[ko].token_id@ == id2);
            assert(has_listing(olds, id2));
        }
    }
}

/// Whether a listing is counted by a `ListedTokens` query with cursor
/// `start`: with a cursor, only ids strictly after it.
pub open spec fn listing_after(l: Listing, start: Option<Seq<char>>) -> bool {
    start matches Some(st) ==> str_lt(st, l.token_id@)
}

/// The listings a `ListedTokens` query would return with no page limit.
pub open spec fn spec_listed(s: Seq<Listing>, start: Option<Seq<char>>) -> Seq<Listing>
    decreases s.len(),
{
    if s.len() == 0 {
        Seq::empty()
    } else {
        spec_listed(s.drop_last(), start) + (if listing_after(s.last(), start) {
            seq![s.last()]
        } else {
            Seq::empty()
        })
    }
}

/// Everything a `ListedTokens` query returns comes from the listing book,
/// so a token removed from the book no longer appears on any page.
pub proof fn lemma_listed_from_book(s: Seq<Listing>, start: Option<Seq<char>>)
    ensures
        forall|k: int|
            0 <= k < spec_listed(s, start).len() ==> has_listing(
                s,
                #[trigger] spec_listed(s, start)[k].token_id@,
            ),
    decreases s.len(),
{
    if s.len() > 0 {
        let pre = s.drop_last();
        lemma_listed_from_book(pre, start);
        assert forall|k: int|
            0 <= k < spec_listed(s, start).len() implies has_listing(
            s,
            #[trigger] spec_listed(s, start)[k].token_id@,
        ) by {
            if k < spec_listed(pre, start).len() {
                assert(spec_listed(s, start)[k] == spec_listed(pre, start)[k]);
                let w = choose|w: int|
                    0 <= w < pre.len() && pre[w].token_id@ == spec_listed(pre, start)[k].token_id@;
                assert(s[w].token_id@ == spec_listed(s, start)[k].token_id@);
            } else {
                assert(spec_listed(s, start)[k] == s.last());
                assert(s[s.len() - 1].token_id@ == spec_listed(s, start)[k].token_id@);
            }
        }
    }
}

/// The first `n` listings, or all of them when fewer exist.
pub open spec fn listings_up_to(s: Seq<Listing>, n: int) -> Seq<Listing> {
    if s.len() <= n {
        s
    } else {
        s.take(n)
    }
}

/// The listing module's state.
#[derive(Debug, PartialEq, Eq)]
pub struct Sellable {
    pub listings: Vec<Listing>,
}

impl Sellable {
    /// The module's invariant: listings strictly ascending by id.
    pub open spec fn wf(&self) -> bool {
        listings_sorted(self.listings@)
    }

    /// Creates the listing book at instantiation, from the initial entries.
    pub fn instantiate(init: SellableInit) -> (r: (Sellable, Response))
        ensures
            r.0.wf(),
            forall|id: Seq<char>|
                {
                    &&& (#[trigger] input_price(init.tokens@, id)) matches Some(p) ==> has_listing(
                        r.0.listings@,
                        id,
                    ) && price_at(r.0.listings@, id) == p
                    &&& input_price(init.tokens@, id) is None ==> !has_listing(r.0.listings@, id)
                },
            empty_effects(r.1),
    {
        let mut book = Sellable { listings: Vec::new() };
        let entries = init.tokens;
        let mut i: usize = 0;
        while i < entries.len()
            invariant
                i <= entries@.len(),
                book.wf(),
                forall|id: Seq<char>|
                    {
                        &&& (#[trigger] input_price(entries@.take(i as int), id)) matches Some(p)
                            ==> has_listing(book.listings@, id) && price_at(book.listings@, id) == p
                        &&& input_price(entries@.take(i as int), id) is None ==> !has_listing(
                            book.listings@,
                            id,
                        )
                    },
            decreases entries@.len() - i,
        {
            let entry = entries[i].clone();
            let ghost pre_book: Seq<Listing> = book.listings@;
            proof {
                assert(entries@.take(i + 1).drop_last() =~= entries@.take(i as int));
                assert(entries@.take(i + 1).last() == entries@[i as int]);
            }
            book.put_listing(entry.token_id, entry.price);
            proof {
                let cur_id = entries@[i as int].token_id@;
                assert forall|id: Seq<char>|
                    {
                        &&& (#[trigger] input_price(entries@.take(i + 1), id)) matches Some(p)
                            ==> has_listing(book.listings@, id) && price_at(book.listings@, id) == p
                        &&& input_price(entries@.take(i + 1), id) is None ==> !has_listing(
                            book.listings@,
                            id,
                        )
                    } by {
                    if id == cur_id {
                        assert(input_price(entries@.take(i + 1), id) == Some(
                            entries@[i as int].price,
                        ));
                    } else {
                        assert(input_price(entries@.take(i + 1), id) == input_price(
                            entries@.take(i as int),
                            id,
                        ));
                    }
                }
            }
            i = i + 1;
        }
        proof {
            assert(entries@.take(i as int) =~= entries@);
        }
        (book, Response::new())
    }

    /// The first position whose id is not below `id`.
    fn lower_bound(&self, id: &String) -> (r: usize)
        ensures
            r <= self.listings@.len(),
            forall|k: int| 0 <= k < r ==> str_lt(self.listings@[k].token_id@, id@),
            r < self.listings@.len() ==> !str_lt(self.listings@[r as int].token_id@, id@),
    {
        let mut i: usize = 0;
        while i < self.listings.len()
            invariant
                i <= self.listings@.len(),
                forall|k: int| 0 <= k < i ==> str_lt(self.listings@[k].token_id@, id@),
            decreases self.listings@.len() - i,
        {
            if !str_lt_exec(self.listings[i].token_id.as_str(), id.as_str()) {
                return i;
            }
            i = i + 1;
        }
        i
    }

    /// Inserts or overwrites the listing for `token_id`.
    fn put_listing(&mut self, token_id: String, price: u64)
        requires
            old(self).wf(),
        ensures
            final(self).wf(),
            has_listing(final(self).listings@, token_id@),
            price_at(final(self).listings@, token_id@) == price,
            listing_at(final(self).listings@, token_id@).token_id == token_id,
            forall|id2: Seq<char>|
                id2 != token_id@ ==> has_listing(final(self).listings@, id2) == has_listing(
                    old(self).listings@,
                    id2,
                ) && (has_listing(old(self).listings@, id2) ==> listing_at(
                    final(self).listings@,
                    id2,
                ) == listing_at(old(self).listings@, id2)),
    {
        let pos = self.lower_bound(&token_id);
        let ghost olds: Seq<Listing> = self.listings@;
        let ghost id: Seq<char> = token_id@;
        if pos < self.listings.len() && self.listings[pos].token_id == token_id {
            let _ = self.listings.remove(pos);
            self.listings.insert(pos, Listing { token_id, price });
            proof {
                let news = self.listings@;
                lemma_sorted_listing_unique(olds);
                assert(news =~= olds.remove(pos as int).insert(pos as int, news[pos as int]));
                assert forall|k: int| 0 <= k < news.len() && k != pos as int implies news[k]
                    == olds[k] by {
                    if k < pos as int {
                        assert(news[k] == olds.remove(pos as int)[k]);
                    } else {
                        assert(news[k] == olds.remove(pos as int)[k - 1]);
                    }
                }
                assert(forall|k: int|
                    0 <= k < news.len() ==> news[k].token_id@ == olds[k].token_id@);
                assert forall|i: int, j: int| 0 <= i < j < news.len() implies str_lt(
                    news[i].token_id@,
                    news[j].token_id@,
                ) by {
                    assert(str_lt(olds[i].token_id@, olds[j].token_id@));
                }
                lemma_sorted_listing_unique(news);
                assert(news[pos as int].token_id@ == id);
                assert(listing_index(news, id) == pos as int);
                assert forall|id2: Seq<char>| id2 != id implies has_listing(news, id2)
                    == has_listing(olds, id2) && (has_listing(olds, id2) ==> listing_at(news, id2)
                    == listing_at(olds, id2)) by {
                    if has_listing(olds, id2) {
                        let w = listing_index(olds, id2);
                        assert(0 <= w < olds.len() && olds[w].token_id@ == id2);
                        assert(w != pos as int);
                        assert(news[w].token_id@ == id2);
                        assert(has_listing(news, id2));
                        assert(listing_index(news, id2) == w);
                    }
                    if has_listing(news, id2) {
                        let w = choose|w: int| 0 <= w < news.len() && news[w].token_id@ == id2;
                        assert(w != pos as int);
                        assert(olds[w].token_id@ == id2);
                        assert(has_listing(olds, id2));
                    }
                }
            }
        } else {
            proof {
                if (pos as int) < olds.len() {
                    lemma_str_lt_connected(olds[pos as int].token_id@, id);
                }
                assert forall|k: int| 0 <= k < olds.len() implies olds[k].token_id@ != id by {
                    if k < pos as int {
                        lemma_str_lt_irreflexive(id);
                    } else if k > pos as int {
                        lemma_str_lt_transitive(id, olds[pos as int].token_id@, olds[k].token_id@);
                        lemma_str_lt_irreflexive(id);
                    }
                }
            }
            self.listings.insert(pos, Listing { token_id, price });
            proof {
                let news = self.listings@;
                assert forall|i: int, j: int| 0 <= i < j < news.len() implies str_lt(
                    news[i].token_id@,
                    news[j].token_id@,
                ) by {
                    let p = pos as int;
                    if i < p && j == p {
                    } else if i == p && j > p {
                        if j - 1 > p {
                            lemma_str_lt_transitive(
                                id,
                                olds[p].token_id@,
                                olds[j - 1].token_id@,
                            );
                        }
                    } else {
                    }
                }
                lemma_sorted_listing_unique(news);
                lemma_sorted_listing_unique(olds);
                assert(news[pos as int].token_id@ == id);
                assert(listing_index(news, id) == pos as int);
                assert forall|id2: Seq<char>| id2 != id implies has_listing(news, id2)
                    == has_listing(olds, id2) && (has_listing(olds, id2) ==> listing_at(news, id2)
                    == listing_at(olds, id2)) by {
                    if has_listing(olds, id2) {
                        let w = listing_index(olds, id2);
                        assert(0 <= w < olds.len() && olds[w].token_id@ == id2);
                        let wn: int = if w < pos as int {
                            w
                        } else {
                            w + 1
                        };
                        assert(news[wn] == olds[w]);
                        assert(has_listing(news, id2));
                        assert(listing_index(news, id2) == wn);
                    }
                    if has_listing(news, id2) {
                        let w = choose|w: int| 0 <= w < news.len() && news[w].token_id@ == id2;
                        let wo: int = if w < pos as int {
                            w
                        } else {
                            w - 1
                        };
                        assert(olds[wo].token_id@ == id2);
                        assert(has_listing(olds, id2));
                    }
                }
            }
        }
    }

    /// Inserts or overwrites each submitted listing; owner-gated, with no
    /// ownership-of-token check: the contract itself custodies sale proceeds.
    pub fn list(&mut self, ownable: &Ownable, caller: &String, listings: Vec<Listing>) -> (r:
        Result<Response, ContractError>)
        requires
            old(self).wf(),
        ensures
            final(self).wf(),
            caller@ != ownable.owner@ ==> (r matches Err(e) && e == ContractError::Unauthorized
                && *final(self) == *old(self)),
            r is Ok <==> caller@ == ownable.owner@,
            r matches Ok(resp) ==> empty_effects(resp),
            r is Ok ==> forall|id: Seq<char>|
                {
                    &&& (#[trigger] input_price(listings@, id)) matches Some(p) ==> has_listing(
                        final(self).listings@,
                        id,
                    ) && price_at(final(self).listings@, id) == p
                    &&& input_price(listings@, id) is None ==> has_listing(
                        final(self).listings@,
                        id,
                    ) == has_listing(old(self).listings@, id) && (has_listing(
                        old(self).listings@,
                        id,
                    ) ==> listing_at(final(self).listings@, id) == listing_at(
                        old(self).listings@,
                        id,
                    ))
                },
    {
        ownable.require_owner(caller)?;
        let ghost olds: Seq<Listing> = self.listings@;
        let mut i: usize = 0;
        while i < listings.len()
            invariant
                i <= listings@.len(),
                self.wf(),
                forall|id: Seq<char>|
                    {
                        &&& (#[trigger] input_price(listings@.take(i as int), id)) matches Some(p)
                            ==> has_listing(self.listings@, id) && price_at(self.listings@, id) == p
                        &&& input_price(listings@.take(i as int), id) is None ==> has_listing(
                            self.listings@,
                            id,
                        ) == has_listing(olds, id) && (has_listing(olds, id) ==> listing_at(
                            self.listings@,
                            id,
                        ) == listing_at(olds, id))
                    },
            decreases listings@.len() - i,
        {
            let entry = listings[i].clone();
            let ghost pre_book: Seq<Listing> = self.listings@;
            proof {
                assert(listings@.take(i + 1).drop_last() =~= listings@.take(i as int));
                assert(listings@.take(i + 1).last() == listings@[i as int]);
            }
            self.put_listing(entry.token_id, entry.price);
            proof {
                let cur_id = listings@[i as int].token_id@;
                assert forall|id: Seq<char>|
                    {
                        &&& (#[trigger] input_price(listings@.take(i + 1), id)) matches Some(p)
                            ==> has_listing(self.listings@, id) && price_at(self.listings@, id) == p
                        &&& input_price(listings@.take(i + 1), id) is None ==> has_listing(
                            self.listings@,
                            id,
                        ) == has_listing(olds, id) && (has_listing(olds, id) ==> listing_at(
                            self.listings@,
                            id,
                        ) == listing_at(olds, id))
                    } by {
                    if id == cur_id {
                        assert(input_price(listings@.take(i + 1), id) == Some(
                            listings@[i as int].price,
                        ));
                    } else {
                        assert(input_price(listings@.take(i + 1), id) == input_price(
                            listings@.take(i as int),
                            id,
                        ));
                    }
                }
            }
            i = i + 1;
        }
        proof {
            assert(listings@.take(i as int) =~= listings@);
        }
        Ok(Response::new())
    }

    /// Buys the lowest-priced listing (first in id order among equals).
    /// Fails with `NotFound` when nothing is listed or the listed token has
    /// left the ledger, with `InsufficientFunds` when the attached payment in
    /// `denom` is below the cheapest price, and changes nothing on failure.
    /// On success the listing entry is removed, the token moves to the buyer,
    /// and one message forwarding the attached payment to `forward_to` (the
    /// contract owner) is queued.
    pub fn buy(
        &mut self,
        tokens: &mut Tokens,
        forward_to: &String,
        buyer: &String,
        funds: &Vec<Coin>,
        denom: &String,
    ) -> (r: Result<Response, ContractError>)
        requires
            old(self).wf(),
            old(tokens).wf(),
        ensures
            final(self).wf(),
            final(tokens).wf(),
            old(self).listings@.len() == 0 ==> (r matches Err(e) && e == ContractError::NotFound),
            old(self).listings@.len() > 0 ==> is_first_min(
                old(self).listings@,
                chosen_index(old(self).listings@),
            ),
            old(self).listings@.len() > 0 && spec_paid(funds@, denom@) < old(self).listings@[
                chosen_index(old(self).listings@)
            ].price as int ==> (r matches Err(e) && e == ContractError::InsufficientFunds),
            old(self).listings@.len() > 0 && spec_paid(funds@, denom@) >= old(self).listings@[
                chosen_index(old(self).listings@)
            ].price as int && !crate::token::has_token(
                old(tokens).entries@,
                old(self).listings@[chosen_index(old(self).listings@)].token_id@,
            ) ==> (r matches Err(e) && e == ContractError::NotFound),
            old(self).listings@.len() > 0 && spec_paid(funds@, denom@) >= old(self).listings@[
                chosen_index(old(self).listings@)
            ].price as int && crate::token::has_token(
                old(tokens).entries@,
                old(self).listings@[chosen_index(old(self).listings@)].token_id@,
            ) && !crate::types::valid_addr(buyer@) ==> (r matches Err(e) && e
                == ContractError::Validation),
            r is Ok <==> old(self).listings@.len() > 0 && spec_paid(funds@, denom@) >= old(
                self,
            ).listings@[chosen_index(old(self).listings@)].price as int && crate::token::has_token(
                old(tokens).entries@,
                old(self).listings@[chosen_index(old(self).listings@)].token_id@,
            ) && crate::types::valid_addr(buyer@),
            r is Err ==> *final(self) == *old(self) && *final(tokens) == *old(tokens),
            r is Ok ==> ({
                let c = chosen_index(old(self).listings@);
                let sold_id = old(self).listings@[c].token_id@;
                &&& final(self).listings@ == old(self).listings@.remove(c)
                &&& !has_listing(final(self).listings@, sold_id)
                &&& transfer_post(old(tokens).entries@, final(tokens).entries@, sold_id, buyer@)
            }),
            r matches Ok(resp) ==> resp.events@.len() == 0 && resp.attributes@.len() == 0
                && resp.data is None && resp.messages@.len() == 1 && (resp.messages@[0] matches
            OutboundMsg::Send { to_address, amount } && to_address@ == forward_to@ && amount@
                == funds@),
            final(tokens).name == old(tokens).name && final(tokens).symbol == old(tokens).symbol
                && final(tokens).minter == old(tokens).minter,
    {
        if self.listings.len() == 0 {
            return Err(ContractError::NotFound);
        }
        let mut best: usize = 0;
        let mut i: usize = 1;
        while i < self.listings.len()
            invariant
                1 <= self.listings@.len(),
                0 <= best < i <= self.listings@.len(),
                forall|k: int|
                    0 <= k < i ==> self.listings@[best as int].price <= self.listings@[k].price,
                forall|k: int|
                    0 <= k < best ==> self.listings@[k].price > self.listings@[best as int].price,
            decreases self.listings@.len() - i,
        {
            if self.listings[i].price < self.listings[best].price {
                best = i;
            }
            i = i + 1;
        }
        proof {
            assert(is_first_min(self.listings@, best as int));
            lemma_first_min_unique(self.listings@, best as int, chosen_index(self.listings@));
        }
        let price = self.listings[best].price;
        let paid = crate::types::paid_amount(funds, denom);
        if paid < price {
            return Err(ContractError::InsufficientFunds);
        }
        let transfer_result = tokens.transfer_unchecked(&self.listings[best].token_id, buyer.clone());
        if let Err(e) = transfer_result {
            return Err(e);
        }
        let ghost olds: Seq<Listing> = self.listings@;
        let _ = self.listings.remove(best);
        proof {
            lemma_remove_listing(olds, self.listings@, best as int);
        }
        let mut resp = Response::new();
        resp.messages.push(
            OutboundMsg::Send { to_address: forward_to.clone(), amount: clone_coins(funds) },
        );
        Ok(resp)
    }

    /// The asking price of `token_id`, if it is listed.
    pub fn price_of(&self, token_id: &String) -> (r: Option<u64>)
        requires
            self.wf(),
        ensures
            has_listing(self.listings@, token_id@) ==> r == Some(price_at(self.listings@, token_id@)),
            !has_listing(self.listings@, token_id@) ==> r is None,
    {
        let mut i: usize = 0;
        while i < self.listings.len()
            invariant
                self.wf(),
                i <= self.listings@.len(),
                forall|k: int| 0 <= k < i ==> self.listings@[k].token_id@ != token_id@,
            decreases self.listings@.len() - i,
        {
            if self.listings[i].token_id == *token_id {
                proof {
                    lemma_sorted_listing_unique(self.listings@);
                    assert(listing_index(self.listings@, token_id@) == i as int);
                }
                return Some(self.listings[i].price);
            }
            i = i + 1;
        }
        None
    }

    /// The listings with ids strictly after the cursor, ascending by id, up
    /// to the resolved page limit.
    pub fn listed_tokens(&self, start_after: Option<String>, limit: Option<usize>) -> (r: Vec<
        Listing,
    >)
        ensures
            r@ == listings_up_to(
                spec_listed(self.listings@, spec_cursor(start_after)),
                spec_page_limit(limit),
            ),
    {
        let page: usize = match limit {
            Some(l) => if l <= 30 {
                l
            } else {
                30
            },
            None => 10,
        };
        let ghost cursor: Option<Seq<char>> = spec_cursor(start_after);
        let start_ref: Option<&String> = match &start_after {
            Some(s) => Some(s),
            None => None,
        };
        let mut out: Vec<Listing> = Vec::new();
        let mut i: usize = 0;
        proof {
            assert(self.listings@.take(0) =~= Seq::<Listing>::empty());
            assert(out@ =~= listings_up_to(
                spec_listed(self.listings@.take(0), cursor),
                page as int,
            ));
        }
        while i < self.listings.len()
            invariant
                i <= self.listings@.len(),
                page == spec_page_limit(limit),
                cursor == spec_cursor(start_after),
                (start_ref matches Some(s) && start_after matches Some(s2) && *s == s2) || (
                start_ref is None && start_after is None),
                out@ == listings_up_to(
                    spec_listed(self.listings@.take(i as int), cursor),
                    page as int,
                ),
                out@.len() <= page,
            decreases self.listings@.len() - i,
        {
            let ghost prefix: Seq<Listing> = self.listings@.take(i as int);
            let ghost partial: Seq<Listing> = spec_listed(prefix, cursor);
            proof {
                assert(self.listings@.take(i + 1).drop_last() =~= prefix);
                assert(self.listings@.take(i + 1).last() == self.listings@[i as int]);
            }
            let entry = &self.listings[i];
            let included: bool = match start_ref {
                Some(st) => str_lt_exec(st.as_str(), entry.token_id.as_str()),
                None => true,
            };
            proof {
                assert(included == listing_after(self.listings@[i as int], cursor));
            }
            if included && out.len() < page {
                let ghost out0: Seq<Listing> = out@;
                out.push(entry.clone());
                proof {
                    assert(out@ =~= out0.push(self.listings@[i as int]));
                    assert(partial.len() < page as int);
                    assert(spec_listed(self.listings@.take(i + 1), cursor) =~= partial + seq![
                        self.listings@[i as int],
                    ]);
                    assert(out@ =~= listings_up_to(
                        spec_listed(self.listings@.take(i + 1), cursor),
                        page as int,
                    ));
                }
            } else {
                proof {
                    if included {
                        assert(out@.len() == page);
                        assert(partial.len() >= page as int);
                        let extended = spec_listed(self.listings@.take(i + 1), cursor);
                        assert(extended =~= partial + seq![self.listings@[i as int]]);
                        assert(extended.take(page as int) =~= partial.take(page as int));
                        assert(partial.take(page as int) =~= listings_up_to(partial, page as int));
                        assert(out@ =~= listings_up_to(extended, page as int));
                    } else {
                        assert(partial + Seq::<Listing>::empty() =~= partial);
                        assert(spec_listed(self.listings@.take(i + 1), cursor) =~= partial
                            + Seq::<Listing>::empty());
                    }
                }
            }
            i = i + 1;
        }
        proof {
            assert(self.listings@.take(i as int) =~= self.listings@);
        }
        out
    }
}

} // verus!
