//! The token module: a non-fungible token ledger.
//!
//! Each token has a string id, an owner, an approval list, an optional URI
//! and extension metadata.  The ledger keeps its entries in strictly
//! ascending id order, so ids are unique and paginated queries walk ids
//! ascending.  Minting a duplicate id fails; transfers require the caller to
//! be the token's owner or approved; tokens are never deleted.
use vstd::prelude::*;

use crate::error::ContractError;
use crate::response::{empty_effects, Response};
use crate::strcmp::{
    lemma_str_lt_connected, lemma_str_lt_irreflexive, lemma_str_lt_transitive, str_lt, str_lt_exec,
};
use crate::types::valid_addr;

verus! {

/// Extension metadata carried by each token.
#[derive(Debug, PartialEq, Eq)]
pub struct TokenMetadata {
    pub description: Option<String>,
    pub name: Option<String>,
    /// This is how much the minter takes as a cut when sold; royalties are
    /// owed on this token if it is `Some`.
    pub royalty_percentage: Option<u64>,
    /// The payment address; may differ from the minter address.
    pub royalty_payment_address: Option<String>,
}

/// Copies an optional string, preserving its value.
pub fn clone_opt_string(o: &Option<String>) -> (r: Option<String>)
    ensures
        r == *o,
{
    match o {
        Some(s) => Some(s.clone()),
        None => None,
    }
}

/// Copies a vector of strings, preserving its value element for element.
pub fn clone_string_vec(v: &Vec<String>) -> (r: Vec<String>)
    ensures
        r@ == v@,
{
    let mut out: Vec<String> = Vec::new();
    let mut i: usize = 0;
    while i < v.len()
        invariant
            i <= v@.len(),
            out@.len() == i,
            forall|k: int| 0 <= k < i ==> out@[k] == v@[k],
        decreases v@.len() - i,
    {
        out.push(v[i].clone());
        i = i + 1;
    }
    proof {
        assert(out@ =~= v@);
    }
    out
}

impl Clone for TokenMetadata {
    fn clone(&self) -> (res: Self)
        ensures
            res == *self,
    {
        TokenMetadata {
            description: clone_opt_string(&self.description),
            name: clone_opt_string(&self.name),
            royalty_percentage: if let Some(p) = self.royalty_percentage {
                Some(p)
            } else {
                None
            },
            royalty_payment_address: clone_opt_string(&self.royalty_payment_address),
        }
    }
}

/// The parameters of one mint.
#[derive(Debug, PartialEq, Eq)]
pub struct MintMsg {
    pub token_id: String,
    pub owner: String,
    pub token_uri: Option<String>,
    pub extension: TokenMetadata,
}

/// One ledger entry.
#[derive(Debug, PartialEq, Eq)]
pub struct TokenInfo {
    pub token_id: String,
    pub owner: String,
    pub approvals: Vec<String>,
    pub token_uri: Option<String>,
    pub extension: TokenMetadata,
}

/// The instantiate sub-payload of the token module.
#[derive(Debug, PartialEq, Eq)]
pub struct TokenInit {
    pub name: String,
    pub symbol: String,
    pub minter: String,
}

/// Execute messages routed to the token module.
#[derive(Debug, PartialEq, Eq)]
pub enum TokenExecuteMsg {
    Mint(MintMsg),
    TransferNft { recipient: String, token_id: String },
    Approve { spender: String, token_id: String },
}

/// Query messages routed to the token module.
#[derive(Debug, PartialEq, Eq)]
pub enum TokenQueryMsg {
    NumTokens,
    OwnerOf { token_id: String },
    Tokens { owner: String, start_after: Option<String>, limit: Option<usize> },
}

/// Ledger entries stand in strictly ascending id order.
pub open spec fn tokens_sorted(s: Seq<TokenInfo>) -> bool {
    forall|i: int, j: int| 0 <= i < j < s.len() ==> str_lt(s[i].token_id@, s[j].token_id@)
}

/// Some entry carries `id`.
pub open spec fn has_token(s: Seq<TokenInfo>, id: Seq<char>) -> bool {
    exists|i: int| 0 <= i < s.len() && s[i].token_id@ == id
}

/// The index of the entry carrying `id` (unique while the ledger is sorted).
pub open spec fn token_index(s: Seq<TokenInfo>, id: Seq<char>) -> int {
    choose|i: int| 0 <= i < s.len() && s[i].token_id@ == id
}

/// The entry carrying `id`.
pub open spec fn token_at(s: Seq<TokenInfo>, id: Seq<char>) -> TokenInfo {
    s[token_index(s, id)]
}

/// `caller` may move the token: it owns it or stands in its approval list.
pub open spec fn token_authorized(t: TokenInfo, caller: Seq<char>) -> bool {
    t.owner@ == caller || exists|i: int| 0 <= i < t.approvals@.len() && t.approvals@[i]@ == caller
}

/// What a completed mint guarantees: the new entry carries exactly the
/// minted fields, and every other entry is untouched.
pub open spec fn mint_post(olds: Seq<TokenInfo>, news: Seq<TokenInfo>, msg: MintMsg) -> bool {
    &&& has_token(news, msg.token_id@)
    &&& token_at(news, msg.token_id@).token_id == msg.token_id
    &&& token_at(news, msg.token_id@).owner == msg.owner
    &&& token_at(news, msg.token_id@).approvals@.len() == 0
    &&& token_at(news, msg.token_id@).token_uri == msg.token_uri
    &&& token_at(news, msg.token_id@).extension == msg.extension
    &&& news.len() == olds.len() + 1
    &&& forall|id2: Seq<char>|
        id2 != msg.token_id@ ==> has_token(news, id2) == has_token(olds, id2)
    &&& forall|id2: Seq<char>|
        id2 != msg.token_id@ && has_token(olds, id2) ==> token_at(news, id2) == token_at(olds, id2)
}

/// In a sorted ledger, an id determines its index.
pub proof fn lemma_sorted_token_unique(s: Seq<TokenInfo>)
    requires
        tokens_sorted(s),
    ensures
        forall|i: int, j: int|
            0 <= i < s.len() && 0 <= j < s.len() && s[i].token_id@ == s[j].token_id@ ==> i == j,
{
    assert forall|i: int, j: int|
        0 <= i < s.len() && 0 <= j < s.len() && s[i].token_id@ == s[j].token_id@ implies i == j by {
        if i < j {
            assert(str_lt(s[i].token_id@, s[j].token_id@));
            lemma_str_lt_irreflexive(s[i].token_id@);
        }
        if j < i {
            assert(str_lt(s[j].token_id@, s[i].token_id@));
            lemma_str_lt_irreflexive(s[i].token_id@);
        }
    }
}

/// Whether an entry is counted by a `Tokens` query for `owner` with cursor
/// `start`: owned by `owner` and, with a cursor, strictly after it.
pub open spec fn token_match(t: TokenInfo, owner: Seq<char>, start: Option<Seq<char>>) -> bool {
    t.owner@ == owner && (start matches Some(st) ==> str_lt(st, t.token_id@))
}

/// The ids a `Tokens` query would return with no page limit, in ledger order.
pub open spec fn spec_tokens_of(s: Seq<TokenInfo>, owner: Seq<char>, start: Option<Seq<char>>) -> Seq<
    Seq<char>,
>
    decreases s.len(),
{
    if s.len() == 0 {
        Seq::empty()
    } else {
        spec_tokens_of(s.drop_last(), owner, start) + (if token_match(s.last(), owner, start) {
            seq![s.last().token_id@]
        } else {
            Seq::empty()
        })
    }
}

/// The first `n` elements, or all of them when fewer exist.
pub open spec fn take_up_to(s: Seq<Seq<char>>, n: int) -> Seq<Seq<char>> {
    if s.len() <= n {
        s
    } else {
        s.take(n)
    }
}

/// The page size a `Tokens` query resolves to: the requested limit capped at
/// 30, or 10 when none is requested.
pub open spec fn spec_page_limit(limit: Option<usize>) -> int {
    match limit {
        Some(l) => if l <= 30 {
            l as int
        } else {
            30
        },
        None => 10,
    }
}

/// The cursor of a `Tokens` query, as a character sequence.
pub open spec fn spec_cursor(start_after: Option<String>) -> Option<Seq<char>> {
    match start_after {
        Some(s) => Some(s@),
        None => None,
    }
}

/// The token ledger.
#[derive(Debug, PartialEq, Eq)]
pub struct Tokens {
    pub name: String,
    pub symbol: String,
    pub minter: String,
    pub entries: Vec<TokenInfo>,
}

impl Tokens {
    /// The ledger's invariant: entries strictly ascending by id.
    pub open spec fn wf(&self) -> bool {
        tokens_sorted(self.entries@)
    }

    /// Creates an empty ledger at instantiation.
    pub fn instantiate(init: TokenInit) -> (r: (Tokens, Response))
        ensures
            r.0.entries@.len() == 0,
            r.0.name == init.name && r.0.symbol == init.symbol && r.0.minter == init.minter,
            r.0.wf(),
            empty_effects(r.1),
    {
        (
            Tokens {
                name: init.name,
                symbol: init.symbol,
                minter: init.minter,
                entries: Vec::new(),
            },
            Response::new(),
        )
    }

    /// The first position whose id is not below `id`.
    fn lower_bound(&self, id: &String) -> (r: usize)
        ensures
            r <= self.entries@.len(),
            forall|k: int| 0 <= k < r ==> str_lt(self.entries@[k].token_id@, id@),
            r < self.entries@.len() ==> !str_lt(self.entries@[r as int].token_id@, id@),
    {
        let mut i: usize = 0;
        while i < self.entries.len()
            invariant
                i <= self.entries@.len(),
                forall|k: int| 0 <= k < i ==> str_lt(self.entries@[k].token_id@, id@),
            decreases self.entries@.len() - i,
        {
            if !str_lt_exec(self.entries[i].token_id.as_str(), id.as_str()) {
                return i;
            }
            i = i + 1;
        }
        i
    }

    /// The position of the entry carrying `token_id`, if one exists.
    pub fn find_token(&self, token_id: &String) -> (r: Option<usize>)
        ensures
            r matches Some(i) ==> i < self.entries@.len() && self.entries@[i as int].token_id@
                == token_id@,
            r is None ==> !has_token(self.entries@, token_id@),
    {
        let mut i: usize = 0;
        while i < self.entries.len()
            invariant
                i <= self.entries@.len(),
                forall|k: int| 0 <= k < i ==> self.entries@[k].token_id@ != token_id@,
            decreases self.entries@.len() - i,
        {
            if self.entries[i].token_id == *token_id {
                return Some(i);
            }
            i = i + 1;
        }
        None
    }

    /// Mints a new token; fails if the id already exists or the owner address
    /// is malformed, and changes nothing on failure.
    pub fn mint(&mut self, msg: MintMsg) -> (r: Result<Response, ContractError>)
        requires
            old(self).wf(),
        ensures
            final(self).wf(),
            has_token(old(self).entries@, msg.token_id@) ==> (r matches Err(e) && e
                == ContractError::AlreadyExists),
            !has_token(old(self).entries@, msg.token_id@) && !valid_addr(msg.owner@) ==> (
            r matches Err(e) && e == ContractError::Validation),
            r is Ok <==> !has_token(old(self).entries@, msg.token_id@) && valid_addr(msg.owner@),
            r is Err ==> *final(self) == *old(self),
            r matches Ok(resp) ==> empty_effects(resp),
            r is Ok ==> mint_post(old(self).entries@, final(self).entries@, msg),
            final(self).name == old(self).name && final(self).symbol == old(self).symbol,
            final(self).minter == old(self).minter,
    {
        let pos = self.lower_bound(&msg.token_id);
        if pos < self.entries.len() && self.entries[pos].token_id == msg.token_id {
            proof {
                assert(has_token(self.entries@, msg.token_id@));
            }
            return Err(ContractError::AlreadyExists);
        }
        proof {
            lemma_mint_fresh(self.entries@, msg.token_id@, pos as int);
        }
        if !crate::ownable::addr_is_valid_string(&msg.owner) {
            return Err(ContractError::Validation);
        }
        let entry = TokenInfo {
            token_id: msg.token_id,
            owner: msg.owner,
            approvals: Vec::new(),
            token_uri: msg.token_uri,
            extension: msg.extension,
        };
        let ghost olds: Seq<TokenInfo> = self.entries@;
        let ghost id: Seq<char> = entry.token_id@;
        self.entries.insert(pos, entry);
        proof {
            let news = self.entries@;
            if (pos as int) < olds.len() {
                lemma_str_lt_connected(olds[pos as int].token_id@, id);
            }
            assert forall|i: int, j: int| 0 <= i < j < news.len() implies str_lt(
                news[i].token_id@,
                news[j].token_id@,
            ) by {
                let p = pos as int;
                if i < p && j == p {
                } else if i == p && j > p {
                    if j - 1 > p {
                        lemma_str_lt_transitive(id, olds[p].token_id@, olds[j - 1].token_id@);
                    }
                } else {
                }
            }
            lemma_sorted_token_unique(news);
            lemma_sorted_token_unique(olds);
            assert(news[pos as int].token_id@ == id);
            assert(token_index(news, id) == pos as int);
            assert forall|id2: Seq<char>| id2 != id implies has_token(news, id2) == has_token(
                olds,
                id2,
            ) by {
                if has_token(olds, id2) {
                    let w = choose|w: int| 0 <= w < olds.len() && olds[w].token_id@ == id2;
                    let wn: int = if w < pos as int {
                        w
                    } else {
                        w + 1
                    };
                    assert(news[wn].token_id@ == id2);
                    assert(has_token(news, id2));
                }
                if has_token(news, id2) {
                    let w = choose|w: int| 0 <= w < news.len() && news[w].token_id@ == id2;
                    let wo: int = if w < pos as int {
                        w
                    } else {
                        w - 1
                    };
                    assert(olds[wo].token_id@ == id2);
                    assert(has_token(olds, id2));
                }
            }
            assert forall|id2: Seq<char>| id2 != id && has_token(olds, id2) implies token_at(
                news,
                id2,
            ) == token_at(olds, id2) by {
                let wo = token_index(olds, id2);
                assert(0 <= wo < olds.len() && olds[wo].token_id@ == id2);
                let wn: int = if wo < pos as int {
                    wo
                } else {
                    wo + 1
                };
                assert(news[wn] == olds[wo]);
                assert(token_index(news, id2) == wn);
            }
        }
        Ok(Response::new())
    }

    /// Moves a token to `recipient` without any authorization check; the
    /// listing and sale modules call it once their own checks passed.  The
    /// approval list is reset on transfer.
    pub(crate) fn transfer_unchecked(&mut self, token_id: &String, recipient: String) -> (r: Result<
        (),
        ContractError,
    >)
        requires
            old(self).wf(),
        ensures
            final(self).wf(),
            !has_token(old(self).entries@, token_id@) ==> (r matches Err(e) && e
                == ContractError::NotFound),
            has_token(old(self).entries@, token_id@) && !valid_addr(recipient@) ==> (
            r matches Err(e) && e == ContractError::Validation),
            r is Ok <==> has_token(old(self).entries@, token_id@) && valid_addr(recipient@),
            r is Err ==> *final(self) == *old(self),
            r is Ok ==> transfer_post(old(self).entries@, final(self).entries@, token_id@, recipient@),
            final(self).name == old(self).name && final(self).symbol == old(self).symbol,
            final(self).minter == old(self).minter,
    {
        let pos_opt = self.find_token(token_id);
        let pos = match pos_opt {
            Some(p) => p,
            None => {
                return Err(ContractError::NotFound);
            },
        };
        proof {
            assert(has_token(self.entries@, token_id@));
        }
        if !crate::ownable::addr_is_valid_string(&recipient) {
            return Err(ContractError::Validation);
        }
        let ghost olds: Seq<TokenInfo> = self.entries@;
        let entry = self.entries.remove(pos);
        let updated = TokenInfo {
            token_id: entry.token_id,
            owner: recipient,
            approvals: Vec::new(),
            token_uri: entry.token_uri,
            extension: entry.extension,
        };
        self.entries.insert(pos, updated);
        proof {
            lemma_replace_at(olds, self.entries@, pos as int, token_id@);
        }
        Ok(())
    }

    /// Moves a token to `recipient`; the caller must own it or be approved.
    /// The approval list is reset on transfer.
    pub fn transfer(&mut self, caller: &String, recipient: String, token_id: &String) -> (r: Result<
        Response,
        ContractError,
    >)
        requires
            old(self).wf(),
        ensures
            final(self).wf(),
            !has_token(old(self).entries@, token_id@) ==> (r matches Err(e) && e
                == ContractError::NotFound),
            has_token(old(self).entries@, token_id@) && !token_authorized(
                token_at(old(self).entries@, token_id@),
                caller@,
            ) ==> (r matches Err(e) && e == ContractError::Unauthorized),
            has_token(old(self).entries@, token_id@) && token_authorized(
                token_at(old(self).entries@, token_id@),
                caller@,
            ) && !valid_addr(recipient@) ==> (r matches Err(e) && e == ContractError::Validation),
            r is Ok <==> has_token(old(self).entries@, token_id@) && token_authorized(
                token_at(old(self).entries@, token_id@),
                caller@,
            ) && valid_addr(recipient@),
            r is Err ==> *final(self) == *old(self),
            r matches Ok(resp) ==> empty_effects(resp),
            r is Ok ==> transfer_post(old(self).entries@, final(self).entries@, token_id@, recipient@),
            final(self).name == old(self).name && final(self).symbol == old(self).symbol,
            final(self).minter == old(self).minter,
    {
        let pos_opt = self.find_token(token_id);
        let pos = match pos_opt {
            Some(p) => p,
            None => {
                return Err(ContractError::NotFound);
            },
        };
        proof {
            assert(has_token(self.entries@, token_id@));
            lemma_sorted_token_unique(self.entries@);
            assert(token_index(self.entries@, token_id@) == pos as int);
        }
        let mut authorized = self.entries[pos].owner == *caller;
        let approvals_len = self.entries[pos].approvals.len();
        let mut k: usize = 0;
        while k < approvals_len
            invariant
                k <= approvals_len,
                approvals_len == self.entries@[pos as int].approvals@.len(),
                pos < self.entries@.len(),
                authorized == (self.entries@[pos as int].owner@ == caller@ || exists|i: int|
                    0 <= i < k && self.entries@[pos as int].approvals@[i]@ == caller@),
            decreases approvals_len - k,
        {
            if self.entries[pos].approvals[k] == *caller {
                authorized = true;
            }
            k = k + 1;
        }
        if !authorized {
            return Err(ContractError::Unauthorized);
        }
        let result = self.transfer_unchecked(token_id, recipient);
        match result {
            Ok(()) => Ok(Response::new()),
            Err(e) => Err(e),
        }
    }

    /// Adds `spender` to a token's approval list; only the token's owner may.
    pub fn approve(&mut self, caller: &String, spender: String, token_id: &String) -> (r: Result<
        Response,
        ContractError,
    >)
        requires
            old(self).wf(),
        ensures
            final(self).wf(),
            !has_token(old(self).entries@, token_id@) ==> (r matches Err(e) && e
                == ContractError::NotFound),
            has_token(old(self).entries@, token_id@) && token_at(
                old(self).entries@,
                token_id@,
            ).owner@ != caller@ ==> (r matches Err(e) && e == ContractError::Unauthorized),
            has_token(old(self).entries@, token_id@) && token_at(
                old(self).entries@,
                token_id@,
            ).owner@ == caller@ && !valid_addr(spender@) ==> (r matches Err(e) && e
                == ContractError::Validation),
            r is Ok <==> has_token(old(self).entries@, token_id@) && token_at(
                old(self).entries@,
                token_id@,
            ).owner@ == caller@ && valid_addr(spender@),
            r is Err ==> *final(self) == *old(self),
            r matches Ok(resp) ==> empty_effects(resp),
            r is Ok ==> ({
                let t0 = token_at(old(self).entries@, token_id@);
                let t1 = token_at(final(self).entries@, token_id@);
                &&& has_token(final(self).entries@, token_id@)
                &&& t1.token_id == t0.token_id
                &&& t1.owner == t0.owner
                &&& t1.approvals@ == t0.approvals@.push(spender)
                &&& t1.token_uri == t0.token_uri
                &&& t1.extension == t0.extension
            }),
            r is Ok ==> final(self).entries@.len() == old(self).entries@.len() && forall|
                id2: Seq<char>,
            |
                id2 != token_id@ ==> has_token(final(self).entries@, id2) == has_token(
                    old(self).entries@,
                    id2,
                ) && (has_token(old(self).entries@, id2) ==> token_at(final(self).entries@, id2)
                    == token_at(old(self).entries@, id2)),
            final(self).name == old(self).name && final(self).symbol == old(self).symbol,
            final(self).minter == old(self).minter,
    {
        let pos_opt = self.find_token(token_id);
        let pos = match pos_opt {
            Some(p) => p,
            None => {
                return Err(ContractError::NotFound);
            },
        };
        proof {
            assert(has_token(self.entries@, token_id@));
            lemma_sorted_token_unique(self.entries@);
            assert(token_index(self.entries@, token_id@) == pos as int);
        }
        if self.entries[pos].owner != *caller {
            return Err(ContractError::Unauthorized);
        }
        if !crate::ownable::addr_is_valid_string(&spender) {
            return Err(ContractError::Validation);
        }
        let ghost olds: Seq<TokenInfo> = self.entries@;
        let mut entry = self.entries.remove(pos);
        entry.approvals.push(spender);
        self.entries.insert(pos, entry);
        proof {
            lemma_replace_at(olds, self.entries@, pos as int, token_id@);
        }
        Ok(Response::new())
    }

    /// How many tokens have been minted.
    pub fn num_tokens(&self) -> (r: usize)
        ensures
            r == self.entries@.len(),
    {
        self.entries.len()
    }

    /// The owner of a token.
    pub fn owner_of(&self, token_id: &String) -> (r: Result<String, ContractError>)
        requires
            self.wf(),
        ensures
            has_token(self.entries@, token_id@) ==> (r matches Ok(o) && o@ == token_at(
                self.entries@,
                token_id@,
            ).owner@),
            !has_token(self.entries@, token_id@) ==> (r matches Err(e) && e
                == ContractError::NotFound),
    {
        let pos_opt = self.find_token(token_id);
        match pos_opt {
            Some(p) => {
                proof {
                    lemma_sorted_token_unique(self.entries@);
                    assert(token_index(self.entries@, token_id@) == p as int);
                }
                Ok(self.entries[p].owner.clone())
            },
            None => Err(ContractError::NotFound),
        }
    }

    /// The ids owned by `owner`, ascending, starting strictly after the
    /// cursor, up to the resolved page limit.
    pub fn tokens_by_owner(&self, owner: &String, start_after: Option<String>, limit: Option<
        usize,
    >) -> (r: Vec<String>)
        ensures
            r.deep_view() == take_up_to(
                spec_tokens_of(self.entries@, owner@, spec_cursor(start_after)),
                spec_page_limit(limit),
            ),
    {
        let page: usize = match limit {
            Some(l) => if l <= 30 {
                l
            } else {
                30
            },
            None => 10,
        };
        let ghost cursor: Option<Seq<char>> = spec_cursor(start_after);
        let start_ref: Option<&String> = match &start_after {
            Some(s) => Some(s),
            None => None,
        };
        let mut out: Vec<String> = Vec::new();
        let mut i: usize = 0;
        proof {
            assert(self.entries@.take(0) =~= Seq::<TokenInfo>::empty());
            assert(out.deep_view() =~= take_up_to(
                spec_tokens_of(self.entries@.take(0), owner@, cursor),
                page as int,
            ));
        }
        while i < self.entries.len()
            invariant
                i <= self.entries@.len(),
                page == spec_page_limit(limit),
                cursor == spec_cursor(start_after),
                (start_ref matches Some(s) && start_after matches Some(s2) && *s == s2) || (
                start_ref is None && start_after is None),
                out.deep_view() == take_up_to(
                    spec_tokens_of(self.entries@.take(i as int), owner@, cursor),
                    page as int,
                ),
                out@.len() <= page,
            decreases self.entries@.len() - i,
        {
            let ghost prefix: Seq<TokenInfo> = self.entries@.take(i as int);
            let ghost partial: Seq<Seq<char>> = spec_tokens_of(prefix, owner@, cursor);
            proof {
                assert(self.entries@.take(i + 1).drop_last() =~= prefix);
                assert(self.entries@.take(i + 1).last() == self.entries@[i as int]);
            }
            let entry = &self.entries[i];
            let included: bool = if entry.owner == *owner {
                match start_ref {
                    Some(st) => str_lt_exec(st.as_str(), entry.token_id.as_str()),
                    None => true,
                }
            } else {
                false
            };
            proof {
                assert(included == token_match(self.entries@[i as int], owner@, cursor));
            }
            if included && out.len() < page {
                let ghost out0: Seq<Seq<char>> = out.deep_view();
                out.push(entry.token_id.clone());
                proof {
                    assert(out.deep_view() =~= out0.push(self.entries@[i as int].token_id@));
                    assert(partial.len() < page as int);
                    assert(spec_tokens_of(self.entries@.take(i + 1), owner@, cursor) =~= partial
                        + seq![self.entries@[i as int].token_id@]);
                    assert(out.deep_view() =~= take_up_to(
                        spec_tokens_of(self.entries@.take(i + 1), owner@, cursor),
                        page as int,
                    ));
                }
            } else {
                proof {
                    if included {
                        assert(out@.len() == page);
                        assert(partial.len() >= page as int);
                        let extended = spec_tokens_of(self.entries@.take(i + 1), owner@, cursor);
                        assert(extended =~= partial + seq![self.entries@[i as int].token_id@]);
                        assert(extended.take(page as int) =~= partial.take(page as int));
                        assert(partial.take(page as int) =~= take_up_to(partial, page as int));
                        assert(out.deep_view() =~= take_up_to(extended, page as int));
                    } else {
                        assert(partial + Seq::<Seq<char>>::empty() =~= partial);
                        assert(spec_tokens_of(self.entries@.take(i + 1), owner@, cursor) =~= partial
                            + Seq::<Seq<char>>::empty());
                    }
                }
            }
            i = i + 1;
        }
        proof {
            assert(self.entries@.take(i as int) =~= self.entries@);
        }
        out
    }
}

/// What a completed transfer guarantees: the moved token is owned by the
/// recipient with a reset approval list, and every other entry is untouched.
pub open spec fn transfer_post(
    olds: Seq<TokenInfo>,
    news: Seq<TokenInfo>,
    id: Seq<char>,
    recipient: Seq<char>,
) -> bool {
    &&& news.len() == olds.len()
    &&& has_token(news, id)
    &&& token_at(news, id).token_id@ == id
    &&& token_at(news, id).owner@ == recipient
    &&& token_at(news, id).approvals@.len() == 0
    &&& token_at(news, id).token_uri == token_at(olds, id).token_uri
    &&& token_at(news, id).extension == token_at(olds, id).extension
    &&& forall|id2: Seq<char>|
        id2 != id ==> has_token(news, id2) == has_token(olds, id2) && (has_token(olds, id2)
            ==> token_at(news, id2) == token_at(olds, id2))
}

/// Inserting at the lower bound of a fresh id: nothing below the position
/// carries the id, nothing at or above it does either.
proof fn lemma_mint_fresh(s: Seq<TokenInfo>, id: Seq<char>, pos: int)
    requires
        tokens_sorted(s),
        0 <= pos <= s.len(),
        forall|k: int| 0 <= k < pos ==> str_lt(s[k].token_id@, id),
        pos < s.len() ==> !str_lt(s[pos].token_id@, id) && s[pos].token_id@ != id,
    ensures
        !has_token(s, id),
{
    assert forall|k: int| 0 <= k < s.len() implies s[k].token_id@ != id by {
        if k < pos {
            lemma_str_lt_irreflexive(id);
        } else if k > pos {
            if pos < s.len() {
                lemma_str_lt_connected(s[pos].token_id@, id);
                assert(str_lt(id, s[pos].token_id@));
                assert(str_lt(s[pos].token_id@, s[k].token_id@));
                lemma_str_lt_transitive(id, s[pos].token_id@, s[k].token_id@);
                lemma_str_lt_irreflexive(id);
            }
        } else {
        }
    }
}

/// Replacing the entry at a position with one carrying the same id keeps the
/// ledger sorted and leaves every other id's entry unchanged.
proof fn lemma_replace_at(olds: Seq<TokenInfo>, news: Seq<TokenInfo>, pos: int, id: Seq<char>)
    requires
        tokens_sorted(olds),
        0 <= pos < olds.len(),
        olds[pos].token_id@ == id,
        news =~= olds.remove(pos).insert(pos, news[pos]),
        news.len() == olds.len(),
        news[pos].token_id@ == id,
    ensures
        tokens_sorted(news),
        has_token(news, id),
        token_index(news, id) == pos,
        token_index(olds, id) == pos,
        news.len() == olds.len(),
        forall|id2: Seq<char>|
            id2 != id ==> has_token(news, id2) == has_token(olds, id2) && (has_token(olds, id2)
                ==> token_at(news, id2) == token_at(olds, id2)),
{
    assert forall|k: int| 0 <= k < news.len() && k != pos implies news[k] == olds[k] by {
        if k < pos {
            assert(news[k] == olds.remove(pos)[k]);
        } else {
            assert(news[k] == olds.remove(pos)[k - 1]);
        }
    }
    assert(forall|k: int|
        0 <= k < news.len() ==> news[k].token_id@ == olds[k].token_id@);
    assert forall|i: int, j: int| 0 <= i < j < news.len() implies str_lt(
        news[i].token_id@,
        news[j].token_id@,
    ) by {
        assert(str_lt(olds[i].token_id@, olds[j].token_id@));
    }
    lemma_sorted_token_unique(olds);
    lemma_sorted_token_unique(news);
    assert(has_token(news, id));
    assert(token_index(news, id) == pos);
    assert(token_index(olds, id) == pos);
    assert forall|id2: Seq<char>| id2 != id implies has_token(news, id2) == has_token(olds, id2)
        && (has_token(olds, id2) ==> token_at(news, id2) == token_at(olds, id2)) by {
        if has_token(olds, id2) {
            let w = token_index(olds, id2);
            assert(0 <= w < olds.len() && olds[w].token_id@ == id2);
            assert(w != pos);
            assert(news[w].token_id@ == id2);
            assert(has_token(news, id2));
            assert(token_index(news, id2) == w);
        }
        if has_token(news, id2) {
            let w = choose|w: int| 0 <= w < news.len() && news[w].token_id@ == id2;
            assert(w != pos);
            assert(olds[w].token_id@ == id2);
            assert(has_token(olds, id2));
        }
    }
}

} // verus!
