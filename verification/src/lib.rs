//! Transactional core of a modular NFT marketplace.
//!
//! The marketplace is composed of small stateful modules (ownership gate,
//! descriptive metadata, token ledger, redemption set, fixed-price listings,
//! and time/quantity-windowed primary sales).  Every top-level call reads the
//! persisted state, computes a new state plus a set of outbound effects, and
//! either commits both or fails with no partial effect; the contracts in this
//! crate state exactly that.
pub mod error;
pub mod hub;
pub mod manager;
pub mod metadata;
pub mod ownable;
pub mod redeemable;
pub mod response;
pub mod sales;
pub mod seat;
pub mod sellable;
pub mod strcmp;
pub mod token;
pub mod types;
pub mod version;
