use seat_market::error::ContractError;
use seat_market::hub::{
    HubExecuteMsg, HubInstantiateMsg, HubMetadata, HubMigrateMsg, HubModules, HubQueryMsg,
    HubQueryResp, MetadataField, SocialLinks,
};
use seat_market::manager::{get_manager, ManagerError, RegisteredModule};
use seat_market::metadata::{MetadataExecuteMsg, MetadataInit, MetadataQueryMsg};
use seat_market::ownable::{OwnableExecuteMsg, OwnableInit, OwnableQueryMsg};
use seat_market::redeemable::{RedeemableExecuteMsg, RedeemableInit};
use seat_market::response::{merge_responses, OutboundMsg, Response};
use seat_market::sales::{SalesExecuteMsg, SalesInit, SalesQueryMsg};
use seat_market::seat::{
    ExecuteMsg, ImageSettings, InstantiateMsg, MigrateMsg, QueryMsg, QueryResp, SeatBenefits,
    SeatMetadata, SeatModules,
};
use seat_market::sellable::{Listing, SellableExecuteMsg, SellableInit, SellableQueryMsg};
use seat_market::token::{MintMsg, TokenExecuteMsg, TokenMetadata, TokenQueryMsg};
use seat_market::types::{Coin, Env, MessageInfo};
use seat_market::version::SemVer;

const OWNER: &str = "ownerownerowner";
const BUYER: &str = "buyerbuyerbuyer";

fn env_at(block_time: u64) -> Env {
    Env {
        block_time,
        contract_address: "cosmos2contract".to_string(),
        native_denom: "ustake".to_string(),
    }
}

fn info(sender: &str, funds: Vec<Coin>) -> MessageInfo {
    MessageInfo { sender: sender.to_string(), funds }
}

fn coin(amount: u64, denom: &str) -> Coin {
    Coin { denom: denom.to_string(), amount }
}

fn metadata_record(name: &str) -> SeatMetadata {
    SeatMetadata {
        name: name.to_string(),
        image_uri: "uri".to_string(),
        description: "desc".to_string(),
        benefits: vec![SeatBenefits { name: "vip".to_string(), status: "on".to_string() }],
        template_number: 3,
        image_settings: ImageSettings { seat_name: false, hub_name: true },
    }
}

fn seat(owner: &str) -> SeatModules {
    let mut modules = SeatModules::new();
    let msg = InstantiateMsg {
        ownable: OwnableInit { owner: owner.to_string() },
        metadata: MetadataInit { metadata: metadata_record("seat") },
        seat_token: seat_market::token::TokenInit {
            name: "Token".to_string(),
            symbol: "TKN".to_string(),
            minter: owner.to_string(),
        },
        redeemable: RedeemableInit { locked_items: vec![] },
        sellable: None,
        sales: SalesInit {},
        hub_contract: "hubhubhubhub".to_string(),
    };
    modules.instantiate(&env_at(7), &info(owner, vec![]), msg).unwrap();
    modules
}

fn mint(modules: &mut SeatModules, id: &str, to: &str) {
    let msg = ExecuteMsg::SeatToken(TokenExecuteMsg::Mint(MintMsg {
        token_id: id.to_string(),
        owner: to.to_string(),
        token_uri: None,
        extension: TokenMetadata {
            name: None,
            description: None,
            royalty_percentage: None,
            royalty_payment_address: None,
        },
    }));
    modules.execute(&env_at(7), &info(OWNER, vec![]), msg).unwrap();
}

fn list(modules: &mut SeatModules, entries: Vec<(&str, u64)>) {
    let listings = entries
        .into_iter()
        .map(|(id, price)| Listing { token_id: id.to_string(), price })
        .collect();
    modules
        .execute(&env_at(7), &info(OWNER, vec![]), ExecuteMsg::Sellable(SellableExecuteMsg::List { listings }))
        .unwrap();
}

fn listed(modules: &SeatModules) -> Vec<Listing> {
    let resp = modules
        .query(
            &env_at(7),
            QueryMsg::Sellable(SellableQueryMsg::ListedTokens { start_after: None, limit: None }),
        )
        .unwrap();
    match resp {
        QueryResp::ListedTokens(l) => l,
        _ => panic!("unexpected response"),
    }
}

fn owner_of(modules: &SeatModules, id: &str) -> String {
    let resp = modules
        .query(&env_at(7), QueryMsg::SeatToken(TokenQueryMsg::OwnerOf { token_id: id.to_string() }))
        .unwrap();
    match resp {
        QueryResp::OwnerOf(o) => o,
        _ => panic!("unexpected response"),
    }
}

#[test]
fn unauthorized_callers_change_nothing() {
    let mut modules = seat(OWNER);
    mint(&mut modules, "1", OWNER);
    list(&mut modules, vec![("1", 50)]);
    let before_listed = listed(&modules);
    let intruder = info("intruderintruder", vec![]);

    let gated: Vec<ExecuteMsg> = vec![
        ExecuteMsg::Sellable(SellableExecuteMsg::List {
            listings: vec![Listing { token_id: "1".to_string(), price: 1 }],
        }),
        ExecuteMsg::Metadata(MetadataExecuteMsg::SetMetadata(metadata_record("hijacked"))),
        ExecuteMsg::Ownable(OwnableExecuteMsg::UpdateOwner {
            new_owner: "intruderintruder".to_string(),
        }),
        ExecuteMsg::Sales(SalesExecuteMsg::CreatePrimarySale {
            total_supply: 5,
            start_time: 1,
            end_time: 9,
            price: vec![coin(1, "ustake")],
        }),
        ExecuteMsg::Sales(SalesExecuteMsg::HaltSale),
    ];
    for msg in gated {
        let err = modules.execute(&env_at(7), &intruder, msg).unwrap_err();
        assert_eq!(err, ContractError::Unauthorized);
    }

    // all persisted records are unchanged
    assert_eq!(listed(&modules), before_listed);
    assert_eq!(owner_of(&modules, "1"), OWNER);
    let resp = modules.query(&env_at(7), QueryMsg::Sales(SalesQueryMsg::PrimarySales)).unwrap();
    match resp {
        QueryResp::PrimarySales(sales) => assert_eq!(sales.len(), 0),
        _ => panic!("unexpected response"),
    }
    let resp = modules.query(&env_at(7), QueryMsg::Metadata(MetadataQueryMsg::GetMetadata)).unwrap();
    match resp {
        QueryResp::Metadata(meta) => assert_eq!(meta.name, "seat"),
        _ => panic!("unexpected response"),
    }
}

#[test]
fn buy_at_exact_price_transfers_and_delists() {
    let mut modules = seat(OWNER);
    mint(&mut modules, "a", OWNER);
    mint(&mut modules, "b", OWNER);
    list(&mut modules, vec![("a", 120), ("b", 300)]);

    // paying exactly the cheapest price buys that token
    let resp = modules
        .execute(
            &env_at(7),
            &info(BUYER, vec![coin(120, "ustake")]),
            ExecuteMsg::Sellable(SellableExecuteMsg::Buy),
        )
        .unwrap();
    assert_eq!(owner_of(&modules, "a"), BUYER);
    let remaining = listed(&modules);
    assert_eq!(remaining.len(), 1);
    assert_eq!(remaining[0].token_id, "b");
    // the payment is forwarded to the contract owner
    assert_eq!(resp.messages.len(), 1);
    match &resp.messages[0] {
        OutboundMsg::Send { to_address, amount } => {
            assert_eq!(to_address, OWNER);
            assert_eq!(amount.len(), 1);
            assert_eq!(amount[0], coin(120, "ustake"));
        }
        _ => panic!("unexpected message"),
    }

    // paying strictly less than the cheapest remaining listing fails
    let err = modules
        .execute(
            &env_at(7),
            &info(BUYER, vec![coin(299, "ustake")]),
            ExecuteMsg::Sellable(SellableExecuteMsg::Buy),
        )
        .unwrap_err();
    assert_eq!(err, ContractError::InsufficientFunds);
    assert_eq!(listed(&modules).len(), 1);
    assert_eq!(owner_of(&modules, "b"), OWNER);
}

#[test]
fn buy_with_no_listings_fails() {
    let mut modules = seat(OWNER);
    let err = modules
        .execute(
            &env_at(7),
            &info(BUYER, vec![coin(100, "ustake")]),
            ExecuteMsg::Sellable(SellableExecuteMsg::Buy),
        )
        .unwrap_err();
    assert_eq!(err, ContractError::NotFound);
}

#[test]
fn exhausting_a_sale_disables_it() {
    let mut modules = seat(OWNER);
    modules
        .execute(
            &env_at(7),
            &info(OWNER, vec![]),
            ExecuteMsg::Sales(SalesExecuteMsg::CreatePrimarySale {
                total_supply: 1,
                start_time: 10,
                end_time: 20,
                price: vec![coin(10, "uusd")],
            }),
        )
        .unwrap();

    // buying before the window opens fails
    let buy = ExecuteMsg::Sales(SalesExecuteMsg::BuyItem(MintMsg {
        token_id: "s1".to_string(),
        owner: BUYER.to_string(),
        token_uri: None,
        extension: TokenMetadata {
            name: None,
            description: None,
            royalty_percentage: None,
            royalty_payment_address: None,
        },
    }));
    let err = modules.execute(&env_at(7), &info(BUYER, vec![coin(10, "uusd")]), buy).unwrap_err();
    assert_eq!(err, ContractError::InvalidState);

    // paying exactly the price inside the window mints and exhausts the sale
    let buy = ExecuteMsg::Sales(SalesExecuteMsg::BuyItem(MintMsg {
        token_id: "s1".to_string(),
        owner: BUYER.to_string(),
        token_uri: None,
        extension: TokenMetadata {
            name: None,
            description: None,
            royalty_percentage: None,
            royalty_payment_address: None,
        },
    }));
    modules.execute(&env_at(15), &info(BUYER, vec![coin(10, "uusd")]), buy).unwrap();
    assert_eq!(owner_of(&modules, "s1"), BUYER);

    let resp = modules.query(&env_at(15), QueryMsg::Sales(SalesQueryMsg::ActivePrimarySale)).unwrap();
    match resp {
        QueryResp::ActivePrimarySale(active) => assert!(active.is_none()),
        _ => panic!("unexpected response"),
    }
    let resp = modules.query(&env_at(15), QueryMsg::Sales(SalesQueryMsg::PrimarySales)).unwrap();
    match resp {
        QueryResp::PrimarySales(sales) => {
            assert_eq!(sales.len(), 1);
            assert!(sales[0].disabled);
            assert_eq!(sales[0].tokens_minted, 1);
        }
        _ => panic!("unexpected response"),
    }
}

#[test]
fn underpaying_a_sale_fails() {
    let mut modules = seat(OWNER);
    modules
        .execute(
            &env_at(7),
            &info(OWNER, vec![]),
            ExecuteMsg::Sales(SalesExecuteMsg::CreatePrimarySale {
                total_supply: 3,
                start_time: 5,
                end_time: 20,
                price: vec![coin(10, "uusd")],
            }),
        )
        .unwrap();
    let buy = ExecuteMsg::Sales(SalesExecuteMsg::BuyItem(MintMsg {
        token_id: "s1".to_string(),
        owner: BUYER.to_string(),
        token_uri: None,
        extension: TokenMetadata {
            name: None,
            description: None,
            royalty_percentage: None,
            royalty_payment_address: None,
        },
    }));
    let err = modules.execute(&env_at(7), &info(BUYER, vec![coin(9, "uusd")]), buy).unwrap_err();
    assert_eq!(err, ContractError::InsufficientFunds);
    let resp = modules.query(&env_at(7), QueryMsg::Sales(SalesQueryMsg::PrimarySales)).unwrap();
    match resp {
        QueryResp::PrimarySales(sales) => assert_eq!(sales[0].tokens_minted, 0),
        _ => panic!("unexpected response"),
    }
}

#[test]
fn halting_a_scheduled_sale_deactivates_it() {
    let mut modules = seat(OWNER);
    modules
        .execute(
            &env_at(7),
            &info(OWNER, vec![]),
            ExecuteMsg::Sales(SalesExecuteMsg::CreatePrimarySale {
                total_supply: 10,
                start_time: 100,
                end_time: 200,
                price: vec![coin(10, "uusd")],
            }),
        )
        .unwrap();
    modules
        .execute(&env_at(7), &info(OWNER, vec![]), ExecuteMsg::Sales(SalesExecuteMsg::HaltSale))
        .unwrap();
    // not active at any time, even inside the would-be window
    for t in [7u64, 100, 150, 200, 300] {
        let resp = modules.query(&env_at(t), QueryMsg::Sales(SalesQueryMsg::ActivePrimarySale)).unwrap();
        match resp {
            QueryResp::ActivePrimarySale(active) => assert!(active.is_none()),
            _ => panic!("unexpected response"),
        }
    }
}

#[test]
fn metadata_round_trip() {
    let mut modules = seat(OWNER);
    let record = metadata_record("updated record");
    modules
        .execute(
            &env_at(7),
            &info(OWNER, vec![]),
            ExecuteMsg::Metadata(MetadataExecuteMsg::SetMetadata(record.clone())),
        )
        .unwrap();
    let resp = modules.query(&env_at(7), QueryMsg::Metadata(MetadataQueryMsg::GetMetadata)).unwrap();
    match resp {
        QueryResp::Metadata(meta) => assert_eq!(meta, record),
        _ => panic!("unexpected response"),
    }
}

#[test]
fn duplicate_mint_fails() {
    let mut modules = seat(OWNER);
    mint(&mut modules, "1", OWNER);
    let msg = ExecuteMsg::SeatToken(TokenExecuteMsg::Mint(MintMsg {
        token_id: "1".to_string(),
        owner: OWNER.to_string(),
        token_uri: None,
        extension: TokenMetadata {
            name: None,
            description: None,
            royalty_percentage: None,
            royalty_payment_address: None,
        },
    }));
    let err = modules.execute(&env_at(7), &info(OWNER, vec![]), msg).unwrap_err();
    assert_eq!(err, ContractError::AlreadyExists);
}

#[test]
fn transfer_requires_authorization() {
    let mut modules = seat(OWNER);
    mint(&mut modules, "1", OWNER);
    let msg = ExecuteMsg::SeatToken(TokenExecuteMsg::TransferNft {
        recipient: BUYER.to_string(),
        token_id: "1".to_string(),
    });
    let err = modules.execute(&env_at(7), &info(BUYER, vec![]), msg).unwrap_err();
    assert_eq!(err, ContractError::Unauthorized);

    // approving the spender makes the transfer pass
    let approve = ExecuteMsg::SeatToken(TokenExecuteMsg::Approve {
        spender: BUYER.to_string(),
        token_id: "1".to_string(),
    });
    modules.execute(&env_at(7), &info(OWNER, vec![]), approve).unwrap();
    let msg = ExecuteMsg::SeatToken(TokenExecuteMsg::TransferNft {
        recipient: BUYER.to_string(),
        token_id: "1".to_string(),
    });
    modules.execute(&env_at(7), &info(BUYER, vec![]), msg).unwrap();
    assert_eq!(owner_of(&modules, "1"), BUYER);
}

#[test]
fn transfer_of_missing_token_fails() {
    let mut modules = seat(OWNER);
    let msg = ExecuteMsg::SeatToken(TokenExecuteMsg::TransferNft {
        recipient: BUYER.to_string(),
        token_id: "ghost".to_string(),
    });
    let err = modules.execute(&env_at(7), &info(OWNER, vec![]), msg).unwrap_err();
    assert_eq!(err, ContractError::NotFound);
}

#[test]
fn redeeming_twice_fails() {
    let mut modules = seat(OWNER);
    mint(&mut modules, "1", OWNER);
    let msg = ExecuteMsg::Redeemable(RedeemableExecuteMsg::RedeemItem("1".to_string()));
    modules.execute(&env_at(7), &info(OWNER, vec![]), msg).unwrap();
    let msg = ExecuteMsg::Redeemable(RedeemableExecuteMsg::RedeemItem("1".to_string()));
    let err = modules.execute(&env_at(7), &info(OWNER, vec![]), msg).unwrap_err();
    assert_eq!(err, ContractError::AlreadyExists);
}

#[test]
fn listed_tokens_paginate_ascending() {
    let mut modules = seat(OWNER);
    for id in ["c", "a", "d", "b"] {
        mint(&mut modules, id, OWNER);
    }
    // listings submitted out of order come back ascending by id
    list(&mut modules, vec![("c", 3), ("a", 1), ("d", 4), ("b", 2)]);
    let all = listed(&modules);
    let ids: Vec<&str> = all.iter().map(|l| l.token_id.as_str()).collect();
    assert_eq!(ids, vec!["a", "b", "c", "d"]);

    // a limited page, resumed with a cursor
    let resp = modules
        .query(
            &env_at(7),
            QueryMsg::Sellable(SellableQueryMsg::ListedTokens { start_after: None, limit: Some(2) }),
        )
        .unwrap();
    let page = match resp {
        QueryResp::ListedTokens(l) => l,
        _ => panic!("unexpected response"),
    };
    assert_eq!(page.len(), 2);
    assert_eq!(page[0].token_id, "a");
    assert_eq!(page[1].token_id, "b");
    let resp = modules
        .query(
            &env_at(7),
            QueryMsg::Sellable(SellableQueryMsg::ListedTokens {
                start_after: Some("b".to_string()),
                limit: Some(2),
            }),
        )
        .unwrap();
    let page = match resp {
        QueryResp::ListedTokens(l) => l,
        _ => panic!("unexpected response"),
    };
    assert_eq!(page.len(), 2);
    assert_eq!(page[0].token_id, "c");
    assert_eq!(page[1].token_id, "d");
}

#[test]
fn relisting_overwrites_the_price() {
    let mut modules = seat(OWNER);
    mint(&mut modules, "1", OWNER);
    list(&mut modules, vec![("1", 50)]);
    list(&mut modules, vec![("1", 75)]);
    let all = listed(&modules);
    assert_eq!(all.len(), 1);
    assert_eq!(all[0].price, 75);
}

#[test]
fn merge_concatenates_and_overwrites_data() {
    let mut base = Response::new();
    base.data = Some("base".to_string());
    let mut first = Response::new();
    first.messages.push(OutboundMsg::Send {
        to_address: "one".to_string(),
        amount: vec![coin(1, "u")],
    });
    first.data = Some("first".to_string());
    let mut second = Response::new();
    second.messages.push(OutboundMsg::Send {
        to_address: "two".to_string(),
        amount: vec![coin(2, "u")],
    });
    second.data = None;
    let merged = merge_responses(base, vec![first, second]);
    assert_eq!(merged.messages.len(), 2);
    match &merged.messages[0] {
        OutboundMsg::Send { to_address, .. } => assert_eq!(to_address, "one"),
        _ => panic!("unexpected message"),
    }
    match &merged.messages[1] {
        OutboundMsg::Send { to_address, .. } => assert_eq!(to_address, "two"),
        _ => panic!("unexpected message"),
    }
    // the data channel is last-writer-wins, not concatenated
    assert_eq!(merged.data, None);
}

#[test]
fn manager_rejects_unknown_modules() {
    let names = vec!["ownable".to_string(), "metadata".to_string()];
    let manager = get_manager(&names).unwrap();
    assert_eq!(
        manager.modules,
        vec![RegisteredModule::Ownable, RegisteredModule::Metadata]
    );

    let names = vec!["ownable".to_string(), "bogus".to_string()];
    let err = get_manager(&names).unwrap_err();
    assert_eq!(err, ManagerError::CustomError { val: "bogus".to_string() });
}

#[test]
fn migrate_requires_an_older_version() {
    let mut modules = seat(OWNER);
    // freshly instantiated state already runs the current version
    let err = modules.migrate(MigrateMsg { owner: BUYER.to_string() }).unwrap_err();
    assert_eq!(err, ContractError::InvalidState);

    // a state written by an older version migrates, rewriting the owner
    modules.version.version = SemVer { major: 0, minor: 0, patch: 1 };
    modules.migrate(MigrateMsg { owner: BUYER.to_string() }).unwrap();
    let resp = modules
        .query(&env_at(7), QueryMsg::Ownable(OwnableQueryMsg::IsOwner(BUYER.to_string())))
        .unwrap();
    match resp {
        QueryResp::IsOwner(b) => assert!(b),
        _ => panic!("unexpected response"),
    }
}

#[test]
fn instantiate_rejects_malformed_addresses() {
    let mut modules = SeatModules::new();
    let msg = InstantiateMsg {
        ownable: OwnableInit { owner: "".to_string() },
        metadata: MetadataInit { metadata: metadata_record("seat") },
        seat_token: seat_market::token::TokenInit {
            name: "Token".to_string(),
            symbol: "TKN".to_string(),
            minter: OWNER.to_string(),
        },
        redeemable: RedeemableInit { locked_items: vec![] },
        sellable: None,
        sales: SalesInit {},
        hub_contract: "hubhubhubhub".to_string(),
    };
    let err = modules.instantiate(&env_at(7), &info(OWNER, vec![]), msg).unwrap_err();
    assert_eq!(err, ContractError::Validation);
}

#[test]
fn hub_update_seat_contract_keeps_other_fields() {
    let mut modules = HubModules::default();
    let record = HubMetadata {
        name: "hub".to_string(),
        hub_url: "url".to_string(),
        description: "desc".to_string(),
        tags: vec!["tag".to_string()],
        social_links: vec![SocialLinks { name: "n".to_string(), url: "u".to_string() }],
        creator: OWNER.to_string(),
        thumbnail_image_url: "thumb".to_string(),
        banner_image_url: "banner".to_string(),
        seat_contract: None,
    };
    let msg = HubInstantiateMsg {
        ownable: OwnableInit { owner: OWNER.to_string() },
        metadata: MetadataInit { metadata: record.clone() },
    };
    let env = env_at(7);
    modules.instantiate(&env, &info(OWNER, vec![]), msg).unwrap();

    // a non-owner cannot update the linked seat contract
    let err = modules
        .execute(
            &env,
            &info(BUYER, vec![]),
            HubExecuteMsg::UpdateMetadata(MetadataField::SeatContract("seatseatseat".to_string())),
        )
        .unwrap_err();
    assert_eq!(err, ContractError::Unauthorized);

    modules
        .execute(
            &env,
            &info(OWNER, vec![]),
            HubExecuteMsg::UpdateMetadata(MetadataField::SeatContract("seatseatseat".to_string())),
        )
        .unwrap();
    let resp = modules.query(HubQueryMsg::Metadata(MetadataQueryMsg::GetMetadata)).unwrap();
    match resp {
        HubQueryResp::Metadata(meta) => {
            assert_eq!(meta.seat_contract, Some("seatseatseat".to_string()));
            assert_eq!(meta.name, record.name);
            assert_eq!(meta.tags, record.tags);
            assert_eq!(meta.social_links, record.social_links);
        }
        _ => panic!("unexpected response"),
    }
}

#[test]
fn hub_migrate_requires_an_older_version() {
    let mut modules = HubModules::default();
    let msg = HubInstantiateMsg {
        ownable: OwnableInit { owner: OWNER.to_string() },
        metadata: MetadataInit {
            metadata: HubMetadata {
                name: "hub".to_string(),
                hub_url: "url".to_string(),
                description: "desc".to_string(),
                tags: vec![],
                social_links: vec![],
                creator: OWNER.to_string(),
                thumbnail_image_url: "t".to_string(),
                banner_image_url: "b".to_string(),
                seat_contract: None,
            },
        },
    };
    modules.instantiate(&env_at(7), &info(OWNER, vec![]), msg).unwrap();
    let err = modules.migrate(HubMigrateMsg { owner: BUYER.to_string() }).unwrap_err();
    assert_eq!(err, ContractError::InvalidState);
    modules.version.version = SemVer { major: 0, minor: 0, patch: 9 };
    modules.migrate(HubMigrateMsg { owner: BUYER.to_string() }).unwrap();
    let resp = modules
        .query(HubQueryMsg::Ownable(OwnableQueryMsg::IsOwner(BUYER.to_string())))
        .unwrap();
    match resp {
        HubQueryResp::IsOwner(b) => assert!(b),
        _ => panic!("unexpected response"),
    }
}

#[test]
fn owner_tokens_respect_the_default_page_limit() {
    let mut modules = seat(OWNER);
    for i in 0..12u32 {
        mint(&mut modules, &format!("t{:02}", i), OWNER);
    }
    let resp = modules
        .query(
            &env_at(7),
            QueryMsg::SeatToken(TokenQueryMsg::Tokens {
                owner: OWNER.to_string(),
                start_after: None,
                limit: None,
            }),
        )
        .unwrap();
    match resp {
        QueryResp::OwnerTokens(ids) => {
            assert_eq!(ids.len(), 10);
            assert_eq!(ids[0], "t00");
            assert_eq!(ids[9], "t09");
        }
        _ => panic!("unexpected response"),
    }
    let resp = modules
        .query(
            &env_at(7),
            QueryMsg::SeatToken(TokenQueryMsg::Tokens {
                owner: OWNER.to_string(),
                start_after: Some("t09".to_string()),
                limit: None,
            }),
        )
        .unwrap();
    match resp {
        QueryResp::OwnerTokens(ids) => {
            assert_eq!(ids, vec!["t10".to_string(), "t11".to_string()]);
        }
        _ => panic!("unexpected response"),
    }
}

#[test]
fn all_seats_join_tokens_with_listings() {
    let mut modules = seat(OWNER);
    mint(&mut modules, "1", OWNER);
    mint(&mut modules, "2", OWNER);
    list(&mut modules, vec![("2", 40)]);
    let resp = modules.query(&env_at(7), QueryMsg::AllSeats).unwrap();
    match resp {
        QueryResp::AllSeats(rows) => {
            assert_eq!(rows.len(), 2);
            assert_eq!(rows[0].token_id, "1");
            assert_eq!(rows[0].listed_price, None);
            assert_eq!(rows[1].token_id, "2");
            assert_eq!(rows[1].listed_price, Some(40));
        }
        _ => panic!("unexpected response"),
    }
}

#[test]
fn creating_a_sale_over_an_active_one_fails() {
    let mut modules = seat(OWNER);
    modules
        .execute(
            &env_at(7),
            &info(OWNER, vec![]),
            ExecuteMsg::Sales(SalesExecuteMsg::CreatePrimarySale {
                total_supply: 10,
                start_time: 5,
                end_time: 20,
                price: vec![coin(10, "uusd")],
            }),
        )
        .unwrap();
    // the current sale is active at block time 10
    let err = modules
        .execute(
            &env_at(10),
            &info(OWNER, vec![]),
            ExecuteMsg::Sales(SalesExecuteMsg::CreatePrimarySale {
                total_supply: 10,
                start_time: 30,
                end_time: 40,
                price: vec![coin(10, "uusd")],
            }),
        )
        .unwrap_err();
    assert_eq!(err, ContractError::InvalidState);
    // after the window ends, a new sale may be created
    modules
        .execute(
            &env_at(21),
            &info(OWNER, vec![]),
            ExecuteMsg::Sales(SalesExecuteMsg::CreatePrimarySale {
                total_supply: 10,
                start_time: 30,
                end_time: 40,
                price: vec![coin(10, "uusd")],
            }),
        )
        .unwrap();
    let resp = modules.query(&env_at(21), QueryMsg::Sales(SalesQueryMsg::PrimarySales)).unwrap();
    match resp {
        QueryResp::PrimarySales(sales) => assert_eq!(sales.len(), 2),
        _ => panic!("unexpected response"),
    }
}
