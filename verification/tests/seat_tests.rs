use seat_market::metadata::{MetadataInit, MetadataQueryMsg};
use seat_market::ownable::OwnableInit;
use seat_market::redeemable::{RedeemableExecuteMsg, RedeemableInit, RedeemableQueryMsg};
use seat_market::sales::{SalesExecuteMsg, SalesInit, SalesQueryMsg};
use seat_market::seat::{
    ExecuteMsg, ImageSettings, InstantiateMsg, QueryMsg, QueryResp, SeatBenefits, SeatMetadata,
    SeatModules,
};
use seat_market::sellable::{Listing, SellableExecuteMsg, SellableInit, SellableQueryMsg};
use seat_market::token::{MintMsg, TokenExecuteMsg, TokenInit, TokenMetadata, TokenQueryMsg};
use seat_market::types::{Coin, Env, MessageInfo};

const CREATOR: &str = "cosmos188rjfzzrdxlus60zgnrvs4rg0l73hct3azv93z";
const USER: &str = "burnt188rjfzzrdxlus60zgnrvs4rg0l73hct3mlvdpe";

fn mock_env() -> Env {
    Env {
        block_time: 1571797419,
        contract_address: "cosmos2contract".to_string(),
        native_denom: "ustake".to_string(),
    }
}

fn mock_info(sender: &str, funds: Vec<Coin>) -> MessageInfo {
    MessageInfo { sender: sender.to_string(), funds }
}

fn seat_metadata() -> SeatMetadata {
    SeatMetadata {
        name: "Kenny's contract".to_string(),
        image_uri: "image".to_string(),
        description: "description".to_string(),
        benefits: vec![SeatBenefits { name: "name".to_string(), status: "status".to_string() }],
        template_number: 1,
        image_settings: ImageSettings { seat_name: true, hub_name: true },
    }
}

fn instantiate_msg() -> InstantiateMsg {
    InstantiateMsg {
        ownable: OwnableInit { owner: CREATOR.to_string() },
        metadata: MetadataInit { metadata: seat_metadata() },
        seat_token: TokenInit {
            name: "Kenny's Token Contract".to_string(),
            symbol: "KNY".to_string(),
            minter: CREATOR.to_string(),
        },
        redeemable: RedeemableInit { locked_items: vec![] },
        sellable: Some(SellableInit { tokens: vec![] }),
        sales: SalesInit {},
        hub_contract: "cosmos188rjfzzrdxlus60zgnrvs4rg0l73hct3azv93z".to_string(),
    }
}

fn mint_extension() -> TokenMetadata {
    TokenMetadata {
        name: Some("".to_string()),
        description: Some("".to_string()),
        royalty_percentage: Some(0),
        royalty_payment_address: Some("".to_string()),
    }
}

#[test]
fn test_seat_module_instantiation() {
    let mut modules = SeatModules::new();
    let env = mock_env();
    let info = mock_info(CREATOR, vec![]);

    let res = modules.instantiate(&env, &info, instantiate_msg()).unwrap();
    assert_eq!(1, res.messages.len());

    // make sure seat contract metadata was created
    let res = modules.query(&env, QueryMsg::Metadata(MetadataQueryMsg::GetMetadata)).unwrap();
    match res {
        QueryResp::Metadata(meta) => {
            assert_eq!(meta, seat_metadata());
        }
        _ => panic!("unexpected response"),
    }

    let res = modules.query(&env, QueryMsg::SeatToken(TokenQueryMsg::NumTokens)).unwrap();
    match res {
        QueryResp::NumTokens(count) => {
            assert_eq!(count, 0);
        }
        _ => panic!("unexpected response"),
    }
}

#[test]
fn test_seat_module_tokens() {
    let mut modules = SeatModules::new();
    let env = mock_env();
    let info = mock_info(CREATOR, vec![]);

    let res = modules.instantiate(&env, &info, instantiate_msg()).unwrap();
    assert_eq!(1, res.messages.len());

    // mint a token
    for token_id in ["1", "2"] {
        let msg = ExecuteMsg::SeatToken(TokenExecuteMsg::Mint(MintMsg {
            token_id: token_id.to_string(),
            owner: CREATOR.to_string(),
            token_uri: Some("https://example.com".to_string()),
            extension: mint_extension(),
        }));
        modules.execute(&env, &info, msg).unwrap();
    }

    let res = modules.query(&env, QueryMsg::SeatToken(TokenQueryMsg::NumTokens)).unwrap();
    match res {
        QueryResp::NumTokens(count) => assert_eq!(count, 2),
        _ => panic!("unexpected response"),
    }

    // Get all listed tokens
    let listed_query =
        QueryMsg::Sellable(SellableQueryMsg::ListedTokens { start_after: None, limit: None });
    let res = modules.query(&env, listed_query).unwrap();
    match res {
        QueryResp::ListedTokens(listed) => assert_eq!(listed.len(), 0),
        _ => panic!("unexpected response"),
    }

    // List the token
    let msg = ExecuteMsg::Sellable(SellableExecuteMsg::List {
        listings: vec![
            Listing { token_id: "1".to_string(), price: 200 },
            Listing { token_id: "2".to_string(), price: 100 },
        ],
    });
    modules.execute(&env, &info, msg).unwrap();
    let listed_query =
        QueryMsg::Sellable(SellableQueryMsg::ListedTokens { start_after: None, limit: None });
    let res = modules.query(&env, listed_query).unwrap();
    match res {
        QueryResp::ListedTokens(listed) => assert_eq!(listed.len(), 2),
        _ => panic!("unexpected response"),
    }

    // buy a token: the cheapest covered listing is "2" at 100
    let buyer_info = mock_info("buyer", vec![Coin { denom: "ustake".to_string(), amount: 200 }]);
    modules.execute(&env, &buyer_info, ExecuteMsg::Sellable(SellableExecuteMsg::Buy)).unwrap();

    // Get all listed tokens
    let listed_query =
        QueryMsg::Sellable(SellableQueryMsg::ListedTokens { start_after: None, limit: None });
    let res = modules.query(&env, listed_query).unwrap();
    match res {
        QueryResp::ListedTokens(listed) => {
            assert_eq!(listed.len(), 1);
            assert_eq!(listed[0].token_id, "1");
            assert_eq!(listed[0].price, 200);
        }
        _ => panic!("unexpected response"),
    }

    // Lock the token
    let lock_msg = ExecuteMsg::Redeemable(RedeemableExecuteMsg::RedeemItem("1".to_string()));
    modules.execute(&env, &info, lock_msg).unwrap();
    // Confirm the token is locked
    let res = modules
        .query(&env, QueryMsg::Redeemable(RedeemableQueryMsg::IsRedeemed("1".to_string())))
        .unwrap();
    match res {
        QueryResp::IsRedeemed(redeemed) => assert_eq!(redeemed, true),
        _ => panic!("unexpected response"),
    }

    // buy a token with too small a payment
    let buyer_info = mock_info("buyer", vec![Coin { denom: "ustake".to_string(), amount: 10 }]);
    let buy_response = modules.execute(&env, &buyer_info, ExecuteMsg::Sellable(SellableExecuteMsg::Buy));
    assert!(buy_response.is_err());

    // Get all buyer owned tokens
    let res = modules
        .query(
            &env,
            QueryMsg::SeatToken(TokenQueryMsg::Tokens {
                owner: "buyer".to_string(),
                start_after: None,
                limit: None,
            }),
        )
        .unwrap();
    match res {
        QueryResp::OwnerTokens(tokens) => {
            assert_eq!(tokens.len(), 1);
            assert_eq!(tokens[0], "2");
        }
        _ => panic!("unexpected response"),
    }
}

#[test]
fn add_primary_sales() {
    let mut modules = SeatModules::new();
    let mut env = mock_env();
    let info = mock_info(CREATOR, vec![]);

    modules.instantiate(&env, &info, instantiate_msg()).expect("seat modules instantiated");

    // get all primary sales
    let res = modules.query(&env, QueryMsg::Sales(SalesQueryMsg::PrimarySales)).unwrap();
    match res {
        QueryResp::PrimarySales(sales) => assert_eq!(sales.len(), 0),
        _ => panic!("unexpected response"),
    }

    // create a primary sale
    let create_msg = || {
        ExecuteMsg::Sales(SalesExecuteMsg::CreatePrimarySale {
            total_supply: 1,
            start_time: 1674567586,
            end_time: 1675567587,
            price: vec![Coin { denom: "USDC".to_string(), amount: 10 }],
        })
    };
    // test creating a primary sale from an unauthorized address
    let fake_info = mock_info("hacker", vec![]);
    modules
        .execute(&env, &fake_info, create_msg())
        .expect_err("primary sales should not be added");
    modules.execute(&env, &info, create_msg()).expect("primary sales added");

    let res = modules.query(&env, QueryMsg::Sales(SalesQueryMsg::PrimarySales)).unwrap();
    match res {
        QueryResp::PrimarySales(sales) => assert_eq!(sales.len(), 1),
        _ => panic!("unexpected response"),
    }

    // set block time inside the sale window; the sale is now active
    env.block_time = 1674567586;
    let res = modules.query(&env, QueryMsg::Sales(SalesQueryMsg::ActivePrimarySale)).unwrap();
    match res {
        QueryResp::ActivePrimarySale(Some(sale)) => {
            assert_eq!(sale.start_time.to_string(), "1674567586")
        }
        _ => panic!("expected an active sale"),
    }

    // buy an item
    let buyer_info = mock_info(USER, vec![Coin { denom: "USDC".to_string(), amount: 20 }]);
    let buy_msg = ExecuteMsg::Sales(SalesExecuteMsg::BuyItem(MintMsg {
        token_id: "1".to_string(),
        owner: CREATOR.to_string(),
        token_uri: Some("url".to_string()),
        extension: TokenMetadata {
            name: None,
            description: None,
            royalty_percentage: None,
            royalty_payment_address: None,
        },
    }));
    modules.execute(&env, &buyer_info, buy_msg).expect("item bought");

    // the sale is exhausted: no sale is active, and the record is disabled
    let res = modules.query(&env, QueryMsg::Sales(SalesQueryMsg::ActivePrimarySale)).unwrap();
    match res {
        QueryResp::ActivePrimarySale(active) => assert!(active.is_none()),
        _ => panic!("unexpected response"),
    }
    let res = modules.query(&env, QueryMsg::Sales(SalesQueryMsg::PrimarySales)).unwrap();
    match res {
        QueryResp::PrimarySales(sales) => {
            assert_eq!(sales.len(), 1);
            assert_eq!(sales[0].disabled, true);
        }
        _ => panic!("unexpected response"),
    }

    // create a new primary sale
    env.block_time = 1676567587;
    let create_msg = ExecuteMsg::Sales(SalesExecuteMsg::CreatePrimarySale {
        total_supply: 1,
        start_time: 1676567587,
        end_time: 1677567587,
        price: vec![Coin { denom: "USDC".to_string(), amount: 10 }],
    });
    modules.execute(&env, &info, create_msg).expect("primary sales added");

    // the new sale is active
    let res = modules.query(&env, QueryMsg::Sales(SalesQueryMsg::ActivePrimarySale)).unwrap();
    match res {
        QueryResp::ActivePrimarySale(Some(sale)) => assert_eq!(sale.disabled, false),
        _ => panic!("expected an active sale"),
    }

    // halt ongoing primary sale
    modules
        .execute(&env, &info, ExecuteMsg::Sales(SalesExecuteMsg::HaltSale))
        .expect("any ongoing sale halted");

    // no sale is active any more, and the record is disabled
    let res = modules.query(&env, QueryMsg::Sales(SalesQueryMsg::ActivePrimarySale)).unwrap();
    match res {
        QueryResp::ActivePrimarySale(active) => assert!(active.is_none()),
        _ => panic!("unexpected response"),
    }
    let res = modules.query(&env, QueryMsg::Sales(SalesQueryMsg::PrimarySales)).unwrap();
    match res {
        QueryResp::PrimarySales(sales) => {
            assert_eq!(sales.len(), 2);
            assert_eq!(sales[1].disabled, true);
        }
        _ => panic!("unexpected response"),
    }
}
