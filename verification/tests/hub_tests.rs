use seat_market::hub::{
    HubInstantiateMsg, HubMetadata, HubModules, HubQueryMsg, HubQueryResp, SocialLinks,
};
use seat_market::metadata::{MetadataInit, MetadataQueryMsg};
use seat_market::ownable::{OwnableInit, OwnableQueryMsg};
use seat_market::types::{Coin, Env, MessageInfo};

const CREATOR: &str = "CREATOR";

fn mock_env() -> Env {
    Env {
        block_time: 1571797419,
        contract_address: "cosmos2contract".to_string(),
        native_denom: "ustake".to_string(),
    }
}

fn mock_info(sender: &str, funds: Vec<Coin>) -> MessageInfo {
    MessageInfo { sender: sender.to_string(), funds }
}

fn hub_metadata() -> HubMetadata {
    HubMetadata {
        name: "Kenny's contract".to_string(),
        hub_url: "find me here".to_string(),
        description: "Awesome Hub".to_string(),
        tags: vec!["awesome".to_string(), "wild".to_string()],
        social_links: vec![SocialLinks {
            name: "discord".to_string(),
            url: "discord link here".to_string(),
        }],
        creator: CREATOR.to_string(),
        thumbnail_image_url: "image link here".to_string(),
        banner_image_url: "image link here".to_string(),
        seat_contract: None,
    }
}

// make sure ownable module is instantiated
#[test]
fn test_ownable_module() {
    let mut modules = HubModules::default();
    let msg = HubInstantiateMsg {
        metadata: MetadataInit { metadata: hub_metadata() },
        ownable: OwnableInit { owner: CREATOR.to_string() },
    };
    let env = mock_env();
    let info = mock_info(CREATOR, vec![]);

    let res = modules.instantiate(&env, &info, msg).unwrap();
    assert_eq!(0, res.messages.len());

    let res = modules
        .query(HubQueryMsg::Ownable(OwnableQueryMsg::IsOwner(CREATOR.to_string())))
        .unwrap();
    match res {
        HubQueryResp::IsOwner(owner) => {
            assert_eq!(owner, true);
        }
        _ => panic!("unexpected response"),
    }
}

#[test]
fn test_metadata_module() {
    let mut modules = HubModules::default();
    let msg = HubInstantiateMsg {
        ownable: OwnableInit { owner: CREATOR.to_string() },
        metadata: MetadataInit { metadata: hub_metadata() },
    };
    let env = mock_env();
    let info = mock_info(CREATOR, vec![]);

    let res = modules.instantiate(&env, &info, msg).unwrap();
    assert_eq!(0, res.messages.len());

    let res = modules.query(HubQueryMsg::Metadata(MetadataQueryMsg::GetMetadata)).unwrap();
    match res {
        HubQueryResp::Metadata(meta) => {
            assert_eq!(meta, hub_metadata());
        }
        _ => panic!("unexpected response"),
    }
}
