//! Scenario tests of the workflow engine: starting a listing, resuming
//! from completion notifications, and the error surface.

use cosmos_sdk_proto::cosmos::gov::v1beta1::{MsgSubmitProposal, TextProposal};
use cosmos_sdk_proto::traits::Message;
use listing_engine::asset::{Asset, AssetInfo};
use listing_engine::contract::{
    execute, instantiate, list_token, migrate, query, read_attr, reply, CREATE_PAIR_REPLY_ID,
    CREATE_PROPOSAL_REPLY_ID, INSTANTIATE_REPLY_ID,
};
use listing_engine::error::ContractError;
use listing_engine::msg::{
    Cw20Coin, ExecuteMsg, InstantiateMarketingInfo, InstantiateMsg, ListTokenMsg, MigrateMsg,
    MinterResponse, QueryMsg,
};
use listing_engine::response::{
    Attribute, CosmosMsg, Event, FactoryMsg, Reply, ReplyOn, SubMsgResponse, SubMsgResult,
};
use listing_engine::state::{config_update, token_addr_read, Store};

fn init_store() -> Store {
    let mut store = Store::new();
    instantiate(
        &mut store,
        "owner".to_string(),
        InstantiateMsg { cw20_code_id: 99, factory_addr: "factory".to_string() },
    )
    .unwrap();
    store
}

fn new_token_request() -> ListTokenMsg {
    ListTokenMsg {
        targeted_asset_info: None,
        symbol: Some("GOLD".to_string()),
        name: None,
        initial_balances: None,
        cw20_admin: None,
        liquidity_pool_reward_assets: vec![
            Asset { info: AssetInfo::NativeToken { denom: "orai".to_string() }, amount: 100 },
        ],
        label: None,
        mint: None,
        marketing: None,
        pair_asset_info: AssetInfo::NativeToken { denom: "orai".to_string() },
    }
}

fn success_reply(id: u64, attrs: &[(&str, &str)]) -> Reply {
    let attributes = attrs
        .iter()
        .map(|(k, v)| Attribute { key: k.to_string(), value: v.to_string() })
        .collect();
    Reply {
        id,
        result: SubMsgResult::Success(SubMsgResponse {
            events: vec![Event { ty: "wasm".to_string(), attributes }],
        }),
    }
}

#[test]
fn start_listing_persists_context_and_emits_creation() {
    let mut store = init_store();
    let resp = list_token(&mut store, "alice".to_string(), new_token_request()).unwrap();

    let ctx = store.context.as_ref().unwrap();
    assert_eq!(ctx.proposer, "alice");
    assert_eq!(ctx.reward_assets.len(), 1);
    assert!(matches!(
        &ctx.reward_assets[0].info,
        AssetInfo::NativeToken { denom } if denom == "orai"
    ));
    assert_eq!(ctx.reward_assets[0].amount, 100);

    assert_eq!(resp.messages.len(), 1);
    assert_eq!(resp.messages[0].id, INSTANTIATE_REPLY_ID);
    assert!(matches!(resp.messages[0].reply_on, ReplyOn::Always));
    match &resp.messages[0].msg {
        CosmosMsg::WasmInstantiate { code_id, admin, label, token_init } => {
            assert_eq!(*code_id, 99);
            assert!(admin.is_none());
            assert_eq!(label, "Production Cw20 GOLD token");
            assert_eq!(token_init.name, "GOLD token");
            assert_eq!(token_init.symbol, "GOLD");
            assert_eq!(token_init.decimals, 6);
            assert!(token_init.initial_balances.is_empty());
        }
        other => panic!("unexpected message: {:?}", msg_kind(other)),
    }
}

fn msg_kind(m: &CosmosMsg) -> &'static str {
    match m {
        CosmosMsg::WasmInstantiate { .. } => "WasmInstantiate",
        CosmosMsg::WasmExecute { .. } => "WasmExecute",
        CosmosMsg::Stargate { .. } => "Stargate",
    }
}

#[test]
fn execute_dispatches_list_token() {
    let mut store = init_store();
    let resp = execute(
        &mut store,
        "alice".to_string(),
        ExecuteMsg::ListToken(new_token_request()),
    )
    .unwrap();
    assert_eq!(resp.messages.len(), 1);
    assert_eq!(resp.messages[0].id, INSTANTIATE_REPLY_ID);
    assert!(store.context.is_some());
}

#[test]
fn direct_listing_skips_token_creation() {
    let mut store = init_store();
    let mut msg = new_token_request();
    msg.targeted_asset_info = Some(AssetInfo::Token { contract_addr: "oraiTOK".to_string() });
    let resp = list_token(&mut store, "alice".to_string(), msg).unwrap();

    // no completion is tracked for this path, and no context is written
    assert!(store.context.is_none());
    assert_eq!(resp.messages.len(), 1);
    assert_eq!(resp.messages[0].id, 0);
    assert!(matches!(resp.messages[0].reply_on, ReplyOn::Never));
    match &resp.messages[0].msg {
        CosmosMsg::WasmExecute { contract_addr, factory_msg } => {
            assert_eq!(contract_addr, "factory");
            let FactoryMsg::CreatePair { asset_infos, pair_admin } = factory_msg;
            assert!(matches!(
                &asset_infos.0,
                AssetInfo::Token { contract_addr } if contract_addr == "oraiTOK"
            ));
            assert!(matches!(
                &asset_infos.1,
                AssetInfo::NativeToken { denom } if denom == "orai"
            ));
            assert_eq!(pair_admin.as_deref(), Some("factory"));
        }
        other => panic!("unexpected message: {:?}", msg_kind(other)),
    }
}

#[test]
fn listing_without_symbol_is_invalid() {
    let mut store = init_store();
    let mut msg = new_token_request();
    msg.symbol = None;
    let err = list_token(&mut store, "alice".to_string(), msg).unwrap_err();
    assert!(matches!(err, ContractError::InvalidRequest));
    assert!(store.context.is_none());
}

#[test]
fn listing_without_config_is_storage_error() {
    let mut store = Store::new();
    let err = list_token(&mut store, "alice".to_string(), new_token_request()).unwrap_err();
    assert!(matches!(err, ContractError::StorageError));
}

#[test]
fn token_created_resumption_emits_pair_creation() {
    let mut store = init_store();
    list_token(&mut store, "alice".to_string(), new_token_request()).unwrap();

    let resp = reply(
        &mut store,
        success_reply(INSTANTIATE_REPLY_ID, &[("_contract_address", "oraiNEW")]),
    )
    .unwrap();

    assert_eq!(store.token_addr.as_deref(), Some("oraiNEW"));
    assert_eq!(token_addr_read(&store).unwrap(), "oraiNEW");
    assert_eq!(resp.messages.len(), 1);
    assert_eq!(resp.messages[0].id, CREATE_PAIR_REPLY_ID);
    assert!(matches!(resp.messages[0].reply_on, ReplyOn::Always));
    match &resp.messages[0].msg {
        CosmosMsg::WasmExecute { contract_addr, factory_msg } => {
            assert_eq!(contract_addr, "factory");
            let FactoryMsg::CreatePair { asset_infos, .. } = factory_msg;
            assert!(matches!(
                &asset_infos.1,
                AssetInfo::Token { contract_addr } if contract_addr == "oraiNEW"
            ));
        }
        other => panic!("unexpected message: {:?}", msg_kind(other)),
    }
    assert_eq!(resp.attributes.len(), 1);
    assert_eq!(resp.attributes[0].key, "cw20_address");
    assert_eq!(resp.attributes[0].value, "oraiNEW");
}

#[test]
fn missing_contract_address_attribute_fails() {
    let mut store = init_store();
    list_token(&mut store, "alice".to_string(), new_token_request()).unwrap();

    let err = reply(
        &mut store,
        success_reply(INSTANTIATE_REPLY_ID, &[("unrelated", "zzz")]),
    )
    .unwrap_err();

    assert!(matches!(
        &err,
        ContractError::MissingAttribute { name } if name == "_contract_address"
    ));
    // no outbound call was made and nothing was persisted
    assert!(store.token_addr.is_none());
}

#[test]
fn pair_created_resumption_emits_proposal() {
    let mut store = init_store();
    list_token(&mut store, "alice".to_string(), new_token_request()).unwrap();

    let resp = reply(
        &mut store,
        success_reply(
            CREATE_PAIR_REPLY_ID,
            &[("liquidity_token_addr", "oraiLP"), ("pair", "orai-oraiNEW")],
        ),
    )
    .unwrap();

    assert_eq!(resp.messages.len(), 1);
    assert_eq!(resp.messages[0].id, CREATE_PROPOSAL_REPLY_ID);
    assert!(matches!(resp.messages[0].reply_on, ReplyOn::Error));
    match &resp.messages[0].msg {
        CosmosMsg::Stargate { type_url, value } => {
            assert_eq!(type_url, "/cosmos.gov.v1beta1.MsgSubmitProposal");
            let outer = MsgSubmitProposal::decode(value.as_slice()).unwrap();
            // the proposer is the caller that started the workflow
            assert_eq!(outer.proposer, "alice");
            let inner = TextProposal::decode(outer.content.unwrap().value.as_slice()).unwrap();
            // the managed token is the suffix of the pair attribute
            assert!(inner.title.contains("oraiNEW"));
            assert!(inner.description.contains("oraiNEW"));
            assert!(inner.description.contains("oraiLP"));
            assert!(inner.description.contains("orai 100"));
        }
        other => panic!("unexpected message: {:?}", msg_kind(other)),
    }
    assert_eq!(resp.attributes.len(), 1);
    assert_eq!(resp.attributes[0].key, "action");
    assert_eq!(resp.attributes[0].value, "create_new_token_listing_proposal");
}

#[test]
fn completion_sequence_description_names_addresses() {
    let mut store = init_store();
    list_token(&mut store, "alice".to_string(), new_token_request()).unwrap();
    reply(&mut store, success_reply(INSTANTIATE_REPLY_ID, &[("_contract_address", "A")]))
        .unwrap();
    let resp = reply(
        &mut store,
        success_reply(
            CREATE_PAIR_REPLY_ID,
            &[("liquidity_token_addr", "L"), ("pair", "A-B")],
        ),
    )
    .unwrap();
    match &resp.messages[0].msg {
        CosmosMsg::Stargate { value, .. } => {
            let outer = MsgSubmitProposal::decode(value.as_slice()).unwrap();
            let inner = TextProposal::decode(outer.content.unwrap().value.as_slice()).unwrap();
            assert!(inner.description.contains("A"));
            assert!(inner.description.contains("L"));
            // the factory names a pair `<counter>-<token>`, so the
            // managed token the description names is the suffix
            assert!(inner.description.contains("B"));
        }
        other => panic!("unexpected message: {:?}", msg_kind(other)),
    }
}

#[test]
fn pair_value_without_separator_is_used_whole() {
    let mut store = init_store();
    list_token(&mut store, "alice".to_string(), new_token_request()).unwrap();
    let resp = reply(
        &mut store,
        success_reply(
            CREATE_PAIR_REPLY_ID,
            &[("liquidity_token_addr", "oraiLP"), ("pair", "nodash")],
        ),
    )
    .unwrap();
    match &resp.messages[0].msg {
        CosmosMsg::Stargate { value, .. } => {
            let outer = MsgSubmitProposal::decode(value.as_slice()).unwrap();
            let inner = TextProposal::decode(outer.content.unwrap().value.as_slice()).unwrap();
            assert!(inner
                .title
                .ends_with("Listing new LP mining pool of token nodash"));
        }
        other => panic!("unexpected message: {:?}", msg_kind(other)),
    }
}

#[test]
fn pair_created_missing_attributes_fail_in_order() {
    let mut store = init_store();
    list_token(&mut store, "alice".to_string(), new_token_request()).unwrap();

    let err = reply(
        &mut store,
        success_reply(CREATE_PAIR_REPLY_ID, &[("pair", "orai-x")]),
    )
    .unwrap_err();
    assert!(matches!(
        &err,
        ContractError::MissingAttribute { name } if name == "liquidity_token_addr"
    ));

    let err = reply(
        &mut store,
        success_reply(CREATE_PAIR_REPLY_ID, &[("liquidity_token_addr", "oraiLP")]),
    )
    .unwrap_err();
    assert!(matches!(
        &err,
        ContractError::MissingAttribute { name } if name == "pair"
    ));
}

#[test]
fn proposal_submitted_resumption_is_terminal() {
    let mut store = init_store();
    let resp = reply(&mut store, success_reply(CREATE_PROPOSAL_REPLY_ID, &[])).unwrap();
    assert!(resp.messages.is_empty());
    assert!(resp.attributes.is_empty());
}

#[test]
fn unknown_correlation_fails_without_state_change() {
    let mut store = init_store();
    list_token(&mut store, "alice".to_string(), new_token_request()).unwrap();

    let err = reply(&mut store, success_reply(99, &[("_contract_address", "x")])).unwrap_err();
    assert!(matches!(err, ContractError::UnknownCorrelation { id: 99 }));

    let err = reply(
        &mut store,
        Reply { id: 99, result: SubMsgResult::Failure("boom".to_string()) },
    )
    .unwrap_err();
    assert!(matches!(err, ContractError::UnknownCorrelation { id: 99 }));

    // persisted state is untouched at every phase
    assert!(store.token_addr.is_none());
    let ctx = store.context.as_ref().unwrap();
    assert_eq!(ctx.proposer, "alice");
}

#[test]
fn step_failures_surface_step_and_reason() {
    let mut store = init_store();
    list_token(&mut store, "alice".to_string(), new_token_request()).unwrap();

    let cases = [
        (INSTANTIATE_REPLY_ID, "token_created"),
        (CREATE_PAIR_REPLY_ID, "pair_created"),
        (CREATE_PROPOSAL_REPLY_ID, "proposal_submitted"),
    ];
    for (id, step_name) in cases {
        let err = reply(
            &mut store,
            Reply { id, result: SubMsgResult::Failure("collaborator failed".to_string()) },
        )
        .unwrap_err();
        assert!(matches!(
            &err,
            ContractError::StepFailed { step, reason }
                if step == step_name && reason == "collaborator failed"
        ));
    }
    assert!(store.token_addr.is_none());
}

#[test]
fn restart_overwrites_context_and_stray_completion_uses_it() {
    let mut store = init_store();
    list_token(&mut store, "alice".to_string(), new_token_request()).unwrap();

    // a second workflow starts before the first one's completion arrives
    let mut second = new_token_request();
    second.symbol = Some("SILV".to_string());
    second.pair_asset_info = AssetInfo::NativeToken { denom: "atom".to_string() };
    second.liquidity_pool_reward_assets =
        vec![Asset { info: AssetInfo::NativeToken { denom: "atom".to_string() }, amount: 7 }];
    list_token(&mut store, "bob".to_string(), second).unwrap();

    let ctx = store.context.as_ref().unwrap();
    assert_eq!(ctx.proposer, "bob");
    assert!(matches!(
        &ctx.pair_asset_info,
        AssetInfo::NativeToken { denom } if denom == "atom"
    ));

    // the stray completion for the first workflow resumes with the
    // latest context: no panic, and the pair carries the new counter
    let resp = reply(
        &mut store,
        success_reply(INSTANTIATE_REPLY_ID, &[("_contract_address", "oraiNEW")]),
    )
    .unwrap();
    match &resp.messages[0].msg {
        CosmosMsg::WasmExecute { factory_msg, .. } => {
            let FactoryMsg::CreatePair { asset_infos, .. } = factory_msg;
            assert!(matches!(
                &asset_infos.0,
                AssetInfo::NativeToken { denom } if denom == "atom"
            ));
        }
        other => panic!("unexpected message: {:?}", msg_kind(other)),
    }
}

#[test]
fn token_created_without_config_is_storage_error() {
    let mut store = Store::new();
    let err = reply(
        &mut store,
        success_reply(INSTANTIATE_REPLY_ID, &[("_contract_address", "oraiNEW")]),
    )
    .unwrap_err();
    assert!(matches!(err, ContractError::StorageError));
    assert!(store.token_addr.is_none());
}

#[test]
fn token_created_without_context_is_storage_error() {
    let mut store = init_store();
    let err = reply(
        &mut store,
        success_reply(INSTANTIATE_REPLY_ID, &[("_contract_address", "oraiNEW")]),
    )
    .unwrap_err();
    assert!(matches!(err, ContractError::StorageError));
    assert!(store.token_addr.is_none());
}

#[test]
fn pair_created_without_context_is_storage_error() {
    let mut store = init_store();
    let err = reply(
        &mut store,
        success_reply(
            CREATE_PAIR_REPLY_ID,
            &[("liquidity_token_addr", "oraiLP"), ("pair", "orai-x")],
        ),
    )
    .unwrap_err();
    assert!(matches!(err, ContractError::StorageError));
}

#[test]
fn requested_name_label_and_passthroughs_are_kept() {
    let mut store = init_store();
    let mut msg = new_token_request();
    msg.name = Some("My Gold".to_string());
    msg.label = Some("gold-pool".to_string());
    msg.cw20_admin = Some("admin1".to_string());
    msg.initial_balances = Some(vec![Cw20Coin { address: "holder".to_string(), amount: 42 }]);
    msg.mint = Some(MinterResponse { minter: "minter1".to_string(), cap: Some(1000) });
    msg.marketing = Some(InstantiateMarketingInfo {
        project: Some("gold".to_string()),
        description: None,
        marketing: None,
        logo: None,
    });
    let resp = list_token(&mut store, "alice".to_string(), msg).unwrap();
    match &resp.messages[0].msg {
        CosmosMsg::WasmInstantiate { admin, label, token_init, .. } => {
            assert_eq!(admin.as_deref(), Some("admin1"));
            assert_eq!(label, "gold-pool");
            assert_eq!(token_init.name, "My Gold");
            assert_eq!(token_init.initial_balances.len(), 1);
            assert_eq!(token_init.initial_balances[0].address, "holder");
            assert_eq!(token_init.initial_balances[0].amount, 42);
            assert_eq!(token_init.mint.as_ref().unwrap().minter, "minter1");
            assert_eq!(token_init.mint.as_ref().unwrap().cap, Some(1000));
            assert_eq!(token_init.marketing.as_ref().unwrap().project.as_deref(), Some("gold"));
        }
        other => panic!("unexpected message: {:?}", msg_kind(other)),
    }
}

#[test]
fn config_update_without_config_is_storage_error() {
    let mut store = Store::new();
    let err = config_update(&mut store, Some("x".to_string()), None, None).unwrap_err();
    assert!(matches!(err, ContractError::StorageError));
}

#[test]
fn read_attr_first_occurrence_wins() {
    let response = SubMsgResponse {
        events: vec![
            Event {
                ty: "a".to_string(),
                attributes: vec![
                    Attribute { key: "k".to_string(), value: "first".to_string() },
                    Attribute { key: "k".to_string(), value: "second".to_string() },
                ],
            },
            Event {
                ty: "b".to_string(),
                attributes: vec![Attribute { key: "k".to_string(), value: "third".to_string() }],
            },
        ],
    };
    assert_eq!(read_attr("k", &response).unwrap(), "first");
    let err = read_attr("absent", &response).unwrap_err();
    assert!(matches!(&err, ContractError::MissingAttribute { name } if name == "absent"));
}

#[test]
fn query_returns_config() {
    let store = init_store();
    let config = query(&store, QueryMsg::Config {}).unwrap();
    assert_eq!(config.owner, "owner");
    assert_eq!(config.cw20_code_id, 99);
    assert_eq!(config.factory_addr, "factory");
}

#[test]
fn config_update_changes_only_given_fields() {
    let mut store = init_store();
    let updated = config_update(&mut store, None, Some(7), None).unwrap();
    assert_eq!(updated.owner, "owner");
    assert_eq!(updated.cw20_code_id, 7);
    assert_eq!(updated.factory_addr, "factory");
    let config = query(&store, QueryMsg::Config {}).unwrap();
    assert_eq!(config.cw20_code_id, 7);
}

#[test]
fn migrate_is_a_no_op() {
    let mut store = init_store();
    let resp = migrate(&mut store, MigrateMsg {}).unwrap();
    assert!(resp.messages.is_empty());
    assert!(resp.attributes.is_empty());
    assert!(store.config.is_some());
}

#[test]
fn error_messages_name_the_cause() {
    let e = ContractError::MissingAttribute { name: "pair".to_string() };
    assert_eq!(e.message(), "missing attribute: pair");
    let e = ContractError::StepFailed {
        step: "pair_created".to_string(),
        reason: "boom".to_string(),
    };
    assert_eq!(e.message(), "step pair_created failed: boom");
}
