use asset_exchange::contract::{deposit, execute, instantiate, redeem};
use asset_exchange::error::ContractError;
use asset_exchange::msg::{Attribute, Coin, Effect, ExecuteMsg, InstantiateMsg};
use asset_exchange::state::{ConfigStore, Constants};

fn setup() -> ConfigStore {
    let mut store = ConfigStore::new();
    instantiate(
        &mut store,
        InstantiateMsg {
            token_denom: "upoint".to_string(),
            asset_registry: "addr1".to_string(),
        },
    );
    store
}

fn self_addr() -> String {
    "exchange".to_string()
}

#[test]
fn instantiate_persists_constants() {
    let store = setup();
    let stored = store.get().expect("constants must be persisted");
    assert_eq!(
        *stored,
        Constants {
            asset_registry: "addr1".to_string(),
            token_denom: "upoint".to_string(),
        }
    );
}

#[test]
fn instantiate_emits_no_effects_and_reports_parameters() {
    let mut store = ConfigStore::new();
    let resp = instantiate(
        &mut store,
        InstantiateMsg {
            token_denom: "upoint".to_string(),
            asset_registry: "addr1".to_string(),
        },
    );
    assert_eq!(resp.effects, vec![]);
    assert_eq!(
        resp.attributes,
        vec![
            Attribute { key: "action".to_string(), value: "initialisation".to_string() },
            Attribute { key: "asset_registry".to_string(), value: "addr1".to_string() },
            Attribute { key: "token_denom".to_string(), value: "upoint".to_string() },
        ]
    );
}

#[test]
fn deposit_from_registry_mints_one_token() {
    let store = setup();
    let resp = execute(
        &store,
        &self_addr(),
        ExecuteMsg::Deposit {
            origin: "addr1".to_string(),
            depositor: "userA".to_string(),
            asset_id: "42".to_string(),
            payload: vec![],
        },
        &vec![],
    )
    .expect("authorized deposit must succeed");
    assert_eq!(
        resp.effects,
        vec![Effect::MintRequest {
            issuer: "exchange".to_string(),
            recipient: "userA".to_string(),
            denom: "upoint".to_string(),
            amount: 1,
        }]
    );
    assert_eq!(
        resp.attributes,
        vec![
            Attribute { key: "action".to_string(), value: "mint".to_string() },
            Attribute { key: "recipient".to_string(), value: "userA".to_string() },
            Attribute { key: "asset_id".to_string(), value: "42".to_string() },
        ]
    );
}

#[test]
fn deposit_from_other_origin_is_unauthorized() {
    let store = setup();
    let err = execute(
        &store,
        &self_addr(),
        ExecuteMsg::Deposit {
            origin: "addr2".to_string(),
            depositor: "userA".to_string(),
            asset_id: "42".to_string(),
            payload: vec![],
        },
        &vec![],
    )
    .expect_err("a forged origin must be rejected");
    // A failed invocation returns no response at all, so no effect is
    // ever emitted on this path.
    assert_eq!(err, ContractError::Unauthorized);
}

#[test]
fn deposit_ignores_the_callback_payload() {
    let store = setup();
    let resp = deposit(
        &store,
        &self_addr(),
        &"addr1".to_string(),
        "userA".to_string(),
        "7".to_string(),
    )
    .expect("authorized deposit must succeed");
    let via_execute = execute(
        &store,
        &self_addr(),
        ExecuteMsg::Deposit {
            origin: "addr1".to_string(),
            depositor: "userA".to_string(),
            asset_id: "7".to_string(),
            payload: vec![1, 2, 3],
        },
        &vec![],
    )
    .expect("the payload must not affect the outcome");
    assert_eq!(resp, via_execute);
}

#[test]
fn redeem_with_matching_coin_requests_transfer() {
    let store = setup();
    let resp = execute(
        &store,
        &self_addr(),
        ExecuteMsg::Redeem { asset_id: "42".to_string(), recipient: "userB".to_string() },
        &vec![Coin { denom: "upoint".to_string(), amount: 1 }],
    )
    .expect("a single coin of the configured denom must be accepted");
    assert_eq!(
        resp.effects,
        vec![Effect::TransferRequest {
            target: "addr1".to_string(),
            asset_id: "42".to_string(),
            recipient: "userB".to_string(),
        }]
    );
    assert_eq!(resp.attributes, vec![]);
}

#[test]
fn redeem_with_no_coins_is_rejected() {
    let store = setup();
    let err = redeem(&store, "42".to_string(), "userB".to_string(), &vec![])
        .expect_err("an empty payment must be rejected");
    assert_eq!(
        err,
        ContractError::Validation { msg: "must send exactly one coin".to_string() }
    );
}

#[test]
fn redeem_with_two_coins_is_rejected() {
    let store = setup();
    let err = redeem(
        &store,
        "42".to_string(),
        "userB".to_string(),
        &vec![
            Coin { denom: "upoint".to_string(), amount: 1 },
            Coin { denom: "upoint".to_string(), amount: 1 },
        ],
    )
    .expect_err("two coins must be rejected even if each is correct");
    assert_eq!(
        err,
        ContractError::Validation { msg: "must send exactly one coin".to_string() }
    );
}

#[test]
fn redeem_with_wrong_denom_is_rejected() {
    let store = setup();
    let err = redeem(
        &store,
        "42".to_string(),
        "userB".to_string(),
        &vec![Coin { denom: "uother".to_string(), amount: 1 }],
    )
    .expect_err("a coin of another denom must be rejected");
    assert_eq!(
        err,
        ContractError::Validation { msg: "must send the correct token".to_string() }
    );
}

#[test]
fn redeem_accepts_any_amount_of_the_configured_denom() {
    // The amount of the attached payment is deliberately not checked:
    // only its denom is validated, so zero, one, five and the largest
    // representable amount are all accepted alike.
    let store = setup();
    let expected = vec![Effect::TransferRequest {
        target: "addr1".to_string(),
        asset_id: "42".to_string(),
        recipient: "userB".to_string(),
    }];
    for amount in [0u128, 1, 5, u128::MAX] {
        let resp = redeem(
            &store,
            "42".to_string(),
            "userB".to_string(),
            &vec![Coin { denom: "upoint".to_string(), amount }],
        )
        .expect("the amount must not be checked");
        assert_eq!(resp.effects, expected);
    }
}
