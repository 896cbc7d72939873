//! The two handlers of the exchange state machine and the dispatcher
//! over operation requests.
//!
//! Each handler is a pure function of the stored configuration and the
//! request: it either returns the exact effect list the host is to
//! apply, or a structured error and no effects at all.

use vstd::prelude::*;

use crate::error::{ContractError, ErrorView};
use crate::msg::{
    coins_view, Attribute, AttributeView, Coin, CoinView, Effect, EffectView, ExecuteMsg,
    ExecuteMsgView, InstantiateMsg, InstantiateMsgView, Response, ResponseView,
};
use crate::state::{ConfigStore, Constants, ConstantsView};

verus! {

/// The mathematical value of a handler's outcome.
pub open spec fn result_view(r: Result<Response, ContractError>) -> Result<
    ResponseView,
    ErrorView,
> {
    match r {
        Ok(resp) => Ok(resp@),
        Err(e) => Err(e@),
    }
}

/// The configuration record that instantiation persists: the request's
/// fields exactly as given, with no normalization.
pub open spec fn spec_constants(msg: InstantiateMsgView) -> ConstantsView {
    ConstantsView { asset_registry: msg.asset_registry, token_denom: msg.token_denom }
}

/// The outcome of instantiation: no effects, and the informational
/// attributes describing the persisted configuration.
pub open spec fn spec_instantiate(msg: InstantiateMsgView) -> ResponseView {
    ResponseView {
        effects: Seq::empty(),
        attributes: seq![
            AttributeView { key: "action"@, value: "initialisation"@ },
            AttributeView { key: "asset_registry"@, value: msg.asset_registry },
            AttributeView { key: "token_denom"@, value: msg.token_denom },
        ],
    }
}

/// The outcome of the deposit handler.
///
/// If the claimed origin is not the configured registry the request is
/// unauthorized and nothing is emitted; otherwise exactly one mint
/// request for one unit of the configured token is emitted, addressed
/// to the depositor and issued from this contract's own address.
pub open spec fn spec_deposit(
    constants: ConstantsView,
    self_addr: Seq<char>,
    origin: Seq<char>,
    depositor: Seq<char>,
    asset_id: Seq<char>,
) -> Result<ResponseView, ErrorView> {
    if origin != constants.asset_registry {
        Err(ErrorView::Unauthorized)
    } else {
        Ok(
            ResponseView {
                effects: seq![
                    EffectView::MintRequest {
                        issuer: self_addr,
                        recipient: depositor,
                        denom: constants.token_denom,
                        amount: 1,
                    },
                ],
                attributes: seq![
                    AttributeView { key: "action"@, value: "mint"@ },
                    AttributeView { key: "recipient"@, value: depositor },
                    AttributeView { key: "asset_id"@, value: asset_id },
                ],
            },
        )
    }
}

/// The outcome of the redemption handler.
///
/// The attached payment must be exactly one coin of the configured
/// denomination; its amount is deliberately not checked. On success
/// exactly one transfer request to the configured registry is emitted,
/// asking it to transfer the named asset to the recipient.
pub open spec fn spec_redeem(
    constants: ConstantsView,
    asset_id: Seq<char>,
    recipient: Seq<char>,
    funds: Seq<CoinView>,
) -> Result<ResponseView, ErrorView> {
    if funds.len() != 1 {
        Err(ErrorView::Validation { msg: "must send exactly one coin"@ })
    } else if funds[0].denom != constants.token_denom {
        Err(ErrorView::Validation { msg: "must send the correct token"@ })
    } else {
        Ok(
            ResponseView {
                effects: seq![
                    EffectView::TransferRequest {
                        target: constants.asset_registry,
                        asset_id: asset_id,
                        recipient: recipient,
                    },
                ],
                attributes: Seq::empty(),
            },
        )
    }
}

/// The outcome of dispatching an operation request: a deposit goes to
/// the deposit handler (its payload is ignored), a redemption to the
/// redemption handler together with the attached payment.
pub open spec fn spec_execute(
    constants: ConstantsView,
    self_addr: Seq<char>,
    msg: ExecuteMsgView,
    funds: Seq<CoinView>,
) -> Result<ResponseView, ErrorView> {
    match msg {
        ExecuteMsgView::Deposit { origin, depositor, asset_id, payload: _ } => (
            spec_deposit(constants, self_addr, origin, depositor, asset_id)
        ),
        ExecuteMsgView::Redeem { asset_id, recipient } => (
            spec_redeem(constants, asset_id, recipient, funds)
        ),
    }
}

/// Persists the deployment parameters exactly as given and reports them
/// in the returned attributes. Called once by the host's instantiation
/// hook, before either handler can run.
pub fn instantiate(store: &mut ConfigStore, msg: InstantiateMsg) -> (r: Response)
    ensures
        final(store)@ == Some(spec_constants(msg@)),
        r@ == spec_instantiate(msg@),
{
    let constants = Constants {
        asset_registry: msg.asset_registry.clone(),
        token_denom: msg.token_denom.clone(),
    };
    store.save(constants);
    let effects: Vec<Effect> = Vec::new();
    let mut attributes: Vec<Attribute> = Vec::new();
    attributes.push(Attribute { key: "action".to_owned(), value: "initialisation".to_owned() });
    attributes.push(Attribute { key: "asset_registry".to_owned(), value: msg.asset_registry });
    attributes.push(Attribute { key: "token_denom".to_owned(), value: msg.token_denom });
    let r = Response { effects, attributes };
    proof {
        assert(r@ =~~= spec_instantiate(msg@));
    }
    r
}

/// The deposit handler: authenticates the claimed origin against the
/// configured registry and requests minting of one unit of the
/// configured token to the depositor.
pub fn deposit(
    store: &ConfigStore,
    self_addr: &String,
    origin: &String,
    depositor: String,
    asset_id: String,
) -> (r: Result<Response, ContractError>)
    requires
        store@ is Some,
    ensures
        result_view(r) == spec_deposit(
            store@->0,
            self_addr@,
            origin@,
            depositor@,
            asset_id@,
        ),
{
    let constants = store.get().unwrap();
    if *origin != constants.asset_registry {
        return Err(ContractError::Unauthorized);
    }
    let mut effects: Vec<Effect> = Vec::new();
    effects.push(
        Effect::MintRequest {
            issuer: self_addr.clone(),
            recipient: depositor.clone(),
            denom: constants.token_denom.clone(),
            amount: 1,
        },
    );
    let mut attributes: Vec<Attribute> = Vec::new();
    attributes.push(Attribute { key: "action".to_owned(), value: "mint".to_owned() });
    attributes.push(Attribute { key: "recipient".to_owned(), value: depositor });
    attributes.push(Attribute { key: "asset_id".to_owned(), value: asset_id });
    let resp = Response { effects, attributes };
    proof {
        assert(resp@ =~~= spec_deposit(
            store@->0,
            self_addr@,
            origin@,
            depositor@,
            asset_id@,
        )->Ok_0);
    }
    Ok(resp)
}

/// The redemption handler: validates the attached payment (exactly one
/// coin of the configured denomination; the amount is deliberately not
/// checked) and requests the registry to transfer the named asset to
/// the recipient. Any attached amount is retained at this contract's
/// address by the host's value-transfer semantics.
pub fn redeem(
    store: &ConfigStore,
    asset_id: String,
    recipient: String,
    attached_funds: &Vec<Coin>,
) -> (r: Result<Response, ContractError>)
    requires
        store@ is Some,
    ensures
        result_view(r) == spec_redeem(
            store@->0,
            asset_id@,
            recipient@,
            coins_view(attached_funds@),
        ),
{
    if attached_funds.len() != 1 {
        return Err(
            ContractError::Validation { msg: "must send exactly one coin".to_owned() },
        );
    }
    let constants = store.get().unwrap();
    if attached_funds[0].denom != constants.token_denom {
        return Err(
            ContractError::Validation { msg: "must send the correct token".to_owned() },
        );
    }
    let mut effects: Vec<Effect> = Vec::new();
    effects.push(
        Effect::TransferRequest {
            target: constants.asset_registry.clone(),
            asset_id: asset_id,
            recipient: recipient,
        },
    );
    let attributes: Vec<Attribute> = Vec::new();
    let resp = Response { effects, attributes };
    proof {
        assert(resp@ =~~= spec_redeem(
            store@->0,
            asset_id@,
            recipient@,
            coins_view(attached_funds@),
        )->Ok_0);
    }
    Ok(resp)
}

/// Dispatches an operation request to its handler. The store must hold
/// a configuration record: instantiation completes before the host
/// invokes either handler.
pub fn execute(
    store: &ConfigStore,
    self_addr: &String,
    msg: ExecuteMsg,
    attached_funds: &Vec<Coin>,
) -> (r: Result<Response, ContractError>)
    requires
        store@ is Some,
    ensures
        result_view(r) == spec_execute(
            store@->0,
            self_addr@,
            msg@,
            coins_view(attached_funds@),
        ),
{
    match msg {
        ExecuteMsg::Deposit { origin, depositor, asset_id, payload: _ } => {
            deposit(store, self_addr, &origin, depositor, asset_id)
        },
        ExecuteMsg::Redeem { asset_id, recipient } => {
            redeem(store, asset_id, recipient, attached_funds)
        },
    }
}

/// A deposit whose claimed origin differs from the configured registry
/// fails with `Unauthorized`; no response, and so no effect, is emitted.
pub proof fn lemma_deposit_unauthorized(
    constants: ConstantsView,
    self_addr: Seq<char>,
    origin: Seq<char>,
    depositor: Seq<char>,
    asset_id: Seq<char>,
)
    requires
        origin != constants.asset_registry,
    ensures
        spec_deposit(constants, self_addr, origin, depositor, asset_id) == Err::<
            ResponseView,
            ErrorView,
        >(ErrorView::Unauthorized),
{
}

/// A deposit whose claimed origin equals the configured registry
/// succeeds, for every depositor and asset, and emits exactly one mint
/// request: one unit of the configured token to the depositor.
pub proof fn lemma_deposit_authorized(
    constants: ConstantsView,
    self_addr: Seq<char>,
    origin: Seq<char>,
    depositor: Seq<char>,
    asset_id: Seq<char>,
)
    requires
        origin == constants.asset_registry,
    ensures
        spec_deposit(constants, self_addr, origin, depositor, asset_id) is Ok,
        spec_deposit(constants, self_addr, origin, depositor, asset_id)->Ok_0.effects == seq![
            (EffectView::MintRequest {
                issuer: self_addr,
                recipient: depositor,
                denom: constants.token_denom,
                amount: 1,
            }),
        ],
{
}

/// A redemption whose attached payment is not exactly one coin fails
/// with a validation error; no response, and so no effect, is emitted.
pub proof fn lemma_redeem_wrong_count(
    constants: ConstantsView,
    asset_id: Seq<char>,
    recipient: Seq<char>,
    funds: Seq<CoinView>,
)
    requires
        funds.len() != 1,
    ensures
        spec_redeem(constants, asset_id, recipient, funds) == Err::<ResponseView, ErrorView>(
            (ErrorView::Validation { msg: "must send exactly one coin"@ }),
        ),
{
}

/// A redemption whose single attached coin is of the wrong denomination
/// fails with a validation error; no effect is emitted.
pub proof fn lemma_redeem_wrong_denom(
    constants: ConstantsView,
    asset_id: Seq<char>,
    recipient: Seq<char>,
    funds: Seq<CoinView>,
)
    requires
        funds.len() == 1,
        funds[0].denom != constants.token_denom,
    ensures
        spec_redeem(constants, asset_id, recipient, funds) == Err::<ResponseView, ErrorView>(
            (ErrorView::Validation { msg: "must send the correct token"@ }),
        ),
{
}

/// A redemption whose single attached coin is of the configured
/// denomination succeeds whatever its amount — the amount is
/// deliberately not checked — and emits exactly one transfer request:
/// the named asset to the recipient, addressed to the registry.
pub proof fn lemma_redeem_accepted(
    constants: ConstantsView,
    asset_id: Seq<char>,
    recipient: Seq<char>,
    funds: Seq<CoinView>,
)
    requires
        funds.len() == 1,
        funds[0].denom == constants.token_denom,
    ensures
        spec_redeem(constants, asset_id, recipient, funds) is Ok,
        spec_redeem(constants, asset_id, recipient, funds)->Ok_0.effects == seq![
            (EffectView::TransferRequest {
                target: constants.asset_registry,
                asset_id: asset_id,
                recipient: recipient,
            }),
        ],
{
}

} // verus!
