//! Requests the host hands to the contract, and the effects and
//! attributes the contract hands back for the host to apply.

use vstd::prelude::*;

verus! {

/// The instantiation request: the deployment parameters to persist.
#[derive(Debug, Clone, PartialEq, Eq)]
pub struct InstantiateMsg {
    pub token_denom: String,
    pub asset_registry: String,
}

/// The mathematical value of an `InstantiateMsg`.
#[verifier::ext_equal]
pub struct InstantiateMsgView {
    pub token_denom: Seq<char>,
    pub asset_registry: Seq<char>,
}

impl View for InstantiateMsg {
    type V = InstantiateMsgView;

    open spec fn view(&self) -> InstantiateMsgView {
        InstantiateMsgView {
            token_denom: self.token_denom@,
            asset_registry: self.asset_registry@,
        }
    }
}

/// An operation request, dispatched by `contract::execute`.
#[derive(Debug, Clone, PartialEq, Eq)]
pub enum ExecuteMsg {
    /// Notification that an asset was deposited with this contract.
    Deposit {
        /// Claimed caller of the notification hook.
        origin: String,
        /// Address that owned the deposited asset.
        depositor: String,
        /// Identifier of the deposited asset.
        asset_id: String,
        /// Opaque callback payload; ignored by the handler.
        payload: Vec<u8>,
    },
    /// Request to return an asset in exchange for the attached payment.
    Redeem {
        /// Identifier of the asset to return.
        asset_id: String,
        /// Address that is to receive the asset.
        recipient: String,
    },
}

/// The mathematical value of an `ExecuteMsg`.
#[verifier::ext_equal]
pub enum ExecuteMsgView {
    Deposit { origin: Seq<char>, depositor: Seq<char>, asset_id: Seq<char>, payload: Seq<u8> },
    Redeem { asset_id: Seq<char>, recipient: Seq<char> },
}

impl View for ExecuteMsg {
    type V = ExecuteMsgView;

    open spec fn view(&self) -> ExecuteMsgView {
        match self {
            ExecuteMsg::Deposit { origin, depositor, asset_id, payload } => (
                ExecuteMsgView::Deposit {
                    origin: origin@,
                    depositor: depositor@,
                    asset_id: asset_id@,
                    payload: payload@,
                }
            ),
            ExecuteMsg::Redeem { asset_id, recipient } => (
                ExecuteMsgView::Redeem { asset_id: asset_id@, recipient: recipient@ }
            ),
        }
    }
}

/// One entry of the payment attached to a request by the host's native
/// value-transfer mechanism.
#[derive(Debug, Clone, PartialEq, Eq)]
pub struct Coin {
    pub denom: String,
    pub amount: u128,
}

/// The mathematical value of a `Coin`.
#[verifier::ext_equal]
pub struct CoinView {
    pub denom: Seq<char>,
    pub amount: u128,
}

impl View for Coin {
    type V = CoinView;

    open spec fn view(&self) -> CoinView {
        CoinView { denom: self.denom@, amount: self.amount }
    }
}

/// The values of a list of coins.
pub open spec fn coins_view(coins: Seq<Coin>) -> Seq<CoinView> {
    coins.map_values(|c: Coin| c@)
}

/// A requested external action, computed by a handler and executed by
/// the host after the invocation returns.
#[derive(Debug, Clone, PartialEq, Eq)]
pub enum Effect {
    /// Request to mint `amount` units of `denom` to `recipient`,
    /// issued from this contract's own address.
    MintRequest { issuer: String, recipient: String, denom: String, amount: u128 },
    /// Request to the registry at `target` to transfer the asset named
    /// `asset_id` to `recipient`.
    TransferRequest { target: String, asset_id: String, recipient: String },
}

/// The mathematical value of an `Effect`.
#[verifier::ext_equal]
pub enum EffectView {
    MintRequest { issuer: Seq<char>, recipient: Seq<char>, denom: Seq<char>, amount: u128 },
    TransferRequest { target: Seq<char>, asset_id: Seq<char>, recipient: Seq<char> },
}

impl View for Effect {
    type V = EffectView;

    open spec fn view(&self) -> EffectView {
        match self {
            Effect::MintRequest { issuer, recipient, denom, amount } => (
                EffectView::MintRequest {
                    issuer: issuer@,
                    recipient: recipient@,
                    denom: denom@,
                    amount: *amount,
                }
            ),
            Effect::TransferRequest { target, asset_id, recipient } => (
                EffectView::TransferRequest {
                    target: target@,
                    asset_id: asset_id@,
                    recipient: recipient@,
                }
            ),
        }
    }
}

/// A descriptive key-value pair attached to a successful outcome.
#[derive(Debug, Clone, PartialEq, Eq)]
pub struct Attribute {
    pub key: String,
    pub value: String,
}

/// The mathematical value of an `Attribute`.
#[verifier::ext_equal]
pub struct AttributeView {
    pub key: Seq<char>,
    pub value: Seq<char>,
}

impl View for Attribute {
    type V = AttributeView;

    open spec fn view(&self) -> AttributeView {
        AttributeView { key: self.key@, value: self.value@ }
    }
}

/// The outcome of a successful invocation: the effects the host is to
/// apply and the attributes describing what was done.
#[derive(Debug, Clone, PartialEq, Eq)]
pub struct Response {
    pub effects: Vec<Effect>,
    pub attributes: Vec<Attribute>,
}

/// The mathematical value of a `Response`.
#[verifier::ext_equal]
pub struct ResponseView {
    pub effects: Seq<EffectView>,
    pub attributes: Seq<AttributeView>,
}

impl View for Response {
    type V = ResponseView;

    open spec fn view(&self) -> ResponseView {
        ResponseView {
            effects: self.effects@.map_values(|e: Effect| e@),
            attributes: self.attributes@.map_values(|a: Attribute| a@),
        }
    }
}

} // verus!
