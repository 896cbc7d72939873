//! The configuration store: the single persisted record of the contract.

use vstd::prelude::*;

verus! {

/// The immutable deployment parameters, written once at instantiation and
/// read by both handlers afterwards.
#[derive(Debug, Clone, PartialEq, Eq)]
pub struct Constants {
    /// Address of the trusted contract that is authorized to notify
    /// deposits and that receives asset-transfer requests.
    pub asset_registry: String,
    /// Identifier of the fungible token this contract mints and accepts.
    pub token_denom: String,
}

/// The mathematical value of a `Constants` record.
#[verifier::ext_equal]
pub struct ConstantsView {
    pub asset_registry: Seq<char>,
    pub token_denom: Seq<char>,
}

impl View for Constants {
    type V = ConstantsView;

    open spec fn view(&self) -> ConstantsView {
        ConstantsView { asset_registry: self.asset_registry@, token_denom: self.token_denom@ }
    }
}

/// A key-value capability over the single configuration record.
///
/// The host owns the real persistence; the library works against this
/// explicit store so that each invocation is a pure function of the
/// stored record and the request.
pub struct ConfigStore {
    constants: Option<Constants>,
}

impl View for ConfigStore {
    type V = Option<ConstantsView>;

    closed spec fn view(&self) -> Option<ConstantsView> {
        match self.constants {
            Some(c) => Some(c@),
            None => None,
        }
    }
}

impl ConfigStore {
    /// A fresh store with no configuration written yet.
    pub fn new() -> (s: Self)
        ensures
            s@ is None,
    {
        ConfigStore { constants: None }
    }

    /// Persists the configuration record, replacing any earlier one.
    pub fn save(&mut self, constants: Constants)
        ensures
            final(self)@ == Some(constants@),
    {
        self.constants = Some(constants);
    }

    /// Reads the configuration record back, if one was saved.
    pub fn get(&self) -> (r: Option<&Constants>)
        ensures
            r is Some <==> self@ is Some,
            r matches Some(c) ==> self@ == Some(c@),
    {
        match &self.constants {
            Some(c) => Some(c),
            None => None,
        }
    }
}

} // verus!
