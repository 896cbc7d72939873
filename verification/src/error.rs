//! The error taxonomy of the contract. Every error is terminal for the
//! invocation: the host reverts the enclosing transaction, so no partial
//! effects are ever applied.

use vstd::prelude::*;

verus! {

/// A structured failure returned by a handler. An error carries no
/// effects: only a successful invocation emits any.
#[derive(Debug, Clone, PartialEq, Eq)]
pub enum ContractError {
    /// The claimed origin of a deposit notification does not match the
    /// configured trusted registry.
    Unauthorized,
    /// Malformed or incorrect payment attached to a redemption request.
    Validation { msg: String },
}

/// The mathematical value of a `ContractError`.
#[verifier::ext_equal]
pub enum ErrorView {
    Unauthorized,
    Validation { msg: Seq<char> },
}

impl View for ContractError {
    type V = ErrorView;

    open spec fn view(&self) -> ErrorView {
        match self {
            ContractError::Unauthorized => ErrorView::Unauthorized,
            ContractError::Validation { msg } => ErrorView::Validation { msg: msg@ },
        }
    }
}

} // verus!
