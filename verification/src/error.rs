//! What can go wrong.

use vstd::prelude::*;

verus! {

/// Why a call failed.
#[derive(Debug, PartialEq, Eq)]
pub enum PrismError {
    /// The endpoint could not be reached, or did not give a usable reply.
    RpcError(String),
}

/// What a [`PrismError`] says.
pub enum PrismErrorView {
    RpcError(Seq<char>),
}

impl View for PrismError {
    type V = PrismErrorView;

    open spec fn view(&self) -> PrismErrorView {
        match self {
            PrismError::RpcError(message) => PrismErrorView::RpcError(message@),
        }
    }
}

/// The result of what can fail with a [`PrismError`].
pub type PrismResult<T> = Result<T, PrismError>;

/// A result with its error taken by what it says.
pub open spec fn result_view<T>(result: PrismResult<T>) -> Result<T, PrismErrorView> {
    match result {
        Ok(value) => Ok(value),
        Err(error) => Err(error@),
    }
}

impl PrismError {
    /// The message.
    pub fn message(&self) -> (message: &str)
        ensures
            self@ == PrismErrorView::RpcError(message@),
            *self matches PrismError::RpcError(inner) && message@ == inner@,
    {
        match self {
            PrismError::RpcError(message) => message.as_str(),
        }
    }
}

} // verus!
