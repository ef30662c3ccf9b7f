//! How a request fails.

use vstd::prelude::*;

verus! {

/// How a request to the store failed.
#[derive(Clone, Copy, Debug, PartialEq, Eq)]
pub enum StoreError {
    /// A record that had to be there is not.
    NotFound,
    /// Anything else that went wrong in the store.
    Other,
}

/// The failure that a handler answers with.
#[derive(Debug, PartialEq, Eq)]
pub enum RouterError {
    /// Something that the request names does not exist.
    NotFound(String),
    /// The request could not be served; the cause is not the caller's.
    InternalError,
}

pub enum RouterErrorView {
    NotFound(Seq<char>),
    InternalError,
}

impl DeepView for RouterError {
    type V = RouterErrorView;

    open spec fn deep_view(&self) -> RouterErrorView {
        match self {
            RouterError::NotFound(what) => RouterErrorView::NotFound(what@),
            RouterError::InternalError => RouterErrorView::InternalError,
        }
    }
}

/// The failure of a handler whose request to the store failed with `error`:
/// a missing record is reported as such, anything else as an internal error.
pub open spec fn router_error(error: StoreError) -> RouterErrorView {
    match error {
        StoreError::NotFound => RouterErrorView::NotFound("Not found"@),
        StoreError::Other => RouterErrorView::InternalError,
    }
}

impl RouterError {
    /// The failure of a handler whose request to the store failed.
    pub fn of(error: StoreError) -> (failure: RouterError)
        ensures
            failure.deep_view() == router_error(error),
    {
        match error {
            StoreError::NotFound => RouterError::NotFound(String::from_str("Not found")),
            StoreError::Other => RouterError::InternalError,
        }
    }

    /// What the failure says of itself.
    pub fn message(&self) -> (text: String)
        ensures
            text@ == match self.deep_view() {
                RouterErrorView::NotFound(what) => what,
                RouterErrorView::InternalError => "Internal error"@,
            },
    {
        match self {
            RouterError::NotFound(what) => what.clone(),
            RouterError::InternalError => String::from_str("Internal error"),
        }
    }
}

} // verus!
