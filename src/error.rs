use vstd::prelude::*;

use crate::reconcile::ReconcileError;
use crate::store::StoreError;
use crate::text::push_text;

verus! {

/// The failures of the bot, as the surrounding process reports them.
#[derive(Clone, Debug)]
pub enum Error {
    /// A failure described by text.
    Internal(String),
    /// A failure of the store.
    Store(StoreError),
}

/// The text of a store failure.
pub open spec fn store_error_text(e: StoreError) -> Seq<char> {
    match e {
        StoreError::DuplicateKey(k) => "duplicate key: "@ + k@,
    }
}

impl StoreError {
    /// A human-readable description of the failure.
    pub fn message(&self) -> (r: String)
        ensures
            r@ == store_error_text(*self),
    {
        let mut out = String::new();
        match self {
            StoreError::DuplicateKey(k) => {
                push_text(&mut out, "duplicate key: ");
                push_text(&mut out, k.as_str());
            },
        }
        out
    }
}

impl ReconcileError {
    /// A human-readable description of the failure.
    pub fn message(&self) -> (r: String)
        ensures
            r@ == match self {
                ReconcileError::Store(e) => store_error_text(*e),
            },
    {
        match self {
            ReconcileError::Store(e) => e.message(),
        }
    }
}

impl Error {
    /// A human-readable description of the failure.
    pub fn message(&self) -> (r: String)
        ensures
            r@ == match self {
                Error::Internal(m) => m@,
                Error::Store(e) => store_error_text(*e),
            },
    {
        match self {
            Error::Internal(m) => m.clone(),
            Error::Store(e) => e.message(),
        }
    }
}

} // verus!
