use vstd::prelude::*;

verus! {

/// The answer to a client's lookup.
#[derive(Clone, Debug, PartialEq, Eq)]
pub enum Load {
    Success { requested_key: String, requested_hash: String },
    NotFound,
}

/// The answer to a client's registration.
#[derive(Clone, Copy, Debug, PartialEq, Eq)]
pub enum Store {
    Success,
    Error,
}

} // verus!
