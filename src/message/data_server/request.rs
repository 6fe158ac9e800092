use vstd::prelude::*;

verus! {

/// Asks the backend which hash a key has.
#[derive(Clone, Debug, PartialEq, Eq)]
pub struct Load {
    pub key: String,
}

/// Registers a hash, as raw bytes, for a key with the backend.
#[derive(Clone, Debug, PartialEq, Eq)]
pub struct Store {
    pub key: String,
    pub hash: Vec<u8>,
}

} // verus!
