use vstd::prelude::*;

verus! {

/// The backend's answer to a lookup: the hash, or `None` when it has none.
#[derive(Clone, Debug, PartialEq, Eq)]
pub struct Load {
    pub hash: Option<Vec<u8>>,
}

/// The backend's answer to a registration: whether it accepted it.
#[derive(Clone, Copy, Debug, PartialEq, Eq)]
pub struct Store {
    pub success: bool,
}

} // verus!
