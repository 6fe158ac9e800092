use vstd::prelude::*;

verus! {

/// A client asks which hash a key has.
#[derive(Clone, Debug, PartialEq, Eq)]
pub struct Load {
    pub key: String,
}

/// A client registers a textual hash for a key.
#[derive(Clone, Debug, PartialEq, Eq)]
pub struct Store {
    pub key: String,
    pub hash: String,
}

} // verus!
