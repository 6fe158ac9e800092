use vstd::prelude::*;

pub mod request;
pub mod response;

verus! {

/// A request sent to the backend.
#[derive(Clone, Debug, PartialEq, Eq)]
pub enum Request {
    Load(request::Load),
    Store(request::Store),
}

/// A reply read back from the backend.
#[derive(Clone, Debug, PartialEq, Eq)]
pub enum Response {
    Load(response::Load),
    Store(response::Store),
}

} // verus!
