use vstd::prelude::*;

pub mod request;
pub mod response;

verus! {

/// A request read from a client.
#[derive(Clone, Debug, PartialEq, Eq)]
pub enum Request {
    Load(request::Load),
    Store(request::Store),
}

/// A reply written to a client.
#[derive(Clone, Debug, PartialEq, Eq)]
pub enum Response {
    Load(response::Load),
    Store(response::Store),
}

} // verus!
