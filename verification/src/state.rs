//! What the contract keeps in its storage.
use vstd::prelude::*;

verus! {

/// The contract's state: the account that instantiated it.
#[derive(Clone, Debug, PartialEq)]
pub struct State {
    pub owner: String,
}

} // verus!
