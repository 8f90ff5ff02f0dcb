//! The contract's persistent state, held by the host and passed in explicitly.

use crate::msg::ids;
use vstd::prelude::*;

verus! {

/// The administrators (validated identities, in insertion order, duplicates
/// kept) and the denomination that donations must be paid in.
#[derive(Clone, Debug, PartialEq, Eq)]
pub struct State {
    pub admins: Vec<String>,
    pub donation_denom: String,
}

/// The abstract content of a `State`.
pub struct StateView {
    pub admins: Seq<Seq<char>>,
    pub denom: Seq<char>,
}

impl View for State {
    type V = StateView;

    open spec fn view(&self) -> StateView {
        StateView { admins: ids(self.admins@), denom: self.donation_denom@ }
    }
}

} // verus!
