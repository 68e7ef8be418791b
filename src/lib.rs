//! Two-party escrow of one coin against another: deals are created, funded by deposits made
//! on this ledger or relayed from another, then settled by each side claiming its leg, or
//! refunded while only one side has deposited. Every operation is a verified transition of
//! the deal registry, whose effect is stated over the model in `model`.

use vstd::prelude::*;

pub mod contract;
pub mod laws;
pub mod lookup;
pub mod model;
pub mod msg;
pub mod state;

verus! {

} // verus!
