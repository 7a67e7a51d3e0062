use vstd::prelude::*;

pub mod accounts;
pub mod cpi;
pub mod instructions;
pub mod pubkey;
pub mod state;

verus! {
}
