use vstd::prelude::*;
use crate::pubkey::Pubkey;

verus! {

/// A program-owned account: its address and its decoded data.
#[derive(Clone, Copy, Debug, PartialEq, Eq)]
pub struct Account<T> {
    pub key: Pubkey,
    pub data: T,
}

/// The fields of an SPL token account that the instructions read.
#[derive(Clone, Copy, Debug, PartialEq, Eq)]
pub struct TokenAccount {
    pub key: Pubkey,
    pub mint: Pubkey,
    pub owner: Pubkey,
    pub amount: u64,
}

} // verus!
