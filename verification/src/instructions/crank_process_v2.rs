use vstd::prelude::*;
use crate::accounts::{Account, TokenAccount};
use crate::pubkey::Pubkey;
use crate::state::errors::InstructionError;
use crate::state::metadata::ChildrenMetadataV2;

verus! {

/// The accounts of `handler`.
#[derive(Clone, Copy, Debug, PartialEq, Eq)]
pub struct CrankProcess {
    pub operator: Pubkey,
    pub current_owner: Pubkey,
    pub child_token_account: TokenAccount,
    pub child_mint_account: Pubkey,
    pub parent_token_account: TokenAccount,
    pub parent_mint_account: Pubkey,
    pub root_token_account: TokenAccount,
    pub root_mint_account: Pubkey,
    pub children_meta: Account<ChildrenMetadataV2>,
    pub root_meta: Account<ChildrenMetadataV2>,
}

pub open spec fn constraints(c: CrankProcess) -> bool {
    &&& c.child_token_account.amount == 1
    &&& c.child_token_account.mint == c.child_mint_account
    &&& c.child_token_account.owner == c.current_owner
    &&& c.parent_token_account.amount == 1
    &&& c.parent_token_account.mint == c.parent_mint_account
    &&& c.root_token_account.amount == 1
    &&& c.root_token_account.mint == c.root_mint_account
}

/// Checks the accounts of a crank step; the step itself changes nothing.
pub fn handler(ctx: &CrankProcess) -> (r: Result<(), InstructionError>)
    ensures
        r is Ok <==> constraints(*ctx),
        r is Err ==> r == Err::<(), InstructionError>(InstructionError::ConstraintRaw),
{
    if !(ctx.child_token_account.amount == 1
        && ctx.child_token_account.mint.key_eq(&ctx.child_mint_account)
        && ctx.child_token_account.owner.key_eq(&ctx.current_owner)
        && ctx.parent_token_account.amount == 1
        && ctx.parent_token_account.mint.key_eq(&ctx.parent_mint_account)
        && ctx.root_token_account.amount == 1
        && ctx.root_token_account.mint.key_eq(&ctx.root_mint_account)) {
        return Err(InstructionError::ConstraintRaw);
    }
    Ok(())
}

} // verus!
