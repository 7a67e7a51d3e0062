use vstd::prelude::*;
use crate::accounts::{Account, TokenAccount};
use crate::pubkey::Pubkey;
use crate::state::errors::InstructionError;
use crate::state::metadata::{ChildrenMetadata, ErrorCode};

verus! {

/// The accounts of `handler`.
#[derive(Clone, Copy, Debug, PartialEq, Eq)]
pub struct ExtractSol {
    pub current_owner: Pubkey,
    pub parent_token_account: TokenAccount,
    pub parent_mint_account: Pubkey,
    pub children_meta: Account<ChildrenMetadata>,
}

pub open spec fn constraints(c: ExtractSol, bump: u8) -> bool {
    &&& c.parent_token_account.owner == c.current_owner
    &&& c.children_meta.data.bump == bump
}

/// Accepts the extraction of reversibly injected SOL (the binding record, and
/// the SOL it holds, then go to the owner).
pub fn handler(ctx: &ExtractSol, _bump: u8) -> (r: Result<(), InstructionError>)
    ensures
        r == if !constraints(*ctx, _bump) {
            Err(InstructionError::ConstraintRaw)
        } else if !ctx.children_meta.data.reversible {
            Err(InstructionError::Program(ErrorCode::InvalidExtractAttempt))
        } else {
            Ok(())
        },
{
    if !(ctx.parent_token_account.owner.key_eq(&ctx.current_owner) && ctx.children_meta.data.bump == _bump) {
        return Err(InstructionError::ConstraintRaw);
    }
    if !ctx.children_meta.data.reversible {
        return Err(InstructionError::Program(ErrorCode::InvalidExtractAttempt));
    }
    Ok(())
}

} // verus!
