use vstd::prelude::*;
use crate::accounts::{Account, TokenAccount};
use crate::cpi::{Action, PdaSigner};
use crate::pubkey::Pubkey;
use crate::state::errors::InstructionError;
use crate::state::metadata::{ChildrenMetadata, ErrorCode};

verus! {

/// The accounts of `handler`.
#[derive(Clone, Copy, Debug, PartialEq, Eq)]
pub struct Extract {
    pub current_owner: Pubkey,
    pub child_token_account: Pubkey,
    pub parent_token_account: TokenAccount,
    pub children_meta: Account<ChildrenMetadata>,
}

pub open spec fn constraints(c: Extract, bump: u8) -> bool {
    &&& c.children_meta.data.child == c.child_token_account
    &&& c.children_meta.data.bump == bump
    &&& c.parent_token_account.owner == c.current_owner
}

/// The calls of a successful `handler`: the binding record hands the child
/// token account to the owner.
pub open spec fn extract_actions(c: Extract, bump: u8) -> Seq<Action> {
    seq![Action::SetAuthority {
        account: c.child_token_account,
        current_authority: c.children_meta.key,
        new_owner: c.current_owner,
        signer: PdaSigner::ChildrenOf { parent: c.parent_token_account.key, bump: bump },
    }]
}

/// Extracting gives the bound token account, and only it, back to the owner
/// of the parent, under the signature of that parent's binding record.
pub proof fn law_extract(c: Extract, bump: u8)
    ensures
        extract_actions(c, bump).len() == 1,
        extract_actions(c, bump)[0] matches Action::SetAuthority { account, current_authority, new_owner, signer }
            && account == c.child_token_account && current_authority == c.children_meta.key
            && new_owner == c.current_owner
            && signer == (PdaSigner::ChildrenOf { parent: c.parent_token_account.key, bump: bump }),
{
}

/// Hands a reversibly bound child token account back to the parent's owner,
/// signed by the binding record.
pub fn handler(ctx: &Extract, _bump: u8) -> (r: Result<Vec<Action>, InstructionError>)
    ensures
        match r {
            Err(e) => if !constraints(*ctx, _bump) {
                e == InstructionError::ConstraintRaw
            } else {
                !ctx.children_meta.data.reversible && e == InstructionError::Program(ErrorCode::InvalidExtractAttempt)
            },
            Ok(actions) => {
                &&& constraints(*ctx, _bump)
                &&& ctx.children_meta.data.reversible
                &&& actions@ == extract_actions(*ctx, _bump)
            },
        },
{
    if !(ctx.children_meta.data.child.key_eq(&ctx.child_token_account)
        && ctx.children_meta.data.bump == _bump
        && ctx.parent_token_account.owner.key_eq(&ctx.current_owner)) {
        return Err(InstructionError::ConstraintRaw);
    }
    if !ctx.children_meta.data.reversible {
        return Err(InstructionError::Program(ErrorCode::InvalidExtractAttempt));
    }
    let mut actions: Vec<Action> = Vec::new();
    actions.push(Action::SetAuthority {
        account: ctx.child_token_account,
        current_authority: ctx.children_meta.key,
        new_owner: ctx.current_owner,
        signer: PdaSigner::ChildrenOf { parent: ctx.parent_token_account.key, bump: _bump },
    });
    assert(actions@ =~= extract_actions(*ctx, _bump));
    Ok(actions)
}

} // verus!
