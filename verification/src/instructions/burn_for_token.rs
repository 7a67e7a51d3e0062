use vstd::prelude::*;
use crate::accounts::{Account, TokenAccount};
use crate::cpi::{Action, PdaSigner};
use crate::pubkey::Pubkey;
use crate::state::errors::InstructionError;
use crate::state::metadata::{ChildType, ChildrenMetadata, ErrorCode};

verus! {

/// The accounts of `handler`.
#[derive(Clone, Copy, Debug, PartialEq, Eq)]
pub struct BurnForToken {
    pub current_owner: Pubkey,
    pub parent_token_mint: Pubkey,
    pub parent_token_account: TokenAccount,
    pub child_token_account: Pubkey,
    pub children_meta: Account<ChildrenMetadata>,
}

pub open spec fn constraints(c: BurnForToken) -> bool {
    &&& c.parent_token_account.owner == c.current_owner
    &&& c.children_meta.data.child == c.child_token_account
}

/// The calls of a successful `handler`: the owner burns all its tokens of
/// the parent, then the binding record hands the child token account to the owner.
pub open spec fn burn_actions(c: BurnForToken) -> Seq<Action> {
    seq![
        Action::Burn {
            mint: c.parent_token_mint,
            account: c.parent_token_account.key,
            authority: c.current_owner,
            amount: c.parent_token_account.amount,
            signer: PdaSigner::Owner,
        },
        Action::SetAuthority {
            account: c.child_token_account,
            current_authority: c.children_meta.key,
            new_owner: c.current_owner,
            signer: PdaSigner::ChildrenOf { parent: c.parent_token_account.key, bump: c.children_meta.data.bump },
        },
    ]
}

/// Burning a parent for its token gives the bound tokens back: every token of
/// the parent is burnt by its owner, and the bound child token account goes to
/// that owner, signed by the binding record of that parent.
pub proof fn law_burn_for_token(c: BurnForToken)
    ensures
        burn_actions(c).len() == 2,
        burn_actions(c)[0] matches Action::Burn { account, authority, amount, .. }
            && account == c.parent_token_account.key && authority == c.current_owner
            && amount == c.parent_token_account.amount,
        burn_actions(c)[1] matches Action::SetAuthority { account, current_authority, new_owner, signer }
            && account == c.child_token_account && current_authority == c.children_meta.key
            && new_owner == c.current_owner
            && signer == (PdaSigner::ChildrenOf { parent: c.parent_token_account.key, bump: c.children_meta.data.bump }),
{
}

/// Burns the parent NFT and hands its bound (non-SOL) child token account to
/// the owner, signed by the binding record.
pub fn handler(ctx: &BurnForToken) -> (r: Result<Vec<Action>, InstructionError>)
    ensures
        match r {
            Err(e) => if !constraints(*ctx) {
                e == InstructionError::ConstraintRaw
            } else {
                ctx.children_meta.data.child_type == ChildType::SOL
                    && e == InstructionError::Program(ErrorCode::InvalidBurnType)
            },
            Ok(actions) => {
                &&& constraints(*ctx)
                &&& ctx.children_meta.data.child_type != ChildType::SOL
                &&& actions@ == burn_actions(*ctx)
            },
        },
{
    if !(ctx.parent_token_account.owner.key_eq(&ctx.current_owner)
        && ctx.children_meta.data.child.key_eq(&ctx.child_token_account)) {
        return Err(InstructionError::ConstraintRaw);
    }
    if ctx.children_meta.data.child_type == ChildType::SOL {
        return Err(InstructionError::Program(ErrorCode::InvalidBurnType));
    }
    let mut actions: Vec<Action> = Vec::new();
    actions.push(Action::Burn {
        mint: ctx.parent_token_mint,
        account: ctx.parent_token_account.key,
        authority: ctx.current_owner,
        amount: ctx.parent_token_account.amount,
        signer: PdaSigner::Owner,
    });
    actions.push(Action::SetAuthority {
        account: ctx.child_token_account,
        current_authority: ctx.children_meta.key,
        new_owner: ctx.current_owner,
        signer: PdaSigner::ChildrenOf { parent: ctx.parent_token_account.key, bump: ctx.children_meta.data.bump },
    });
    assert(actions@ =~= burn_actions(*ctx));
    Ok(actions)
}

} // verus!
