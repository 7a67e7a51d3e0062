use vstd::prelude::*;
use crate::accounts::{Account, TokenAccount};
use crate::cpi::Action;
use crate::pubkey::Pubkey;
use crate::state::errors::InstructionError;
use crate::state::metadata::{ChildType, ChildrenMetadata};

verus! {

/// The accounts of `handler`.
#[derive(Clone, Copy, Debug, PartialEq, Eq)]
pub struct InitializeSolInject {
    pub current_owner: Pubkey,
    pub parent_token_account: TokenAccount,
    pub parent_mint_account: Pubkey,
    pub children_meta: Account<ChildrenMetadata>,
}

pub open spec fn constraints(c: InitializeSolInject) -> bool {
    c.parent_token_account.mint == c.parent_mint_account
}

/// The accounts and calls of a successful `handler`: the binding record is
/// marked a SOL child with the given reversibility and bump, and the owner
/// pays `amount` lamports into it.
pub open spec fn effect(pre: InitializeSolInject, post: InitializeSolInject, actions: Seq<Action>, reversible: bool, bump: u8, amount: u64) -> bool {
    &&& post == (InitializeSolInject {
        children_meta: Account {
            data: ChildrenMetadata { reversible: reversible, bump: bump, child_type: ChildType::SOL, ..pre.children_meta.data },
            ..pre.children_meta
        },
        ..pre
    })
    &&& actions == seq![Action::SystemTransfer { from: pre.current_owner, to: pre.children_meta.key, lamports: amount }]
}

/// Injecting SOL moves exactly the requested lamports from the owner into the
/// binding record, which is marked a SOL child (so it can only come back by
/// burning the NFT for SOL, never as a token) with the chosen reversibility.
pub proof fn law_sol_inject(pre: InitializeSolInject, post: InitializeSolInject, actions: Seq<Action>, reversible: bool, bump: u8, amount: u64)
    requires
        effect(pre, post, actions, reversible, bump, amount),
    ensures
        post.children_meta.data.child_type == ChildType::SOL,
        post.children_meta.data.reversible == reversible,
        post.children_meta.key == pre.children_meta.key,
        actions.len() == 1,
        actions[0] matches Action::SystemTransfer { from, to, lamports }
            && from == pre.current_owner && to == pre.children_meta.key && lamports == amount,
{
}

/// Binds SOL to an NFT: the binding record is marked as a SOL child and
/// receives `inject_sol_amount` lamports from the owner.
pub fn handler(ctx: &mut InitializeSolInject, reversible: bool, bump: u8, inject_sol_amount: u64)
    -> (r: Result<Vec<Action>, InstructionError>)
    ensures
        match r {
            Err(e) => !constraints(*old(ctx)) && e == InstructionError::ConstraintRaw && *final(ctx) == *old(ctx),
            Ok(actions) => constraints(*old(ctx))
                && effect(*old(ctx), *final(ctx), actions@, reversible, bump, inject_sol_amount),
        },
{
    if !ctx.parent_token_account.mint.key_eq(&ctx.parent_mint_account) {
        return Err(InstructionError::ConstraintRaw);
    }
    ctx.children_meta.data.reversible = reversible;
    ctx.children_meta.data.bump = bump;
    ctx.children_meta.data.child_type = ChildType::SOL;
    let mut actions: Vec<Action> = Vec::new();
    actions.push(Action::SystemTransfer {
        from: ctx.current_owner,
        to: ctx.children_meta.key,
        lamports: inject_sol_amount,
    });
    assert(actions@ =~= seq![Action::SystemTransfer {
        from: ctx.current_owner, to: ctx.children_meta.key, lamports: inject_sol_amount,
    }]);
    Ok(actions)
}

} // verus!
