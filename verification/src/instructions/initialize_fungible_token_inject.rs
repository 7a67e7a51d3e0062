use vstd::prelude::*;
use crate::accounts::{Account, TokenAccount};
use crate::cpi::Action;
use crate::pubkey::Pubkey;
use crate::state::errors::InstructionError;
use crate::state::metadata::{ChildType, ChildrenMetadata};

verus! {

/// The accounts of `handler`.
#[derive(Clone, Copy, Debug, PartialEq, Eq)]
pub struct InitializeFungibleTokenInject {
    pub current_owner: Pubkey,
    pub owner_token_account: Pubkey,
    pub parent_token_account: TokenAccount,
    pub parent_mint_account: Pubkey,
    pub children_meta: Account<ChildrenMetadata>,
    pub mint: Pubkey,
    pub fungible_token_account: Pubkey,
}

pub open spec fn constraints(c: InitializeFungibleTokenInject) -> bool {
    c.parent_token_account.mint == c.parent_mint_account
}

/// The accounts and calls of a successful `handler`: the binding record
/// names the program's token account as an SPL child with the given
/// reversibility and bump, and `amount` of the owner's tokens move into it.
pub open spec fn effect(
    pre: InitializeFungibleTokenInject,
    post: InitializeFungibleTokenInject,
    actions: Seq<Action>,
    reversible: bool,
    bump: u8,
    amount: u64,
) -> bool {
    &&& post == (InitializeFungibleTokenInject {
        children_meta: Account {
            data: ChildrenMetadata { reversible: reversible, bump: bump, child: pre.fungible_token_account, child_type: ChildType::SPL },
            ..pre.children_meta
        },
        ..pre
    })
    &&& actions == seq![Action::TokenTransfer {
        from: pre.owner_token_account,
        to: pre.fungible_token_account,
        authority: pre.current_owner,
        amount: amount,
    }]
}

/// Injecting fungible tokens moves exactly the requested amount, by the
/// owner, from the owner's token account into the program's token account,
/// and the binding record names that account as an SPL child.
pub proof fn law_fungible_inject(
    pre: InitializeFungibleTokenInject,
    post: InitializeFungibleTokenInject,
    actions: Seq<Action>,
    reversible: bool,
    bump: u8,
    amount: u64,
)
    requires
        effect(pre, post, actions, reversible, bump, amount),
    ensures
        post.children_meta.data.child == pre.fungible_token_account,
        post.children_meta.data.child_type == ChildType::SPL,
        post.children_meta.data.reversible == reversible,
        actions.len() == 1,
        actions[0] matches Action::TokenTransfer { from, to, authority, amount: n }
            && from == pre.owner_token_account && to == pre.fungible_token_account
            && authority == pre.current_owner && n == amount,
{
}

/// Binds fungible tokens to an NFT: the binding record names the program's
/// token account as an SPL child, and the owner's tokens move into it.
pub fn handler(
    ctx: &mut InitializeFungibleTokenInject,
    reversible: bool,
    bump: u8,
    inject_fungible_token_amount: u64,
) -> (r: Result<Vec<Action>, InstructionError>)
    ensures
        match r {
            Err(e) => !constraints(*old(ctx)) && e == InstructionError::ConstraintRaw && *final(ctx) == *old(ctx),
            Ok(actions) => constraints(*old(ctx))
                && effect(*old(ctx), *final(ctx), actions@, reversible, bump, inject_fungible_token_amount),
        },
{
    if !ctx.parent_token_account.mint.key_eq(&ctx.parent_mint_account) {
        return Err(InstructionError::ConstraintRaw);
    }
    ctx.children_meta.data.reversible = reversible;
    ctx.children_meta.data.bump = bump;
    ctx.children_meta.data.child = ctx.fungible_token_account;
    ctx.children_meta.data.child_type = ChildType::SPL;
    let mut actions: Vec<Action> = Vec::new();
    actions.push(Action::TokenTransfer {
        from: ctx.owner_token_account,
        to: ctx.fungible_token_account,
        authority: ctx.current_owner,
        amount: inject_fungible_token_amount,
    });
    assert(actions@ =~= seq![Action::TokenTransfer {
        from: ctx.owner_token_account,
        to: ctx.fungible_token_account,
        authority: ctx.current_owner,
        amount: inject_fungible_token_amount,
    }]);
    Ok(actions)
}

} // verus!
