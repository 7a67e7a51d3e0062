use vstd::prelude::*;
use crate::accounts::{Account, TokenAccount};
use crate::cpi::{Action, PdaSigner};
use crate::pubkey::Pubkey;
use crate::state::errors::InstructionError;
use crate::state::metadata::{ChildType, ChildrenMetadata};
use crate::instructions::extract::{constraints as extract_constraints, extract_actions, Extract};

verus! {

/// The accounts of `handler`.
#[derive(Clone, Copy, Debug, PartialEq, Eq)]
pub struct InitializeInject {
    pub current_owner: Pubkey,
    pub child_token_account: Pubkey,
    pub parent_token_account: TokenAccount,
    pub parent_mint_account: Pubkey,
    pub children_meta: Account<ChildrenMetadata>,
}

pub open spec fn constraints(c: InitializeInject) -> bool {
    &&& c.parent_token_account.amount == 1
    &&& c.parent_token_account.mint == c.parent_mint_account
}

/// The accounts and calls of a successful `handler`: the binding record
/// names the child's token account as an NFT child with the given
/// reversibility and bump, and the owner hands that token account to the record.
pub open spec fn effect(pre: InitializeInject, post: InitializeInject, actions: Seq<Action>, reversible: bool, bump: u8) -> bool {
    &&& post == (InitializeInject {
        children_meta: Account {
            data: ChildrenMetadata { reversible: reversible, bump: bump, child: pre.child_token_account, child_type: ChildType::NFT },
            ..pre.children_meta
        },
        ..pre
    })
    &&& actions == seq![Action::SetAuthority {
        account: pre.child_token_account,
        current_authority: pre.current_owner,
        new_owner: pre.children_meta.key,
        signer: PdaSigner::Owner,
    }]
}

/// An injected NFT is bound to its parent so that it can come back: the
/// record names exactly the injected token account as an NFT child, keeps the
/// chosen reversibility and bump, and the owner hands that account to the
/// record. Given back to `extract` with the same bump by the parent's owner,
/// the binding meets extract's account constraints, and extract returns the
/// same token account to that owner.
pub proof fn law_inject_then_extract(
    pre: InitializeInject,
    post: InitializeInject,
    actions: Seq<Action>,
    reversible: bool,
    bump: u8,
)
    requires
        effect(pre, post, actions, reversible, bump),
        pre.parent_token_account.owner == pre.current_owner,
    ensures
        post.children_meta.data.child == pre.child_token_account,
        post.children_meta.data.child_type == ChildType::NFT,
        post.children_meta.data.reversible == reversible,
        actions.len() == 1,
        actions[0] matches Action::SetAuthority { account, current_authority, new_owner, .. }
            && account == pre.child_token_account && current_authority == pre.current_owner
            && new_owner == pre.children_meta.key,
        ({
            let x = Extract {
                current_owner: pre.current_owner,
                child_token_account: pre.child_token_account,
                parent_token_account: pre.parent_token_account,
                children_meta: post.children_meta,
            };
            &&& extract_constraints(x, bump)
            &&& extract_actions(x, bump)[0] matches Action::SetAuthority { account, new_owner, .. }
                && account == pre.child_token_account && new_owner == pre.current_owner
        }),
{
}

/// Binds an NFT to a parent NFT: the binding record names the child's token
/// account, which is handed to the record.
pub fn handler(ctx: &mut InitializeInject, reversible: bool, bump: u8) -> (r: Result<Vec<Action>, InstructionError>)
    ensures
        match r {
            Err(e) => !constraints(*old(ctx)) && e == InstructionError::ConstraintRaw && *final(ctx) == *old(ctx),
            Ok(actions) => constraints(*old(ctx)) && effect(*old(ctx), *final(ctx), actions@, reversible, bump),
        },
{
    if !(ctx.parent_token_account.amount == 1 && ctx.parent_token_account.mint.key_eq(&ctx.parent_mint_account)) {
        return Err(InstructionError::ConstraintRaw);
    }
    ctx.children_meta.data.reversible = reversible;
    ctx.children_meta.data.bump = bump;
    ctx.children_meta.data.child = ctx.child_token_account;
    ctx.children_meta.data.child_type = ChildType::NFT;
    let mut actions: Vec<Action> = Vec::new();
    actions.push(Action::SetAuthority {
        account: ctx.child_token_account,
        current_authority: ctx.current_owner,
        new_owner: ctx.children_meta.key,
        signer: PdaSigner::Owner,
    });
    assert(actions@ =~= seq![Action::SetAuthority {
        account: ctx.child_token_account,
        current_authority: ctx.current_owner,
        new_owner: ctx.children_meta.key,
        signer: PdaSigner::Owner,
    }]);
    Ok(actions)
}

} // verus!
