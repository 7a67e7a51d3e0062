use vstd::prelude::*;
use crate::accounts::{Account, TokenAccount};
use crate::cpi::{Action, PdaSigner};
use crate::pubkey::Pubkey;
use crate::state::errors::InstructionError;
use crate::state::metadata::{ChildType, ChildrenMetadataV2};

verus! {

/// The accounts of `handler`.
#[derive(Clone, Copy, Debug, PartialEq, Eq)]
pub struct TransferChildNftV2 {
    pub current_owner: Pubkey,
    pub root_mint_account: Pubkey,
    pub root_token_account: TokenAccount,
    pub root_meta: Account<ChildrenMetadataV2>,
    pub parent_mint_account: Pubkey,
    pub parent_of_children_meta: Account<ChildrenMetadataV2>,
    pub child_mint_account: Pubkey,
    pub child_token_account: TokenAccount,
    pub receiver_account: Pubkey,
}

/// The owner holds the root of a mutable, unchanged tree that binds the child NFT under the parent.
pub open spec fn constraints(c: TransferChildNftV2) -> bool {
    &&& c.root_token_account.amount == 1
    &&& c.root_token_account.mint == c.root_mint_account
    &&& c.root_token_account.owner == c.current_owner
    &&& c.root_meta.data.parent == c.root_mint_account
    &&& c.root_meta.data.root == c.root_meta.key
    &&& c.root_meta.data.is_mutable
    &&& !c.root_meta.data.is_mutated
    &&& c.parent_of_children_meta.data.child_type == ChildType::NFT
    &&& c.parent_of_children_meta.data.parent == c.parent_mint_account
    &&& c.parent_of_children_meta.data.child == c.child_mint_account
    &&& c.parent_of_children_meta.data.root == c.root_meta.key
    &&& c.child_token_account.amount == 1
    &&& c.child_token_account.mint == c.child_mint_account
}

/// The accounts and calls of a successful `handler`: the tree and the
/// binding are marked changed, and the child's token is handed to the
/// receiver by its binding record.
pub open spec fn effect(pre: TransferChildNftV2, post: TransferChildNftV2, actions: Seq<Action>, bump: u8) -> bool {
    &&& post == (TransferChildNftV2 {
        root_meta: Account {
            data: ChildrenMetadataV2 { is_mutated: true, ..pre.root_meta.data },
            ..pre.root_meta
        },
        parent_of_children_meta: Account {
            data: ChildrenMetadataV2 { is_mutated: true, ..pre.parent_of_children_meta.data },
            ..pre.parent_of_children_meta
        },
        ..pre
    })
    &&& actions == seq![Action::SetAuthority {
        account: pre.child_token_account.key,
        current_authority: pre.parent_of_children_meta.key,
        new_owner: pre.receiver_account,
        signer: PdaSigner::Children { parent_mint: pre.parent_mint_account, child_mint: pre.child_mint_account, bump: bump },
    }]
}

/// Sending a child out hands exactly its token, and only to the receiver,
/// under the signature of the binding record of that child under that parent;
/// afterwards the root's tree and the binding are marked changed (so a crank
/// must run before the tree changes again), and no other record changes.
pub proof fn law_child_leaves_tree(pre: TransferChildNftV2, post: TransferChildNftV2, actions: Seq<Action>, bump: u8)
    requires
        effect(pre, post, actions, bump),
    ensures
        post.root_meta.data.is_mutated,
        post.parent_of_children_meta.data.is_mutated,
        post.parent_of_children_meta.data.child == pre.parent_of_children_meta.data.child,
        post.root_meta.data.root == pre.root_meta.data.root,
        actions.len() == 1,
        actions[0] matches Action::SetAuthority { account, current_authority, new_owner, signer }
            && account == pre.child_token_account.key && new_owner == pre.receiver_account
            && current_authority == pre.parent_of_children_meta.key
            && signer == (PdaSigner::Children {
                parent_mint: pre.parent_mint_account,
                child_mint: pre.child_mint_account,
                bump: bump,
            }),
{
}

/// Sends a child NFT out of the tree to `receiver_account`, signed by its
/// binding record; the tree and the binding are marked as changed.
pub fn handler(ctx: &mut TransferChildNftV2, _bump: u8) -> (r: Result<Vec<Action>, InstructionError>)
    ensures
        match r {
            Err(e) => !constraints(*old(ctx)) && e == InstructionError::ConstraintRaw && *final(ctx) == *old(ctx),
            Ok(actions) => constraints(*old(ctx)) && effect(*old(ctx), *final(ctx), actions@, _bump),
        },
{
    if !(ctx.root_token_account.amount == 1
        && ctx.root_token_account.mint.key_eq(&ctx.root_mint_account)
        && ctx.root_token_account.owner.key_eq(&ctx.current_owner)
        && ctx.root_meta.data.parent.key_eq(&ctx.root_mint_account)
        && ctx.root_meta.data.root.key_eq(&ctx.root_meta.key)
        && ctx.root_meta.data.is_mutable
        && !ctx.root_meta.data.is_mutated
        && ctx.parent_of_children_meta.data.child_type == ChildType::NFT
        && ctx.parent_of_children_meta.data.parent.key_eq(&ctx.parent_mint_account)
        && ctx.parent_of_children_meta.data.child.key_eq(&ctx.child_mint_account)
        && ctx.parent_of_children_meta.data.root.key_eq(&ctx.root_meta.key)
        && ctx.child_token_account.amount == 1
        && ctx.child_token_account.mint.key_eq(&ctx.child_mint_account)) {
        return Err(InstructionError::ConstraintRaw);
    }
    ctx.root_meta.data.is_mutated = true;
    let mut actions: Vec<Action> = Vec::new();
    actions.push(Action::SetAuthority {
        account: ctx.child_token_account.key,
        current_authority: ctx.parent_of_children_meta.key,
        new_owner: ctx.receiver_account,
        signer: PdaSigner::Children {
            parent_mint: ctx.parent_mint_account,
            child_mint: ctx.child_mint_account,
            bump: _bump,
        },
    });
    ctx.parent_of_children_meta.data.is_mutated = true;
    assert(actions@ =~= seq![Action::SetAuthority {
        account: ctx.child_token_account.key,
        current_authority: ctx.parent_of_children_meta.key,
        new_owner: ctx.receiver_account,
        signer: PdaSigner::Children { parent_mint: ctx.parent_mint_account, child_mint: ctx.child_mint_account, bump: _bump },
    }]);
    Ok(actions)
}

} // verus!
