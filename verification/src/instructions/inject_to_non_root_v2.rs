use vstd::prelude::*;
use crate::accounts::{Account, TokenAccount};
use crate::cpi::{Action, PdaSigner};
use crate::pubkey::Pubkey;
use crate::state::errors::InstructionError;
use crate::state::keys::{has_unset, lemma_place_key_contains, place_key};
use crate::state::metadata::{
    pubkey_array_all_full, pubkey_array_place, ChildType, ChildrenMetadataV2, ErrorCode, ParentMetadata,
    TREE_LEVEL_HEIGHT_LIMIT,
};

verus! {

/// The accounts of `handler`.
#[derive(Clone, Copy, Debug, PartialEq, Eq)]
pub struct InjectToNonRootV2 {
    pub current_owner: Pubkey,
    pub child_token_account: TokenAccount,
    pub child_mint_account: Pubkey,
    pub parent_token_account: TokenAccount,
    pub parent_mint_account: Pubkey,
    pub root_token_account: TokenAccount,
    pub root_mint_account: Pubkey,
    pub children_meta: Account<ChildrenMetadataV2>,
    pub children_meta_of_parent: Account<ChildrenMetadataV2>,
    pub root_meta: Account<ChildrenMetadataV2>,
    pub parent_meta: Account<ParentMetadata>,
    pub parent_meta_of_child: Account<ParentMetadata>,
}

/// The owner holds the child and the root of a mutable, unchanged tree in
/// which the parent sits below the height limit.
pub open spec fn constraints(c: InjectToNonRootV2) -> bool {
    &&& c.child_token_account.amount == 1
    &&& c.child_token_account.mint == c.child_mint_account
    &&& c.child_token_account.owner == c.current_owner
    &&& c.parent_token_account.amount == 1
    &&& c.parent_token_account.mint == c.parent_mint_account
    &&& c.root_token_account.amount == 1
    &&& c.root_token_account.mint == c.root_mint_account
    &&& c.root_token_account.owner == c.current_owner
    &&& c.children_meta_of_parent.data.root != c.parent_mint_account
    &&& c.children_meta_of_parent.data.root == c.root_meta.key
    &&& c.root_meta.data.root == c.root_meta.key
    &&& c.root_meta.data.is_mutable
    &&& !c.root_meta.data.is_mutated
    &&& c.parent_meta.data.height < TREE_LEVEL_HEIGHT_LIMIT
}

/// The accounts and calls of a successful `handler`: the child is bound under
/// the parent in the root's tree, gets a record one level below the parent,
/// takes the parent's lowest free child slot and its token account is handed
/// to its binding record.
pub open spec fn effect(
    pre: InjectToNonRootV2,
    post: InjectToNonRootV2,
    actions: Seq<Action>,
    is_mutable: bool,
    child_bump: u8,
    parent_bump: u8,
) -> bool {
    &&& post == (InjectToNonRootV2 {
        children_meta: post.children_meta,
        parent_meta: post.parent_meta,
        parent_meta_of_child: post.parent_meta_of_child,
        ..pre
    })
    &&& post.children_meta == (Account {
        data: ChildrenMetadataV2 {
            is_mutable: is_mutable,
            bump: child_bump,
            child: pre.child_mint_account,
            parent: pre.parent_mint_account,
            root: pre.root_meta.key,
            child_type: ChildType::NFT,
            ..pre.children_meta.data
        },
        ..pre.children_meta
    })
    &&& post.parent_meta_of_child == (Account {
        data: ParentMetadata {
            height: (pre.parent_meta.data.height + 1) as u8,
            is_burnt: false,
            bump: parent_bump,
            self_mint: pre.child_mint_account,
            ..pre.parent_meta_of_child.data
        },
        ..pre.parent_meta_of_child
    })
    &&& post.parent_meta.key == pre.parent_meta.key
    &&& post.parent_meta.data == (ParentMetadata {
        immediate_children: post.parent_meta.data.immediate_children,
        ..pre.parent_meta.data
    })
    &&& post.parent_meta.data.immediate_children@
        == place_key(pre.parent_meta.data.immediate_children@, pre.child_mint_account)
    &&& actions == seq![Action::SetAuthority {
        account: pre.child_token_account.key,
        current_authority: pre.current_owner,
        new_owner: pre.children_meta.key,
        signer: PdaSigner::Owner,
    }]
}

/// Injects an NFT below a non-root NFT of a mutable tree (see `effect`). A
/// parent whose child slots are all taken cannot list another child, so the
/// injection is then refused with `ImmediateChildrenFull`.
pub fn handler(ctx: &mut InjectToNonRootV2, is_mutable: bool, child_bump: u8, parent_bump: u8)
    -> (r: Result<Vec<Action>, InstructionError>)
    ensures
        !constraints(*old(ctx)) ==> r == Err::<Vec<Action>, InstructionError>(InstructionError::ConstraintRaw)
            && *final(ctx) == *old(ctx),
        constraints(*old(ctx)) && !has_unset(old(ctx).parent_meta.data.immediate_children@)
            ==> r == Err::<Vec<Action>, InstructionError>(InstructionError::Program(ErrorCode::ImmediateChildrenFull))
            && *final(ctx) == *old(ctx),
        constraints(*old(ctx)) && has_unset(old(ctx).parent_meta.data.immediate_children@)
            ==> (r matches Ok(actions)
            && effect(*old(ctx), *final(ctx), actions@, is_mutable, child_bump, parent_bump)),
{
    if !(ctx.child_token_account.amount == 1
        && ctx.child_token_account.mint.key_eq(&ctx.child_mint_account)
        && ctx.child_token_account.owner.key_eq(&ctx.current_owner)
        && ctx.parent_token_account.amount == 1
        && ctx.parent_token_account.mint.key_eq(&ctx.parent_mint_account)
        && ctx.root_token_account.amount == 1
        && ctx.root_token_account.mint.key_eq(&ctx.root_mint_account)
        && ctx.root_token_account.owner.key_eq(&ctx.current_owner)
        && !ctx.children_meta_of_parent.data.root.key_eq(&ctx.parent_mint_account)
        && ctx.children_meta_of_parent.data.root.key_eq(&ctx.root_meta.key)
        && ctx.root_meta.data.root.key_eq(&ctx.root_meta.key)
        && ctx.root_meta.data.is_mutable
        && !ctx.root_meta.data.is_mutated
        && ctx.parent_meta.data.height < TREE_LEVEL_HEIGHT_LIMIT) {
        return Err(InstructionError::ConstraintRaw);
    }
    if pubkey_array_all_full(&ctx.parent_meta.data.immediate_children) {
        return Err(InstructionError::Program(ErrorCode::ImmediateChildrenFull));
    }
    ctx.children_meta.data.is_mutable = is_mutable;
    ctx.children_meta.data.bump = child_bump;
    ctx.children_meta.data.child = ctx.child_mint_account;
    ctx.children_meta.data.parent = ctx.parent_mint_account;
    ctx.children_meta.data.root = ctx.root_meta.key;
    ctx.children_meta.data.child_type = ChildType::NFT;

    ctx.parent_meta_of_child.data.height = ctx.parent_meta.data.height + 1;
    ctx.parent_meta_of_child.data.is_burnt = false;
    ctx.parent_meta_of_child.data.bump = parent_bump;
    ctx.parent_meta_of_child.data.self_mint = ctx.child_mint_account;
    let child = ctx.children_meta.data.child;
    pubkey_array_place(&mut ctx.parent_meta.data.immediate_children, child);

    let mut actions: Vec<Action> = Vec::new();
    actions.push(Action::SetAuthority {
        account: ctx.child_token_account.key,
        current_authority: ctx.current_owner,
        new_owner: ctx.children_meta.key,
        signer: PdaSigner::Owner,
    });
    Ok(actions)
}

/// Trees stay shallow and connected: an injected child sits exactly one level
/// below its parent, never below the height limit, and is listed among its
/// parent's children.
pub proof fn law_injection_depth(
    pre: InjectToNonRootV2,
    post: InjectToNonRootV2,
    actions: Seq<Action>,
    is_mutable: bool,
    child_bump: u8,
    parent_bump: u8,
)
    requires
        constraints(pre),
        has_unset(pre.parent_meta.data.immediate_children@),
        effect(pre, post, actions, is_mutable, child_bump, parent_bump),
    ensures
        post.parent_meta_of_child.data.height == pre.parent_meta.data.height + 1,
        post.parent_meta_of_child.data.height <= TREE_LEVEL_HEIGHT_LIMIT,
        post.parent_meta.data.immediate_children@.contains(pre.child_mint_account),
{
    lemma_place_key_contains(pre.parent_meta.data.immediate_children@, pre.child_mint_account);
}

/// An injected child is bound under its parent in the root's tree: its
/// binding record names the child, the parent and the root's record, its
/// token is handed to that binding record by the owner, its own record names
/// it, and none of the parent's other children is lost.
pub proof fn law_injection_binds(
    pre: InjectToNonRootV2,
    post: InjectToNonRootV2,
    actions: Seq<Action>,
    is_mutable: bool,
    child_bump: u8,
    parent_bump: u8,
)
    requires
        has_unset(pre.parent_meta.data.immediate_children@),
        effect(pre, post, actions, is_mutable, child_bump, parent_bump),
    ensures
        post.children_meta.data.child == pre.child_mint_account,
        post.children_meta.data.parent == pre.parent_mint_account,
        post.children_meta.data.root == pre.root_meta.key,
        post.parent_meta_of_child.data.self_mint == pre.child_mint_account,
        !post.parent_meta_of_child.data.is_burnt,
        actions.len() == 1,
        actions[0] matches Action::SetAuthority { account, current_authority, new_owner, .. }
            && account == pre.child_token_account.key && current_authority == pre.current_owner
            && new_owner == pre.children_meta.key,
        forall|j: int| 0 <= j < 3 && !(#[trigger] pre.parent_meta.data.immediate_children@[j]).is_default()
            ==> post.parent_meta.data.immediate_children@[j] == pre.parent_meta.data.immediate_children@[j],
{
    crate::state::keys::lemma_first_unset(pre.parent_meta.data.immediate_children@);
}

} // verus!
