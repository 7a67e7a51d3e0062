use vstd::prelude::*;
use crate::accounts::Account;
use crate::pubkey::Pubkey;
use crate::state::errors::InstructionError;
use crate::state::keys::{append_keys, count_set, lemma_append_keys_contains, lemma_remove_key, remove_key};
use crate::state::metadata::{
    pubkey_array_append, pubkey_array_remove, ChildrenMetadataV2, CrankMetadata, ParentMetadata,
};

verus! {

/// The accounts of `handler`.
#[derive(Clone, Copy, Debug, PartialEq, Eq)]
pub struct TransferCrankInit {
    pub operator: Pubkey,
    pub child_mint_account: Pubkey,
    pub children_meta_of_parent: Account<ChildrenMetadataV2>,
    pub children_meta_of_root: Account<ChildrenMetadataV2>,
    pub parent_meta: Account<ParentMetadata>,
    pub parent_meta_of_parent: Account<ParentMetadata>,
    pub crank_meta: Account<CrankMetadata>,
}

/// The transferred child belongs to the changed tree of `children_meta_of_root`.
pub open spec fn constraints(c: TransferCrankInit) -> bool {
    &&& c.children_meta_of_parent.data.root == c.children_meta_of_root.key
    &&& c.children_meta_of_parent.data.is_mutated
    &&& c.children_meta_of_parent.data.child == c.child_mint_account
    &&& c.children_meta_of_root.data.root == c.children_meta_of_root.key
    &&& c.children_meta_of_root.data.is_mutable
    &&& c.children_meta_of_root.data.is_mutated
}

/// The accounts after a successful `handler`: the crank records the old tree,
/// the binding to close and the transferred NFT, and queues the NFT's
/// children; the NFT leaves its former parent's children and becomes a root
/// (height one).
pub open spec fn effect(pre: TransferCrankInit, post: TransferCrankInit) -> bool {
    &&& post == (TransferCrankInit {
        parent_meta: post.parent_meta,
        parent_meta_of_parent: post.parent_meta_of_parent,
        crank_meta: post.crank_meta,
        ..pre
    })
    &&& post.crank_meta.key == pre.crank_meta.key
    &&& post.crank_meta.data == (CrankMetadata {
        old_children_root_meta_data: pre.children_meta_of_root.key,
        closed_children_meta_data: pre.children_meta_of_parent.key,
        tranfered_nft: pre.child_mint_account,
        not_processed_children: post.crank_meta.data.not_processed_children,
    })
    &&& post.crank_meta.data.not_processed_children@ == append_keys(
        pre.parent_meta.data.immediate_children@, pre.crank_meta.data.not_processed_children@)
    &&& post.parent_meta_of_parent.key == pre.parent_meta_of_parent.key
    &&& post.parent_meta_of_parent.data == (ParentMetadata {
        immediate_children: post.parent_meta_of_parent.data.immediate_children,
        ..pre.parent_meta_of_parent.data
    })
    &&& post.parent_meta_of_parent.data.immediate_children@
        == remove_key(pre.parent_meta_of_parent.data.immediate_children@, pre.child_mint_account)
    &&& post.parent_meta == (Account { data: ParentMetadata { height: 1, ..pre.parent_meta.data }, ..pre.parent_meta })
}

/// Starts the crank that re-roots the tree under a transferred NFT (see `effect`).
pub fn handler(ctx: &mut TransferCrankInit) -> (r: Result<(), InstructionError>)
    ensures
        r is Ok <==> constraints(*old(ctx)),
        r is Err ==> r == Err::<(), InstructionError>(InstructionError::ConstraintRaw) && *final(ctx) == *old(ctx),
        r is Ok ==> effect(*old(ctx), *final(ctx)),
{
    if !(ctx.children_meta_of_parent.data.root.key_eq(&ctx.children_meta_of_root.key)
        && ctx.children_meta_of_parent.data.is_mutated
        && ctx.children_meta_of_parent.data.child.key_eq(&ctx.child_mint_account)
        && ctx.children_meta_of_root.data.root.key_eq(&ctx.children_meta_of_root.key)
        && ctx.children_meta_of_root.data.is_mutable
        && ctx.children_meta_of_root.data.is_mutated) {
        return Err(InstructionError::ConstraintRaw);
    }
    ctx.crank_meta.data.old_children_root_meta_data = ctx.children_meta_of_root.key;
    ctx.crank_meta.data.closed_children_meta_data = ctx.children_meta_of_parent.key;
    ctx.crank_meta.data.tranfered_nft = ctx.child_mint_account;
    pubkey_array_append(&ctx.parent_meta.data.immediate_children, &mut ctx.crank_meta.data.not_processed_children);
    pubkey_array_remove(&mut ctx.parent_meta_of_parent.data.immediate_children, ctx.child_mint_account);
    ctx.parent_meta.data.height = 1;
    Ok(())
}

/// Starting a crank detaches the transferred NFT and nothing else: it leaves
/// its former parent's children while its siblings stay, it becomes a root
/// (height one), the crank names it, and every one of its children waits on
/// the crank (when the work list has room).
pub proof fn law_crank_init(pre: TransferCrankInit, post: TransferCrankInit)
    requires
        effect(pre, post),
        !pre.child_mint_account.is_default(),
    ensures
        post.parent_meta.data.height == 1,
        !post.parent_meta_of_parent.data.immediate_children@.contains(pre.child_mint_account),
        forall|j: int| 0 <= j < 3 && pre.parent_meta_of_parent.data.immediate_children@[j] != pre.child_mint_account
            ==> #[trigger] post.parent_meta_of_parent.data.immediate_children@[j]
                == pre.parent_meta_of_parent.data.immediate_children@[j],
        post.crank_meta.data.tranfered_nft == pre.child_mint_account,
        count_set(pre.crank_meta.data.not_processed_children@) + count_set(pre.parent_meta.data.immediate_children@) <= 8
            ==> forall|i: int| 0 <= i < 3 && !(#[trigger] pre.parent_meta.data.immediate_children@[i]).is_default()
            ==> post.crank_meta.data.not_processed_children@.contains(pre.parent_meta.data.immediate_children@[i]),
{
    lemma_remove_key(pre.parent_meta_of_parent.data.immediate_children@, pre.child_mint_account);
    if count_set(pre.crank_meta.data.not_processed_children@) + count_set(pre.parent_meta.data.immediate_children@) <= 8 {
        lemma_append_keys_contains(pre.parent_meta.data.immediate_children@, pre.crank_meta.data.not_processed_children@);
    }
}

} // verus!
