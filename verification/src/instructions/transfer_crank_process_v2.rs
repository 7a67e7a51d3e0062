use vstd::prelude::*;
use crate::accounts::Account;
use crate::pubkey::Pubkey;
use crate::state::errors::InstructionError;
use crate::state::keys::{
    append_keys, count_set, lemma_append_keys, lemma_append_keys_contains, lemma_append_keys_from,
    lemma_remove_key_count, remove_key,
};
use crate::state::metadata::{
    pubkey_array_append, pubkey_array_contains, pubkey_array_remove, ChildrenMetadataV2, CrankMetadata, ErrorCode,
    ParentMetadata,
};

verus! {

/// The accounts of `handler`.
#[derive(Clone, Copy, Debug, PartialEq, Eq)]
pub struct TransferCrankProcess {
    pub operator: Pubkey,
    pub child_mint_account: Pubkey,
    pub children_meta: Account<ChildrenMetadataV2>,
    pub parent_meta: Account<ParentMetadata>,
    pub parent_meta_of_parent: Account<ParentMetadata>,
    pub crank_meta: Account<CrankMetadata>,
}

/// The accounts after a successful `handler`: the binding record becomes its
/// own root, the NFT sits one level below its parent, and in the crank's work
/// list of children not yet processed the NFT is replaced by its own children,
/// each queued once in the lowest free slots (breadth first).
pub open spec fn effect(pre: TransferCrankProcess, post: TransferCrankProcess) -> bool {
    &&& post == (TransferCrankProcess {
        children_meta: post.children_meta,
        parent_meta: post.parent_meta,
        crank_meta: post.crank_meta,
        ..pre
    })
    &&& post.children_meta == (Account {
        data: ChildrenMetadataV2 { root: pre.children_meta.key, ..pre.children_meta.data },
        ..pre.children_meta
    })
    &&& post.parent_meta == (Account {
        data: ParentMetadata { height: (pre.parent_meta_of_parent.data.height + 1) as u8, ..pre.parent_meta.data },
        ..pre.parent_meta
    })
    &&& post.crank_meta.key == pre.crank_meta.key
    &&& post.crank_meta.data == (CrankMetadata {
        not_processed_children: post.crank_meta.data.not_processed_children,
        ..pre.crank_meta.data
    })
    &&& post.crank_meta.data.not_processed_children@ == append_keys(
        pre.parent_meta.data.immediate_children@,
        remove_key(pre.crank_meta.data.not_processed_children@, pre.child_mint_account))
}

/// Processes one NFT queued on a transfer crank (see `effect`); an NFT that is
/// not queued is refused. A parent at the greatest height has no next level,
/// so that input is excluded.
pub fn handler(ctx: &mut TransferCrankProcess) -> (r: Result<(), InstructionError>)
    requires
        old(ctx).crank_meta.data.not_processed_children@.contains(old(ctx).child_mint_account)
            ==> old(ctx).parent_meta_of_parent.data.height < u8::MAX,
    ensures
        r is Ok <==> old(ctx).crank_meta.data.not_processed_children@.contains(old(ctx).child_mint_account),
        r is Err ==> r == Err::<(), InstructionError>(InstructionError::Program(ErrorCode::InvalidTransferCrankProcess))
            && *final(ctx) == *old(ctx),
        r is Ok ==> effect(*old(ctx), *final(ctx)),
{
    if !pubkey_array_contains(&ctx.crank_meta.data.not_processed_children, ctx.child_mint_account) {
        return Err(InstructionError::Program(ErrorCode::InvalidTransferCrankProcess));
    }
    let key = ctx.children_meta.key;
    ctx.children_meta.data.root = key;
    ctx.parent_meta.data.height = ctx.parent_meta_of_parent.data.height + 1;
    pubkey_array_remove(&mut ctx.crank_meta.data.not_processed_children, ctx.child_mint_account);
    pubkey_array_append(&ctx.parent_meta.data.immediate_children, &mut ctx.crank_meta.data.not_processed_children);
    Ok(())
}

/// The crank makes progress: once processed, an NFT leaves the work list (an
/// NFT is never its own child, and the all-zero address marks free slots),
/// and only its own children join it.
pub proof fn law_crank_dequeues(pre: TransferCrankProcess, post: TransferCrankProcess, k: Pubkey)
    requires
        effect(pre, post),
        !pre.child_mint_account.is_default(),
        !pre.parent_meta.data.immediate_children@.contains(pre.child_mint_account),
        post.crank_meta.data.not_processed_children@.contains(k),
    ensures
        k != pre.child_mint_account,
        !k.is_default() ==> pre.crank_meta.data.not_processed_children@.contains(k)
            || pre.parent_meta.data.immediate_children@.contains(k),
{
    let q = pre.crank_meta.data.not_processed_children@;
    let kids = pre.parent_meta.data.immediate_children@;
    lemma_append_keys_from(kids, remove_key(q, pre.child_mint_account), k);
    let r = remove_key(q, pre.child_mint_account);
    if r.contains(k) {
        let j = choose|j: int| 0 <= j < r.len() && r[j] == k;
        if q[j] == pre.child_mint_account {
            assert(r[j] == Pubkey::spec_default());
        } else {
            assert(r[j] == q[j]);
            assert(q.contains(k));
        }
    }
}

/// A processed NFT sits exactly one level below its parent, becomes the root
/// of its own binding record, and keeps its children.
pub proof fn law_crank_process_height(pre: TransferCrankProcess, post: TransferCrankProcess)
    requires
        effect(pre, post),
        pre.parent_meta_of_parent.data.height < u8::MAX,
    ensures
        post.parent_meta.data.height == pre.parent_meta_of_parent.data.height + 1,
        post.children_meta.data.root == pre.children_meta.key,
        post.parent_meta.data.immediate_children == pre.parent_meta.data.immediate_children,
        post.parent_meta_of_parent == pre.parent_meta_of_parent,
{
}

/// Processing a queued NFT while the work list has room replaces it by its
/// children: every child is waiting afterwards, the list holds exactly one
/// entry per child more than it did without the NFT, and without the NFT it
/// holds fewer entries than before.
pub proof fn law_crank_process_queues_children(pre: TransferCrankProcess, post: TransferCrankProcess)
    requires
        effect(pre, post),
        pre.crank_meta.data.not_processed_children@.contains(pre.child_mint_account),
        count_set(remove_key(pre.crank_meta.data.not_processed_children@, pre.child_mint_account))
            + count_set(pre.parent_meta.data.immediate_children@) <= 8,
    ensures
        forall|i: int| 0 <= i < 3 && !(#[trigger] pre.parent_meta.data.immediate_children@[i]).is_default()
            ==> post.crank_meta.data.not_processed_children@.contains(pre.parent_meta.data.immediate_children@[i]),
        count_set(post.crank_meta.data.not_processed_children@)
            == count_set(remove_key(pre.crank_meta.data.not_processed_children@, pre.child_mint_account))
                + count_set(pre.parent_meta.data.immediate_children@),
        !pre.child_mint_account.is_default()
            ==> count_set(remove_key(pre.crank_meta.data.not_processed_children@, pre.child_mint_account))
                < count_set(pre.crank_meta.data.not_processed_children@),
{
    let r = remove_key(pre.crank_meta.data.not_processed_children@, pre.child_mint_account);
    lemma_append_keys_contains(pre.parent_meta.data.immediate_children@, r);
    lemma_append_keys(pre.parent_meta.data.immediate_children@, r);
    if !pre.child_mint_account.is_default() {
        lemma_remove_key_count(pre.crank_meta.data.not_processed_children@, pre.child_mint_account);
    }
}

} // verus!
