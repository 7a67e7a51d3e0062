use vstd::prelude::*;
use crate::accounts::Account;
use crate::cpi::Action;
use crate::pubkey::Pubkey;
use crate::state::errors::InstructionError;
use crate::state::keys::all_unset;
use crate::state::metadata::{ChildrenMetadataV2, CrankMetadata, ErrorCode, ParentMetadata};

verus! {

/// The accounts of `handler`.
#[derive(Clone, Copy, Debug, PartialEq, Eq)]
pub struct TransferCrankEnd {
    pub operator: Pubkey,
    pub children_meta_of_root: Account<ChildrenMetadataV2>,
    pub children_meta_of_close: Account<ChildrenMetadataV2>,
    pub parent_meta: Account<ParentMetadata>,
    pub crank_meta: Account<CrankMetadata>,
}

/// The crank belongs to the changed tree of `children_meta_of_root`, closes
/// `children_meta_of_close`, and has no child left to process.
pub open spec fn constraints(c: TransferCrankEnd) -> bool {
    &&& c.children_meta_of_root.data.root == c.children_meta_of_root.key
    &&& c.children_meta_of_root.data.is_mutable
    &&& c.children_meta_of_root.data.is_mutated
    &&& c.crank_meta.data.closed_children_meta_data == c.children_meta_of_close.key
    &&& !c.parent_meta.data.is_burnt
    &&& c.crank_meta.data.old_children_root_meta_data == c.children_meta_of_root.key
    &&& all_unset(c.crank_meta.data.not_processed_children@)
}

/// The accounts and calls of a successful `handler`: the tree is marked
/// unchanged and the crank and the old binding record are closed to the operator.
pub open spec fn end_effect(pre: TransferCrankEnd, post: TransferCrankEnd, actions: Seq<Action>) -> bool {
    &&& post == (TransferCrankEnd {
        children_meta_of_root: Account {
            data: ChildrenMetadataV2 { is_mutated: false, ..pre.children_meta_of_root.data },
            ..pre.children_meta_of_root
        },
        ..pre
    })
    &&& actions == seq![
        Action::Close { account: pre.crank_meta.key, destination: pre.operator },
        Action::Close { account: pre.children_meta_of_close.key, destination: pre.operator },
    ]
}

/// Ending a crank finishes the transfer: the root's tree is no longer marked
/// changed, no other record changes, and both the crank and the binding
/// record that the crank was set to close go back to the operator.
pub proof fn law_crank_end(pre: TransferCrankEnd, post: TransferCrankEnd, actions: Seq<Action>)
    requires
        end_effect(pre, post, actions),
    ensures
        !post.children_meta_of_root.data.is_mutated,
        post.children_meta_of_root.data.root == pre.children_meta_of_root.data.root,
        post.parent_meta == pre.parent_meta,
        post.crank_meta == pre.crank_meta,
        actions.contains(Action::Close { account: pre.crank_meta.key, destination: pre.operator }),
        actions.contains(Action::Close { account: pre.children_meta_of_close.key, destination: pre.operator }),
        forall|i: int| 0 <= i < actions.len() ==> #[trigger] actions[i] is Close,
{
    assert(actions[0] == Action::Close { account: pre.crank_meta.key, destination: pre.operator });
    assert(actions[1] == Action::Close { account: pre.children_meta_of_close.key, destination: pre.operator });
}

/// Ends a transfer crank: once the transferred NFT has no child left, the
/// tree is marked unchanged again and the crank and the old binding record
/// are closed to the operator.
pub fn handler(ctx: &mut TransferCrankEnd) -> (r: Result<Vec<Action>, InstructionError>)
    ensures
        match r {
            Err(e) => *final(ctx) == *old(ctx) && if !constraints(*old(ctx)) {
                e == InstructionError::ConstraintRaw
            } else {
                !all_unset(old(ctx).parent_meta.data.immediate_children@)
                    && e == InstructionError::Program(ErrorCode::InvalidTransferCrankEnd)
            },
            Ok(actions) => {
                &&& constraints(*old(ctx))
                &&& all_unset(old(ctx).parent_meta.data.immediate_children@)
                &&& end_effect(*old(ctx), *final(ctx), actions@)
            },
        },
{
    if !(ctx.children_meta_of_root.data.root.key_eq(&ctx.children_meta_of_root.key)
        && ctx.children_meta_of_root.data.is_mutable
        && ctx.children_meta_of_root.data.is_mutated
        && ctx.crank_meta.data.closed_children_meta_data.key_eq(&ctx.children_meta_of_close.key)
        && !ctx.parent_meta.data.is_burnt
        && ctx.crank_meta.data.old_children_root_meta_data.key_eq(&ctx.children_meta_of_root.key)
        && !ctx.crank_meta.data.has_children()) {
        return Err(InstructionError::ConstraintRaw);
    }
    if ctx.parent_meta.data.has_children() {
        return Err(InstructionError::Program(ErrorCode::InvalidTransferCrankEnd));
    }
    ctx.children_meta_of_root.data.is_mutated = false;
    let mut actions: Vec<Action> = Vec::new();
    actions.push(Action::Close { account: ctx.crank_meta.key, destination: ctx.operator });
    actions.push(Action::Close { account: ctx.children_meta_of_close.key, destination: ctx.operator });
    assert(actions@ =~= seq![
        Action::Close { account: ctx.crank_meta.key, destination: ctx.operator },
        Action::Close { account: ctx.children_meta_of_close.key, destination: ctx.operator },
    ]);
    Ok(actions)
}

} // verus!
