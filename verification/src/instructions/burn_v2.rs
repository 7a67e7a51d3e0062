use vstd::prelude::*;
use crate::accounts::{Account, TokenAccount};
use crate::cpi::{Action, PdaSigner};
use crate::pubkey::Pubkey;
use crate::state::errors::InstructionError;
use crate::state::keys::{
    all_unset, append_keys, count_set, find_key, lemma_append_keys_contains, lemma_count_le_len, lemma_count_zero,
    lemma_find_key, lemma_remove_keys_empties_last,
    remove_key, remove_keys,
};
use crate::state::metadata::{
    pubkey_array_all_empty, pubkey_array_append, pubkey_array_contains, pubkey_array_find, pubkey_array_len,
    pubkey_array_remove,
    BranchInfo, ChildrenMetadataV2, CrankMetadata, NewRootInfo, ParentMetadata, RootOwner, SolAccount,
};

verus! {

// ------------------------------------------------------------------------------------------------
// Burning a root NFT. A root without children is burnt at once. A root with
// children is marked burnt and handed to its own record; every child then
// becomes a new root (`handle_deal_single_new_root` for a child without
// children, `handle_start_branch` and `handle_update_branch` for the deeper
// branches). When the last child is settled the old root is burnt.
// ------------------------------------------------------------------------------------------------

/// The accounts of `handle_start_burn`.
#[derive(Clone, Copy, Debug, PartialEq, Eq)]
pub struct StartBurn {
    pub current_owner: Pubkey,
    pub parent_mint_account: Pubkey,
    pub parent_token_account: TokenAccount,
    pub parent_metadata: Account<ParentMetadata>,
    pub sol_account: Account<SolAccount>,
    pub old_root_owner: Account<RootOwner>,
}

pub open spec fn start_burn_constraints(c: StartBurn) -> bool {
    &&& c.parent_token_account.owner == c.current_owner
    &&& c.parent_token_account.mint == c.parent_mint_account
    &&& !c.parent_metadata.data.is_burnt
}

/// The calls that burn a root: a root with children is handed to its own
/// record; one without is burnt and its records closed (and, when
/// `close_token`, its token account closed too). The SOL account is closed last.
pub open spec fn root_burn_actions(
    owner: Pubkey,
    mint: Pubkey,
    token: TokenAccount,
    metadata: Account<ParentMetadata>,
    sol_account_key: Pubkey,
    old_root_owner_key: Pubkey,
    close_token: bool,
) -> Seq<Action> {
    let last = seq![Action::Close { account: sol_account_key, destination: owner }];
    if count_set(metadata.data.immediate_children@) > 0 {
        seq![Action::SetAuthority {
            account: token.key,
            current_authority: owner,
            new_owner: metadata.key,
            signer: PdaSigner::Owner,
        }] + last
    } else {
        let burn = seq![Action::Burn {
            mint: mint,
            account: token.key,
            authority: owner,
            amount: token.amount,
            signer: PdaSigner::Owner,
        }];
        let close_token_account = if close_token {
            seq![Action::CloseTokenAccount { account: token.key, destination: owner, owner: owner }]
        } else {
            Seq::empty()
        };
        burn + close_token_account + seq![
            Action::Close { account: metadata.key, destination: owner },
            Action::Close { account: old_root_owner_key, destination: owner },
        ] + last
    }
}

/// Marks the root burnt, records its owner and returns the calls of `root_burn_actions`.
pub fn burn_root(
    owner: Pubkey,
    mint: Pubkey,
    token: &TokenAccount,
    metadata: &mut Account<ParentMetadata>,
    sol_account_key: Pubkey,
    old_root_owner: &mut Account<RootOwner>,
    close_token: bool,
) -> (actions: Vec<Action>)
    ensures
        final(metadata).key == old(metadata).key,
        final(metadata).data == (ParentMetadata { is_burnt: true, ..old(metadata).data }),
        final(old_root_owner).key == old(old_root_owner).key,
        final(old_root_owner).data.owner == owner,
        actions@ == root_burn_actions(owner, mint, *token, *old(metadata), sol_account_key,
            old(old_root_owner).key, close_token),
{
    metadata.data.is_burnt = true;
    old_root_owner.data.owner = owner;
    let mut actions: Vec<Action> = Vec::new();
    proof {
        lemma_count_le_len(metadata.data.immediate_children@);
    }
    if pubkey_array_len(&metadata.data.immediate_children) > 0 {
        actions.push(Action::SetAuthority {
            account: token.key,
            current_authority: owner,
            new_owner: metadata.key,
            signer: PdaSigner::Owner,
        });
    } else {
        actions.push(Action::Burn {
            mint: mint,
            account: token.key,
            authority: owner,
            amount: token.amount,
            signer: PdaSigner::Owner,
        });
        if close_token {
            actions.push(Action::CloseTokenAccount { account: token.key, destination: owner, owner: owner });
        }
        actions.push(Action::Close { account: metadata.key, destination: owner });
        actions.push(Action::Close { account: old_root_owner.key, destination: owner });
    }
    actions.push(Action::Close { account: sol_account_key, destination: owner });
    actions
}

/// Starts burning a root NFT: the root is marked burnt and its owner recorded;
/// a root with children is handed to its own record, one without is burnt and
/// its records closed; its SOL account is closed to the owner.
pub fn handle_start_burn(ctx: &mut StartBurn) -> (r: Result<Vec<Action>, InstructionError>)
    ensures
        match r {
            Err(e) => !start_burn_constraints(*old(ctx)) && e == InstructionError::ConstraintRaw
                && *final(ctx) == *old(ctx),
            Ok(actions) => {
                &&& start_burn_constraints(*old(ctx))
                &&& *final(ctx) == (StartBurn {
                    parent_metadata: Account {
                        data: ParentMetadata { is_burnt: true, ..old(ctx).parent_metadata.data },
                        ..old(ctx).parent_metadata
                    },
                    old_root_owner: Account {
                        data: RootOwner { owner: old(ctx).current_owner },
                        ..old(ctx).old_root_owner
                    },
                    ..*old(ctx)
                })
                &&& actions@ == root_burn_actions(old(ctx).current_owner, old(ctx).parent_mint_account,
                    old(ctx).parent_token_account, old(ctx).parent_metadata, old(ctx).sol_account.key,
                    old(ctx).old_root_owner.key, false)
            },
        },
{
    if !(ctx.parent_token_account.owner.key_eq(&ctx.current_owner)
        && ctx.parent_token_account.mint.key_eq(&ctx.parent_mint_account)
        && !ctx.parent_metadata.data.is_burnt) {
        return Err(InstructionError::ConstraintRaw);
    }
    let actions = burn_root(
        ctx.current_owner,
        ctx.parent_mint_account,
        &ctx.parent_token_account,
        &mut ctx.parent_metadata,
        ctx.sol_account.key,
        &mut ctx.old_root_owner,
        false,
    );
    Ok(actions)
}

/// The calls that settle a new root `child_mint` under the burnt root
/// `parent_mint`: the child's token goes to the burnt root's former owner and
/// its binding record is closed; when no other child of the burnt root is
/// left (`remaining` has no used slot) the burnt root is burnt by its own
/// record and its records are closed.
pub open spec fn settle_new_root_actions(
    owner: Pubkey,
    parent_mint: Pubkey,
    parent_token: TokenAccount,
    parent_metadata: Account<ParentMetadata>,
    remaining: Seq<Pubkey>,
    child_mint: Pubkey,
    child_token_key: Pubkey,
    children_metadata: Account<ChildrenMetadataV2>,
    old_root_owner: Account<RootOwner>,
) -> Seq<Action> {
    let handover = seq![
        Action::SetAuthority {
            account: child_token_key,
            current_authority: children_metadata.key,
            new_owner: old_root_owner.data.owner,
            signer: PdaSigner::Children {
                parent_mint: parent_mint,
                child_mint: child_mint,
                bump: children_metadata.data.bump,
            },
        },
        Action::Close { account: children_metadata.key, destination: owner },
    ];
    if all_unset(remaining) {
        handover + seq![
            Action::Burn {
                mint: parent_mint,
                account: parent_token.key,
                authority: parent_metadata.key,
                amount: parent_token.amount,
                signer: PdaSigner::Parent { mint: parent_mint, bump: parent_metadata.data.bump },
            },
            Action::Close { account: parent_metadata.key, destination: owner },
            Action::Close { account: old_root_owner.key, destination: owner },
        ]
    } else {
        handover
    }
}

/// Settles the new root `child_mint`: removes it from the burnt root's
/// children, lowers its height by one and appends the calls of
/// `settle_new_root_actions`.
fn settle_new_root(
    owner: Pubkey,
    parent_mint: Pubkey,
    parent_token: &TokenAccount,
    parent_metadata: &mut Account<ParentMetadata>,
    child_mint: Pubkey,
    child_token_key: Pubkey,
    children_metadata: &Account<ChildrenMetadataV2>,
    child_metadata: &mut Account<ParentMetadata>,
    old_root_owner: &Account<RootOwner>,
    actions: &mut Vec<Action>,
)
    requires
        old(child_metadata).data.height >= 1,
    ensures
        final(parent_metadata).key == old(parent_metadata).key,
        final(parent_metadata).data == (ParentMetadata {
            immediate_children: final(parent_metadata).data.immediate_children,
            ..old(parent_metadata).data
        }),
        final(parent_metadata).data.immediate_children@
            == remove_key(old(parent_metadata).data.immediate_children@, child_mint),
        final(child_metadata).key == old(child_metadata).key,
        final(child_metadata).data == (ParentMetadata {
            height: (old(child_metadata).data.height - 1) as u8,
            ..old(child_metadata).data
        }),
        final(actions)@ == old(actions)@ + settle_new_root_actions(owner, parent_mint, *parent_token,
            *old(parent_metadata), remove_key(old(parent_metadata).data.immediate_children@, child_mint),
            child_mint, child_token_key, *children_metadata, *old_root_owner),
{
    pubkey_array_remove(&mut parent_metadata.data.immediate_children, child_mint);
    actions.push(Action::SetAuthority {
        account: child_token_key,
        current_authority: children_metadata.key,
        new_owner: old_root_owner.data.owner,
        signer: PdaSigner::Children {
            parent_mint: parent_mint,
            child_mint: child_mint,
            bump: children_metadata.data.bump,
        },
    });
    actions.push(Action::Close { account: children_metadata.key, destination: owner });
    child_metadata.data.height = child_metadata.data.height - 1;
    if pubkey_array_all_empty(&parent_metadata.data.immediate_children) {
        actions.push(Action::Burn {
            mint: parent_mint,
            account: parent_token.key,
            authority: parent_metadata.key,
            amount: parent_token.amount,
            signer: PdaSigner::Parent { mint: parent_mint, bump: parent_metadata.data.bump },
        });
        actions.push(Action::Close { account: parent_metadata.key, destination: owner });
        actions.push(Action::Close { account: old_root_owner.key, destination: owner });
    }
}

/// The accounts of `handle_deal_single_new_root`.
#[derive(Clone, Copy, Debug, PartialEq, Eq)]
pub struct DealSingleNewRoot {
    pub current_owner: Pubkey,
    pub parent_token: TokenAccount,
    pub child_token: TokenAccount,
    pub parent_mint: Pubkey,
    pub child_mint: Pubkey,
    pub parent_metadata: Account<ParentMetadata>,
    pub child_metadata: Account<ParentMetadata>,
    pub children_metadata: Account<ChildrenMetadataV2>,
    pub old_root_owner: Account<RootOwner>,
}

pub open spec fn deal_single_new_root_constraints(c: DealSingleNewRoot) -> bool {
    &&& c.parent_metadata.data.is_burnt
    &&& c.parent_token.mint == c.parent_mint
    &&& c.child_token.mint == c.child_mint
    &&& !c.children_metadata.data.is_mutated
}

/// `post` is `pre` with `key` removed from the children of `meta` and nothing else changed.
pub open spec fn children_removed(pre: Account<ParentMetadata>, post: Account<ParentMetadata>, key: Pubkey) -> bool {
    &&& post.key == pre.key
    &&& post.data == (ParentMetadata { immediate_children: post.data.immediate_children, ..pre.data })
    &&& post.data.immediate_children@ == remove_key(pre.data.immediate_children@, key)
}

/// `post` is `pre` one level higher in the tree.
pub open spec fn height_lowered(pre: Account<ParentMetadata>, post: Account<ParentMetadata>) -> bool {
    post == (Account { data: ParentMetadata { height: (pre.data.height - 1) as u8, ..pre.data }, ..pre })
}

/// The accounts and calls of a successful `handle_deal_single_new_root`: the
/// child leaves the burnt root's children, moves one level up and is handed to
/// the burnt root's former owner; the last child's settlement burns the old root.
pub open spec fn deal_single_new_root_effect(
    pre: DealSingleNewRoot,
    post: DealSingleNewRoot,
    actions: Seq<Action>,
) -> bool {
    &&& post == (DealSingleNewRoot {
        parent_metadata: post.parent_metadata,
        child_metadata: post.child_metadata,
        ..pre
    })
    &&& children_removed(pre.parent_metadata, post.parent_metadata, pre.child_mint)
    &&& height_lowered(pre.child_metadata, post.child_metadata)
    &&& actions == settle_new_root_actions(pre.current_owner, pre.parent_mint, pre.parent_token,
        pre.parent_metadata, post.parent_metadata.data.immediate_children@, pre.child_mint,
        pre.child_token.key, pre.children_metadata, pre.old_root_owner)
}

/// Makes a child without children of a burnt root a new root (see
/// `deal_single_new_root_effect`). A child with children of its own goes
/// through `handle_start_branch` instead, and a child at height zero has no
/// level above it; both inputs are excluded.
pub fn handle_deal_single_new_root(ctx: &mut DealSingleNewRoot) -> (r: Result<Vec<Action>, InstructionError>)
    requires
        deal_single_new_root_constraints(*old(ctx)) ==> {
            &&& count_set(old(ctx).child_metadata.data.immediate_children@) == 0
            &&& old(ctx).child_metadata.data.height >= 1
        },
    ensures
        match r {
            Err(e) => !deal_single_new_root_constraints(*old(ctx)) && e == InstructionError::ConstraintRaw
                && *final(ctx) == *old(ctx),
            Ok(actions) => deal_single_new_root_constraints(*old(ctx))
                && deal_single_new_root_effect(*old(ctx), *final(ctx), actions@),
        },
{
    if !(ctx.parent_metadata.data.is_burnt
        && ctx.parent_token.mint.key_eq(&ctx.parent_mint)
        && ctx.child_token.mint.key_eq(&ctx.child_mint)
        && !ctx.children_metadata.data.is_mutated) {
        return Err(InstructionError::ConstraintRaw);
    }
    let mut actions: Vec<Action> = Vec::new();
    settle_new_root(
        ctx.current_owner,
        ctx.parent_mint,
        &ctx.parent_token,
        &mut ctx.parent_metadata,
        ctx.child_mint,
        ctx.child_token.key,
        &ctx.children_metadata,
        &mut ctx.child_metadata,
        &ctx.old_root_owner,
        &mut actions,
    );
    Ok(actions)
}

/// The accounts of `handle_start_branch`.
#[derive(Clone, Copy, Debug, PartialEq, Eq)]
pub struct StartBranch {
    pub current_owner: Pubkey,
    pub parent_token: TokenAccount,
    pub child_token: TokenAccount,
    pub parent_mint: Pubkey,
    pub child_mint: Pubkey,
    pub parent_metadata: Account<ParentMetadata>,
    pub child_metadata: Account<ParentMetadata>,
    pub children_metadata: Account<ChildrenMetadataV2>,
    pub grandson_mint: Pubkey,
    pub grandson_metadata: Account<ParentMetadata>,
    pub grandson_children_metadata: Account<ChildrenMetadataV2>,
    pub crank_metadata: Account<CrankMetadata>,
    pub new_root_info: Account<NewRootInfo>,
    pub branch_info: Account<BranchInfo>,
    pub old_root_owner: Account<RootOwner>,
}

pub open spec fn start_branch_constraints(c: StartBranch) -> bool {
    &&& c.parent_metadata.data.is_burnt
    &&& c.parent_token.mint == c.parent_mint
    &&& c.child_token.mint == c.child_mint
    &&& !c.children_metadata.data.is_mutated
}

/// The grandson has children of its own, so its branch needs a crank.
pub open spec fn start_branch_has_grandchildren(c: StartBranch) -> bool {
    count_set(c.grandson_metadata.data.immediate_children@) > 0
}

/// Branches of the new root finished once this branch has been started.
pub open spec fn start_branch_finished_count(c: StartBranch) -> int {
    if start_branch_has_grandchildren(c) {
        c.new_root_info.data.branch_finished as int
    } else {
        c.new_root_info.data.branch_finished + 1
    }
}

/// Every branch of the new root is finished, so the new root is settled.
pub open spec fn start_branch_new_root_finished(c: StartBranch) -> bool {
    start_branch_finished_count(c) == count_set(c.child_metadata.data.immediate_children@)
}

/// The accounts and calls of a successful `handle_start_branch`. The grandson
/// becomes the root of its own records and moves one level up. A grandson
/// with children queues them on the crank; one without finishes its branch at
/// once (its branch and crank records are closed). When all branches of the
/// new root are finished, the new root is settled as in `settle_new_root_actions`.
pub open spec fn start_branch_effect(pre: StartBranch, post: StartBranch, actions: Seq<Action>) -> bool {
    let g = pre.grandson_children_metadata.key;
    let finished = start_branch_new_root_finished(pre);
    let first = if start_branch_has_grandchildren(pre) {
        Seq::<Action>::empty()
    } else {
        seq![
            Action::Close { account: pre.branch_info.key, destination: pre.current_owner },
            Action::Close { account: pre.crank_metadata.key, destination: pre.current_owner },
        ]
    };
    &&& post == (StartBranch {
        parent_metadata: post.parent_metadata,
        child_metadata: post.child_metadata,
        grandson_metadata: post.grandson_metadata,
        grandson_children_metadata: post.grandson_children_metadata,
        crank_metadata: post.crank_metadata,
        new_root_info: post.new_root_info,
        ..pre
    })
    &&& post.grandson_children_metadata == (Account {
        data: ChildrenMetadataV2 { root: g, ..pre.grandson_children_metadata.data },
        ..pre.grandson_children_metadata
    })
    &&& height_lowered(pre.grandson_metadata, post.grandson_metadata)
    &&& post.new_root_info == (Account {
        data: NewRootInfo { root: g, branch_finished: start_branch_finished_count(pre) as u32 },
        ..pre.new_root_info
    })
    &&& post.crank_metadata.key == pre.crank_metadata.key
    &&& post.crank_metadata.data == (CrankMetadata {
        not_processed_children: post.crank_metadata.data.not_processed_children,
        ..pre.crank_metadata.data
    })
    &&& post.crank_metadata.data.not_processed_children@ == if start_branch_has_grandchildren(pre) {
        append_keys(pre.grandson_metadata.data.immediate_children@,
            pre.crank_metadata.data.not_processed_children@)
    } else {
        pre.crank_metadata.data.not_processed_children@
    }
    &&& if finished {
        &&& children_removed(pre.parent_metadata, post.parent_metadata, pre.child_mint)
        &&& height_lowered(pre.child_metadata, post.child_metadata)
        &&& actions == first + seq![Action::Close { account: pre.new_root_info.key, destination: pre.current_owner }]
            + settle_new_root_actions(pre.current_owner, pre.parent_mint, pre.parent_token,
                pre.parent_metadata, post.parent_metadata.data.immediate_children@, pre.child_mint,
                pre.child_token.key, pre.children_metadata, pre.old_root_owner)
    } else {
        &&& post.parent_metadata == pre.parent_metadata
        &&& post.child_metadata == pre.child_metadata
        &&& actions == first
    }
}

/// Starts re-rooting the branch under `grandson_mint`, a grandchild of a burnt
/// root (see `start_branch_effect`). The grandson (and, when the new root is
/// settled, the child) must have a level above it, and a finished branch must
/// still fit in the count; other inputs are excluded.
pub fn handle_start_branch(ctx: &mut StartBranch) -> (r: Result<Vec<Action>, InstructionError>)
    requires
        start_branch_constraints(*old(ctx)) ==> {
            &&& old(ctx).grandson_metadata.data.height >= 1
            &&& !start_branch_has_grandchildren(*old(ctx))
                ==> old(ctx).new_root_info.data.branch_finished < u32::MAX
            &&& start_branch_new_root_finished(*old(ctx)) ==> old(ctx).child_metadata.data.height >= 1
        },
    ensures
        match r {
            Err(e) => !start_branch_constraints(*old(ctx)) && e == InstructionError::ConstraintRaw
                && *final(ctx) == *old(ctx),
            Ok(actions) => start_branch_constraints(*old(ctx))
                && start_branch_effect(*old(ctx), *final(ctx), actions@),
        },
{
    if !(ctx.parent_metadata.data.is_burnt
        && ctx.parent_token.mint.key_eq(&ctx.parent_mint)
        && ctx.child_token.mint.key_eq(&ctx.child_mint)
        && !ctx.children_metadata.data.is_mutated) {
        return Err(InstructionError::ConstraintRaw);
    }
    let ghost pre = *ctx;
    let g = ctx.grandson_children_metadata.key;
    ctx.grandson_children_metadata.data.root = g;
    ctx.new_root_info.data.root = g;
    ctx.grandson_metadata.data.height = ctx.grandson_metadata.data.height - 1;

    let mut actions: Vec<Action> = Vec::new();
    proof {
        lemma_count_le_len(ctx.grandson_metadata.data.immediate_children@);
        lemma_count_le_len(ctx.child_metadata.data.immediate_children@);
    }
    if pubkey_array_len(&ctx.grandson_metadata.data.immediate_children) > 0 {
        pubkey_array_append(&ctx.grandson_metadata.data.immediate_children,
            &mut ctx.crank_metadata.data.not_processed_children);
    } else {
        actions.push(Action::Close { account: ctx.branch_info.key, destination: ctx.current_owner });
        actions.push(Action::Close { account: ctx.crank_metadata.key, destination: ctx.current_owner });
        ctx.new_root_info.data.branch_finished = ctx.new_root_info.data.branch_finished + 1;
    }

    let ghost first = actions@;
    let new_root_finished = ctx.new_root_info.data.branch_finished
        == pubkey_array_len(&ctx.child_metadata.data.immediate_children);
    if new_root_finished {
        actions.push(Action::Close { account: ctx.new_root_info.key, destination: ctx.current_owner });
        settle_new_root(
            ctx.current_owner,
            ctx.parent_mint,
            &ctx.parent_token,
            &mut ctx.parent_metadata,
            ctx.child_mint,
            ctx.child_token.key,
            &ctx.children_metadata,
            &mut ctx.child_metadata,
            &ctx.old_root_owner,
            &mut actions,
        );
        assert(actions@ =~= first + seq![Action::Close { account: pre.new_root_info.key, destination: pre.current_owner }]
            + settle_new_root_actions(pre.current_owner, pre.parent_mint, pre.parent_token,
                pre.parent_metadata, ctx.parent_metadata.data.immediate_children@, pre.child_mint,
                pre.child_token.key, pre.children_metadata, pre.old_root_owner));
    }
    assert(first == if start_branch_has_grandchildren(pre) {
        Seq::<Action>::empty()
    } else {
        seq![
            Action::Close { account: pre.branch_info.key, destination: pre.current_owner },
            Action::Close { account: pre.crank_metadata.key, destination: pre.current_owner },
        ]
    });
    Ok(actions)
}

/// The accounts of `handle_update_branch`.
#[derive(Clone, Copy, Debug, PartialEq, Eq)]
pub struct UpdateBranch {
    pub current_owner: Pubkey,
    pub parent_mint: Pubkey,
    pub child_mint: Pubkey,
    pub child_metadata: Account<ParentMetadata>,
    pub children_metadata: Account<ChildrenMetadataV2>,
    pub old_root_mint: Pubkey,
    pub old_root_token: TokenAccount,
    pub old_root_metadata: Account<ParentMetadata>,
    pub new_root_mint: Pubkey,
    pub new_root_token: TokenAccount,
    pub new_root_metadata: Account<ParentMetadata>,
    pub root_children_metadata: Account<ChildrenMetadataV2>,
    pub grandson_mint: Pubkey,
    pub crank_metadata: Account<CrankMetadata>,
    pub new_root_info: Account<NewRootInfo>,
    pub branch_info: Account<BranchInfo>,
    pub old_root_owner: Account<RootOwner>,
}

pub open spec fn update_branch_constraints(c: UpdateBranch) -> bool {
    c.old_root_metadata.data.is_burnt
}

/// The crank's work list once `child_mint` has been processed: its slot is
/// cleared and its own children are queued.
pub open spec fn update_branch_queue(c: UpdateBranch) -> Seq<Pubkey> {
    let q = c.crank_metadata.data.not_processed_children@;
    append_keys(
        c.child_metadata.data.immediate_children@,
        q.update(find_key(q, c.child_mint) as int, Pubkey::spec_default()),
    )
}

/// The branch has no child left to process.
pub open spec fn update_branch_finished(c: UpdateBranch) -> bool {
    all_unset(update_branch_queue(c))
}

/// The branch finishes and it was the last branch of the new root.
pub open spec fn update_branch_new_root_finished(c: UpdateBranch) -> bool {
    &&& update_branch_finished(c)
    &&& c.new_root_info.data.branch_finished + 1 == count_set(c.new_root_metadata.data.immediate_children@)
}

/// The accounts and calls of a successful `handle_update_branch`. The
/// processed child moves one level up, points at the new root and is replaced
/// on the crank by its own children. When the crank empties, the branch is
/// finished (crank and branch records closed, one more finished branch); when
/// that was the new root's last branch, the new root is settled as in
/// `settle_new_root_actions`.
pub open spec fn update_branch_effect(pre: UpdateBranch, post: UpdateBranch, actions: Seq<Action>) -> bool {
    let owner = pre.current_owner;
    &&& post == (UpdateBranch {
        child_metadata: post.child_metadata,
        children_metadata: post.children_metadata,
        old_root_metadata: post.old_root_metadata,
        new_root_metadata: post.new_root_metadata,
        crank_metadata: post.crank_metadata,
        new_root_info: post.new_root_info,
        ..pre
    })
    &&& post.children_metadata == (Account {
        data: ChildrenMetadataV2 { root: pre.new_root_info.data.root, ..pre.children_metadata.data },
        ..pre.children_metadata
    })
    &&& height_lowered(pre.child_metadata, post.child_metadata)
    &&& post.crank_metadata.key == pre.crank_metadata.key
    &&& post.crank_metadata.data == (CrankMetadata {
        not_processed_children: post.crank_metadata.data.not_processed_children,
        ..pre.crank_metadata.data
    })
    &&& post.crank_metadata.data.not_processed_children@ == update_branch_queue(pre)
    &&& if update_branch_finished(pre) {
        let closing = seq![
            Action::Close { account: pre.crank_metadata.key, destination: owner },
            Action::Close { account: pre.branch_info.key, destination: owner },
        ];
        &&& post.new_root_info == (Account {
            data: NewRootInfo {
                branch_finished: (pre.new_root_info.data.branch_finished + 1) as u32,
                ..pre.new_root_info.data
            },
            ..pre.new_root_info
        })
        &&& if update_branch_new_root_finished(pre) {
            &&& children_removed(pre.old_root_metadata, post.old_root_metadata, pre.new_root_mint)
            &&& height_lowered(pre.new_root_metadata, post.new_root_metadata)
            &&& actions == closing + seq![Action::Close { account: pre.new_root_info.key, destination: owner }]
                + settle_new_root_actions(owner, pre.old_root_mint, pre.old_root_token,
                    pre.old_root_metadata, post.old_root_metadata.data.immediate_children@,
                    pre.new_root_mint, pre.new_root_token.key, pre.root_children_metadata,
                    pre.old_root_owner)
        } else {
            &&& post.old_root_metadata == pre.old_root_metadata
            &&& post.new_root_metadata == pre.new_root_metadata
            &&& actions == closing
        }
    } else {
        &&& post.new_root_info == pre.new_root_info
        &&& post.old_root_metadata == pre.old_root_metadata
        &&& post.new_root_metadata == pre.new_root_metadata
        &&& actions == Seq::<Action>::empty()
    }
}

/// The inputs that `handle_update_branch` accepts: accounts it refuses, or
/// accounts for which `child_mint` is queued on the crank, the child and (when
/// the new root is settled) the new root have a level above them, and a
/// finished branch can still be counted.
pub open spec fn update_branch_requirements(c: UpdateBranch) -> bool {
    update_branch_constraints(c) ==> {
        &&& c.crank_metadata.data.not_processed_children@.contains(c.child_mint)
        &&& c.child_metadata.data.height >= 1
        &&& update_branch_finished(c) ==> c.new_root_info.data.branch_finished < u32::MAX
        &&& update_branch_new_root_finished(c) ==> c.new_root_metadata.data.height >= 1
    }
}

/// Whether `update_branch_requirements` holds of `ctx`.
pub fn check_update_branch(ctx: &UpdateBranch) -> (r: bool)
    ensures
        r == update_branch_requirements(*ctx),
{
    if !ctx.old_root_metadata.data.is_burnt {
        return true;
    }
    if !pubkey_array_contains(&ctx.crank_metadata.data.not_processed_children, ctx.child_mint) {
        return false;
    }
    if ctx.child_metadata.data.height < 1 {
        return false;
    }
    let ghost q0 = ctx.crank_metadata.data.not_processed_children@;
    let mut queue = ctx.crank_metadata.data.not_processed_children;
    let pos = pubkey_array_find(&queue, ctx.child_mint);
    proof {
        lemma_find_key(q0, ctx.child_mint);
    }
    queue[pos as usize] = Pubkey::default_key();
    pubkey_array_append(&ctx.child_metadata.data.immediate_children, &mut queue);
    assert(queue@ == update_branch_queue(*ctx));
    if !pubkey_array_all_empty(&queue) {
        return true;
    }
    if ctx.new_root_info.data.branch_finished == u32::MAX {
        return false;
    }
    proof {
        lemma_count_le_len(ctx.new_root_metadata.data.immediate_children@);
    }
    let new_root_finished = ctx.new_root_info.data.branch_finished + 1
        == pubkey_array_len(&ctx.new_root_metadata.data.immediate_children);
    !new_root_finished || ctx.new_root_metadata.data.height >= 1
}

/// Processes `child_mint`, a node of a branch being re-rooted under a new
/// root (see `update_branch_effect`). Only the inputs of
/// `update_branch_requirements` are accepted (`check_update_branch` tests
/// them): `child_mint` must be queued, have a level above it, and a finished
/// branch must still fit in the count.
pub fn handle_update_branch(ctx: &mut UpdateBranch) -> (r: Result<Vec<Action>, InstructionError>)
    requires
        update_branch_requirements(*old(ctx)),
    ensures
        match r {
            Err(e) => !update_branch_constraints(*old(ctx)) && e == InstructionError::ConstraintRaw
                && *final(ctx) == *old(ctx),
            Ok(actions) => update_branch_constraints(*old(ctx))
                && update_branch_effect(*old(ctx), *final(ctx), actions@),
        },
{
    if !ctx.old_root_metadata.data.is_burnt {
        return Err(InstructionError::ConstraintRaw);
    }
    let ghost pre = *ctx;
    let pos = pubkey_array_find(&ctx.crank_metadata.data.not_processed_children, ctx.child_mint);
    proof {
        lemma_find_key(pre.crank_metadata.data.not_processed_children@, pre.child_mint);
    }
    ctx.children_metadata.data.root = ctx.new_root_info.data.root;
    ctx.child_metadata.data.height = ctx.child_metadata.data.height - 1;
    ctx.crank_metadata.data.not_processed_children[pos as usize] = Pubkey::default_key();
    pubkey_array_append(&ctx.child_metadata.data.immediate_children,
        &mut ctx.crank_metadata.data.not_processed_children);

    let mut actions: Vec<Action> = Vec::new();
    let branch_finished = pubkey_array_all_empty(&ctx.crank_metadata.data.not_processed_children);
    if branch_finished {
        ctx.new_root_info.data.branch_finished = ctx.new_root_info.data.branch_finished + 1;
        actions.push(Action::Close { account: ctx.crank_metadata.key, destination: ctx.current_owner });
        actions.push(Action::Close { account: ctx.branch_info.key, destination: ctx.current_owner });

        proof {
            lemma_count_le_len(ctx.new_root_metadata.data.immediate_children@);
        }
        let new_root_finished = ctx.new_root_info.data.branch_finished
            == pubkey_array_len(&ctx.new_root_metadata.data.immediate_children);
        let ghost closing = seq![
            Action::Close { account: pre.crank_metadata.key, destination: pre.current_owner },
            Action::Close { account: pre.branch_info.key, destination: pre.current_owner },
        ];
        assert(actions@ =~= closing);
        if new_root_finished {
            actions.push(Action::Close { account: ctx.new_root_info.key, destination: ctx.current_owner });
            settle_new_root(
                ctx.current_owner,
                ctx.old_root_mint,
                &ctx.old_root_token,
                &mut ctx.old_root_metadata,
                ctx.new_root_mint,
                ctx.new_root_token.key,
                &ctx.root_children_metadata,
                &mut ctx.new_root_metadata,
                &ctx.old_root_owner,
                &mut actions,
            );
            assert(actions@ =~= closing + seq![Action::Close { account: pre.new_root_info.key, destination: pre.current_owner }]
                + settle_new_root_actions(pre.current_owner, pre.old_root_mint, pre.old_root_token,
                    pre.old_root_metadata, ctx.old_root_metadata.data.immediate_children@,
                    pre.new_root_mint, pre.new_root_token.key, pre.root_children_metadata,
                    pre.old_root_owner));
        }
    }
    Ok(actions)
}


/// Burning a root always returns its SOL account to the owner: the last call
/// closes it to the owner.
pub proof fn law_burn_returns_sol(
    owner: Pubkey,
    mint: Pubkey,
    token: TokenAccount,
    metadata: Account<ParentMetadata>,
    sol_account_key: Pubkey,
    old_root_owner_key: Pubkey,
    close_token: bool,
)
    ensures
        ({
            let a = root_burn_actions(owner, mint, token, metadata, sol_account_key, old_root_owner_key, close_token);
            a.len() > 0 && a.last() == (Action::Close { account: sol_account_key, destination: owner })
        }),
{
}

/// Each settlement brings a burnt root closer to its end: the settled child
/// leaves its children, its token goes to the burnt root's former owner, and
/// the burnt root itself is burnt, by the record that received it when the
/// burn started, exactly when no child is left.
pub proof fn law_settlement_progress(
    owner: Pubkey,
    parent_mint: Pubkey,
    parent_token: TokenAccount,
    parent_metadata: Account<ParentMetadata>,
    child_mint: Pubkey,
    child_token_key: Pubkey,
    children_metadata: Account<ChildrenMetadataV2>,
    old_root_owner: Account<RootOwner>,
)
    requires
        parent_metadata.data.immediate_children@.contains(child_mint),
        !child_mint.is_default(),
    ensures
        ({
            let kids = parent_metadata.data.immediate_children@;
            let remaining = remove_key(kids, child_mint);
            let a = settle_new_root_actions(owner, parent_mint, parent_token, parent_metadata, remaining,
                child_mint, child_token_key, children_metadata, old_root_owner);
            &&& count_set(remaining) < count_set(kids)
            &&& a[0] is SetAuthority && a[0]->new_owner == old_root_owner.data.owner
            &&& (count_set(remaining) == 0) == (a.len() == 5)
            &&& count_set(remaining) == 0 ==> a[2] == (Action::Burn {
                mint: parent_mint,
                account: parent_token.key,
                authority: parent_metadata.key,
                amount: parent_token.amount,
                signer: PdaSigner::Parent { mint: parent_mint, bump: parent_metadata.data.bump },
            })
            &&& count_set(remaining) > 0 ==> a.len() == 2
        }),
{
    let kids = parent_metadata.data.immediate_children@;
    crate::state::keys::lemma_remove_key_count(kids, child_mint);
    crate::state::keys::lemma_count_zero(remove_key(kids, child_mint));
}

/// A root with children that starts burning is handed to its own record, and
/// that same record is the authority that burns it when its last child is settled.
pub proof fn law_burn_authority_consistent(
    pre: StartBurn,
    later_metadata: Account<ParentMetadata>,
    child_mint: Pubkey,
    child_token_key: Pubkey,
    children_metadata: Account<ChildrenMetadataV2>,
    old_root_owner: Account<RootOwner>,
)
    requires
        count_set(pre.parent_metadata.data.immediate_children@) > 0,
        later_metadata.key == pre.parent_metadata.key,
        all_unset(remove_key(later_metadata.data.immediate_children@, child_mint)),
    ensures
        ({
            let start = root_burn_actions(pre.current_owner, pre.parent_mint_account, pre.parent_token_account,
                pre.parent_metadata, pre.sol_account.key, pre.old_root_owner.key, false);
            let end = settle_new_root_actions(pre.current_owner, pre.parent_mint_account,
                pre.parent_token_account, later_metadata,
                remove_key(later_metadata.data.immediate_children@, child_mint), child_mint,
                child_token_key, children_metadata, old_root_owner);
            &&& start[0] is SetAuthority && start[0]->SetAuthority_account == pre.parent_token_account.key
            &&& end[2] is Burn && end[2]->Burn_account == pre.parent_token_account.key
            &&& start[0]->new_owner == end[2]->Burn_authority
        }),
{
}

/// A burnt root is burnt after exactly one settlement per child. Its
/// children `children` (distinct, exactly the used slots of `kids`) are
/// settled one after the other, each settlement removing its child from what
/// the previous ones left; the settlement of `children[i]` burns the old root
/// (its calls end with the burn and the closing of the root's records)
/// exactly when it is the last one, and before that only hands the child over.
pub proof fn law_burn_after_every_child(
    owner: Pubkey,
    parent_mint: Pubkey,
    parent_token: TokenAccount,
    parent_metadata: Account<ParentMetadata>,
    kids: Seq<Pubkey>,
    children: Seq<Pubkey>,
    i: int,
    child_token_key: Pubkey,
    children_metadata: Account<ChildrenMetadataV2>,
    old_root_owner: Account<RootOwner>,
)
    requires
        0 <= i < children.len(),
        forall|a: int, b: int| 0 <= a < b < children.len() ==> children[a] != children[b],
        forall|a: int| 0 <= a < children.len() ==> !(#[trigger] children[a]).is_default() && kids.contains(children[a]),
        forall|j: int| 0 <= j < kids.len() && !(#[trigger] kids[j]).is_default() ==> children.contains(kids[j]),
    ensures
        ({
            let left = remove_keys(kids, children.take(i + 1));
            let a = settle_new_root_actions(owner, parent_mint, parent_token, parent_metadata, left,
                children[i], child_token_key, children_metadata, old_root_owner);
            &&& left == remove_key(remove_keys(kids, children.take(i)), children[i])
            &&& (a.len() == 5 && a[2] is Burn) <==> i == children.len() - 1
            &&& i < children.len() - 1 ==> a.len() == 2
        }),
{
    assert(children.take(i + 1).drop_last() =~= children.take(i));
    lemma_remove_keys_empties_last(kids, children, i);
}

/// A root without children is burnt at once by its owner: the first call
/// burns all of the owner's tokens of the root, its records are closed to the
/// owner and no token changes hands. Only a root with children is handed to
/// its own record instead, and then nothing is burnt.
pub proof fn law_leaf_root_is_burnt(
    owner: Pubkey,
    mint: Pubkey,
    token: TokenAccount,
    metadata: Account<ParentMetadata>,
    sol_account_key: Pubkey,
    old_root_owner_key: Pubkey,
    close_token: bool,
)
    ensures
        ({
            let a = root_burn_actions(owner, mint, token, metadata, sol_account_key, old_root_owner_key, close_token);
            &&& count_set(metadata.data.immediate_children@) == 0 ==> {
                &&& a[0] == (Action::Burn {
                    mint: mint,
                    account: token.key,
                    authority: owner,
                    amount: token.amount,
                    signer: PdaSigner::Owner,
                })
                &&& a.contains(Action::Close { account: metadata.key, destination: owner })
                &&& a.contains(Action::Close { account: old_root_owner_key, destination: owner })
                &&& forall|i: int| 0 <= i < a.len() ==> !(#[trigger] a[i] is SetAuthority)
            }
            &&& count_set(metadata.data.immediate_children@) > 0 ==> {
                &&& a[0] == (Action::SetAuthority {
                    account: token.key,
                    current_authority: owner,
                    new_owner: metadata.key,
                    signer: PdaSigner::Owner,
                })
                &&& forall|i: int| 0 <= i < a.len() ==> !(#[trigger] a[i] is Burn)
            }
        }),
{
    let a = root_burn_actions(owner, mint, token, metadata, sol_account_key, old_root_owner_key, close_token);
    if count_set(metadata.data.immediate_children@) == 0 {
        if close_token {
            assert(a[2] == Action::Close { account: metadata.key, destination: owner });
            assert(a[3] == Action::Close { account: old_root_owner_key, destination: owner });
        } else {
            assert(a[1] == Action::Close { account: metadata.key, destination: owner });
            assert(a[2] == Action::Close { account: old_root_owner_key, destination: owner });
        }
    }
}

/// A successful start of burning marks exactly the root burnt, records the
/// signer as the root's owner, and calls as `law_leaf_root_is_burnt` says;
/// the token account is never closed by this instruction.
pub proof fn law_start_burn(pre: StartBurn, post: StartBurn, actions: Seq<Action>)
    requires
        start_burn_constraints(pre),
        post == (StartBurn {
            parent_metadata: Account {
                data: ParentMetadata { is_burnt: true, ..pre.parent_metadata.data },
                ..pre.parent_metadata
            },
            old_root_owner: Account { data: RootOwner { owner: pre.current_owner }, ..pre.old_root_owner },
            ..pre
        }),
        actions == root_burn_actions(pre.current_owner, pre.parent_mint_account, pre.parent_token_account,
            pre.parent_metadata, pre.sol_account.key, pre.old_root_owner.key, false),
    ensures
        post.parent_metadata.data.is_burnt,
        post.old_root_owner.data.owner == pre.current_owner,
        count_set(pre.parent_metadata.data.immediate_children@) == 0 ==> actions[0] == (Action::Burn {
            mint: pre.parent_mint_account,
            account: pre.parent_token_account.key,
            authority: pre.current_owner,
            amount: pre.parent_token_account.amount,
            signer: PdaSigner::Owner,
        }),
        forall|i: int| 0 <= i < actions.len() ==> !(#[trigger] actions[i] is CloseTokenAccount),
{
    law_leaf_root_is_burnt(pre.current_owner, pre.parent_mint_account, pre.parent_token_account,
        pre.parent_metadata, pre.sol_account.key, pre.old_root_owner.key, false);
}

/// Whether `actions` settles the new root `child_mint`: its token is handed
/// to the burnt root's former owner.
pub open spec fn hands_over(actions: Seq<Action>, child_token_key: Pubkey, new_owner: Pubkey) -> bool {
    exists|i: int| 0 <= i < actions.len() && (#[trigger] actions[i] matches Action::SetAuthority {
        account, new_owner: o, ..
    } && account == child_token_key && o == new_owner)
}

/// Starting a branch counts finished branches one by one: a grandson without
/// children finishes its branch and adds exactly one to the new root's count,
/// one with children adds nothing. The new root is settled (its token handed
/// to the burnt root's former owner) exactly when the count reaches the number
/// of the new root's children; otherwise only records are closed.
pub proof fn law_start_branch_counts(pre: StartBranch, post: StartBranch, actions: Seq<Action>)
    requires
        start_branch_effect(pre, post, actions),
        pre.new_root_info.data.branch_finished < u32::MAX,
        pre.grandson_metadata.data.height >= 1,
    ensures
        count_set(pre.grandson_metadata.data.immediate_children@) == 0
            ==> post.new_root_info.data.branch_finished == pre.new_root_info.data.branch_finished + 1,
        count_set(pre.grandson_metadata.data.immediate_children@) > 0
            ==> post.new_root_info.data.branch_finished == pre.new_root_info.data.branch_finished,
        post.new_root_info.data.branch_finished == count_set(pre.child_metadata.data.immediate_children@)
            ==> hands_over(actions, pre.child_token.key, pre.old_root_owner.data.owner),
        post.new_root_info.data.branch_finished != count_set(pre.child_metadata.data.immediate_children@)
            ==> forall|i: int| 0 <= i < actions.len() ==> #[trigger] actions[i] is Close,
        post.grandson_metadata.data.height == pre.grandson_metadata.data.height - 1,
{
    if post.new_root_info.data.branch_finished == count_set(pre.child_metadata.data.immediate_children@) {
        let first_len: int = if start_branch_has_grandchildren(pre) { 0 } else { 2 };
        let i = first_len + 1;
        assert(actions[i] is SetAuthority);
    }
}

/// Processing the last queued node of a branch finishes the branch: the new
/// root's count of finished branches grows by exactly one, and the new root
/// is settled (its token handed to the burnt root's former owner) exactly
/// when that count reaches the number of its children. A node that leaves
/// work on the crank changes no count and makes no call. The processed node
/// moves one level up.
pub proof fn law_update_branch_counts(pre: UpdateBranch, post: UpdateBranch, actions: Seq<Action>)
    requires
        update_branch_effect(pre, post, actions),
        pre.new_root_info.data.branch_finished < u32::MAX,
        pre.child_metadata.data.height >= 1,
    ensures
        update_branch_finished(pre)
            ==> post.new_root_info.data.branch_finished == pre.new_root_info.data.branch_finished + 1,
        update_branch_finished(pre)
            && post.new_root_info.data.branch_finished == count_set(pre.new_root_metadata.data.immediate_children@)
            ==> hands_over(actions, pre.new_root_token.key, pre.old_root_owner.data.owner),
        update_branch_finished(pre)
            && post.new_root_info.data.branch_finished != count_set(pre.new_root_metadata.data.immediate_children@)
            ==> forall|i: int| 0 <= i < actions.len() ==> #[trigger] actions[i] is Close,
        !update_branch_finished(pre) ==> post.new_root_info == pre.new_root_info && actions.len() == 0,
        post.child_metadata.data.height == pre.child_metadata.data.height - 1,
{
    if update_branch_finished(pre)
        && post.new_root_info.data.branch_finished == count_set(pre.new_root_metadata.data.immediate_children@) {
        assert(actions[3] is SetAuthority);
    }
}

/// Settling a child without children makes it a new root one level up: it
/// leaves the burnt root's children and its token goes to the burnt root's
/// former owner.
pub proof fn law_deal_single_new_root(pre: DealSingleNewRoot, post: DealSingleNewRoot, actions: Seq<Action>)
    requires
        deal_single_new_root_effect(pre, post, actions),
        !pre.child_mint.is_default(),
        pre.child_metadata.data.height >= 1,
    ensures
        post.child_metadata.data.height == pre.child_metadata.data.height - 1,
        !post.parent_metadata.data.immediate_children@.contains(pre.child_mint),
        hands_over(actions, pre.child_token.key, pre.old_root_owner.data.owner),
{
    crate::state::keys::lemma_remove_key(pre.parent_metadata.data.immediate_children@, pre.child_mint);
    assert(actions[0] is SetAuthority);
}

/// Starting a branch makes the grandson the root of its own binding record,
/// one level up, records it as the new root being built, and puts every one
/// of its children on the crank (when the crank has room).
pub proof fn law_start_branch_reroots(pre: StartBranch, post: StartBranch, actions: Seq<Action>)
    requires
        start_branch_effect(pre, post, actions),
    ensures
        post.grandson_children_metadata.data.root == pre.grandson_children_metadata.key,
        post.new_root_info.data.root == pre.grandson_children_metadata.key,
        count_set(pre.crank_metadata.data.not_processed_children@)
            + count_set(pre.grandson_metadata.data.immediate_children@) <= 8
            ==> forall|i: int| 0 <= i < 3 && !(#[trigger] pre.grandson_metadata.data.immediate_children@[i]).is_default()
            ==> post.crank_metadata.data.not_processed_children@.contains(pre.grandson_metadata.data.immediate_children@[i]),
{
    let kids = pre.grandson_metadata.data.immediate_children@;
    if count_set(pre.crank_metadata.data.not_processed_children@) + count_set(kids) <= 8 {
        if start_branch_has_grandchildren(pre) {
            lemma_append_keys_contains(kids, pre.crank_metadata.data.not_processed_children@);
        } else {
            lemma_count_zero(kids);
        }
    }
}

/// Processing a node of a branch points its binding record at the new root
/// and, when the crank has room, replaces the node on the crank by its
/// children: one waiting entry fewer, one more per child, and every child
/// waiting.
pub proof fn law_update_branch_queue(pre: UpdateBranch, post: UpdateBranch, actions: Seq<Action>)
    requires
        update_branch_effect(pre, post, actions),
        pre.crank_metadata.data.not_processed_children@.contains(pre.child_mint),
        !pre.child_mint.is_default(),
    ensures
        post.children_metadata.data.root == pre.new_root_info.data.root,
        count_set(pre.crank_metadata.data.not_processed_children@)
            + count_set(pre.child_metadata.data.immediate_children@) <= 9 ==> {
            &&& count_set(post.crank_metadata.data.not_processed_children@)
                == count_set(pre.crank_metadata.data.not_processed_children@) - 1
                    + count_set(pre.child_metadata.data.immediate_children@)
            &&& forall|i: int| 0 <= i < 3 && !(#[trigger] pre.child_metadata.data.immediate_children@[i]).is_default()
                ==> post.crank_metadata.data.not_processed_children@.contains(pre.child_metadata.data.immediate_children@[i])
        },
{
    let q = pre.crank_metadata.data.not_processed_children@;
    let kids = pre.child_metadata.data.immediate_children@;
    lemma_find_key(q, pre.child_mint);
    let j = find_key(q, pre.child_mint) as int;
    let r = q.update(j, Pubkey::spec_default());
    crate::state::keys::lemma_count_update(q, j, Pubkey::spec_default());
    if count_set(q) + count_set(kids) <= 9 {
        lemma_append_keys_contains(kids, r);
        crate::state::keys::lemma_append_keys(kids, r);
    }
}

} // verus!
