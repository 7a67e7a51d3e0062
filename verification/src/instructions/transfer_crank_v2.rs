use vstd::prelude::*;
use crate::accounts::{Account, TokenAccount};
use crate::cpi::Action;
use crate::pubkey::Pubkey;
use crate::state::errors::InstructionError;
use crate::state::keys::{
    all_unset, append_keys, count_set, lemma_append_keys_contains, lemma_append_keys_from, lemma_count_le_len,
    lemma_count_zero, lemma_remove_key, remove_key,
};
use crate::state::metadata::{
    pubkey_array_all_empty, pubkey_array_append, pubkey_array_contains, pubkey_array_remove, ChildrenMetadataV2,
    ErrorCode, ParentMetadata,
};

verus! {

broadcast use vstd::array::group_array_axioms;

/// Work list of the one-instruction transfer crank; slots holding the
/// all-zero address are free.
#[derive(Clone, Copy, Debug, PartialEq, Eq)]
pub struct TransferCrankMetadata {
    pub tranfered_nft: Pubkey,
    pub old_root_meta_data: Pubkey,
    pub new_root_meta_data: Pubkey,
    pub not_processed_children: [Pubkey; 32],
}

/// The accounts of `handler`.
#[derive(Clone, Copy, Debug, PartialEq, Eq)]
pub struct TransferCrank {
    pub operator: Pubkey,
    pub current_owner: Pubkey,
    pub child_token_account: TokenAccount,
    pub child_mint_account: Pubkey,
    pub parent_token_account: TokenAccount,
    pub parent_mint_account: Pubkey,
    pub root_token_account: TokenAccount,
    pub root_mint_account: Pubkey,
    pub children_meta: Account<ChildrenMetadataV2>,
    pub children_meta_of_parent: Account<ChildrenMetadataV2>,
    pub root_meta: Account<ChildrenMetadataV2>,
    pub parent_meta: Account<ParentMetadata>,
    pub parent_meta_of_parent: Account<ParentMetadata>,
    pub parent_meta_of_root: Account<ParentMetadata>,
    pub crank_meta: Account<TransferCrankMetadata>,
}

/// The account constraints of the instruction. They ask the parent's binding
/// record to be both unchanged and changed, so no accounts meet them.
pub open spec fn constraints(c: TransferCrank) -> bool {
    &&& c.child_token_account.amount == 1
    &&& c.child_token_account.mint == c.child_mint_account
    &&& c.child_token_account.owner == c.current_owner
    &&& c.parent_token_account.amount == 1
    &&& c.parent_token_account.mint == c.parent_mint_account
    &&& c.root_token_account.amount == 1
    &&& c.root_token_account.mint == c.root_mint_account
    &&& c.root_token_account.owner == c.current_owner
    &&& c.children_meta.data.root == c.root_meta.key
    &&& !c.children_meta_of_parent.data.is_mutated
    &&& c.children_meta_of_parent.data.root != c.parent_mint_account
    &&& c.children_meta_of_parent.data.root == c.root_meta.key
    &&& c.children_meta_of_parent.data.is_mutated
    &&& c.root_meta.data.root == c.root_meta.key
    &&& c.root_meta.data.is_mutable
    &&& c.root_meta.data.is_mutated
    &&& !c.parent_meta.data.is_burnt
    &&& !c.parent_meta_of_parent.data.is_burnt
    &&& !c.parent_meta_of_root.data.is_burnt
}

/// The accounts and calls after `init`: the binding record becomes the new
/// root, the crank's work list is emptied and then queues each of the NFT's
/// children once, the NFT becomes a root (height one), the parent's binding
/// record is closed and the NFT leaves its former parent's children (its
/// siblings stay).
pub open spec fn init_effect(pre: TransferCrank, post: TransferCrank, actions: Seq<Action>) -> bool {
    &&& post == (TransferCrank {
        children_meta: post.children_meta,
        parent_meta: post.parent_meta,
        parent_meta_of_parent: post.parent_meta_of_parent,
        crank_meta: post.crank_meta,
        ..pre
    })
    &&& post.children_meta == (Account {
        data: ChildrenMetadataV2 {
            parent: pre.parent_mint_account,
            root: pre.children_meta.key,
            is_mutated: false,
            ..pre.children_meta.data
        },
        ..pre.children_meta
    })
    &&& post.crank_meta.key == pre.crank_meta.key
    &&& post.crank_meta.data == (TransferCrankMetadata {
        old_root_meta_data: pre.root_meta.key,
        new_root_meta_data: pre.children_meta.key,
        not_processed_children: post.crank_meta.data.not_processed_children,
        ..pre.crank_meta.data
    })
    &&& post.crank_meta.data.not_processed_children@ == append_keys(
        pre.parent_meta.data.immediate_children@, Seq::new(32, |i: int| Pubkey::spec_default()))
    &&& post.parent_meta == (Account { data: ParentMetadata { height: 1, ..pre.parent_meta.data }, ..pre.parent_meta })
    &&& post.parent_meta_of_parent.key == pre.parent_meta_of_parent.key
    &&& post.parent_meta_of_parent.data == (ParentMetadata {
        immediate_children: post.parent_meta_of_parent.data.immediate_children,
        ..pre.parent_meta_of_parent.data
    })
    &&& post.parent_meta_of_parent.data.immediate_children@
        == remove_key(pre.parent_meta_of_parent.data.immediate_children@, pre.child_mint_account)
    &&& actions == seq![Action::Close { account: pre.children_meta_of_parent.key, destination: pre.operator }]
}

/// First step of the crank (see `init_effect`).
fn init(ctx: &mut TransferCrank) -> (r: Result<Vec<Action>, InstructionError>)
    ensures
        r matches Ok(actions) && init_effect(*old(ctx), *final(ctx), actions@),
{
    ctx.children_meta.data.parent = ctx.parent_mint_account;
    let key = ctx.children_meta.key;
    ctx.children_meta.data.root = key;
    ctx.children_meta.data.is_mutated = false;
    ctx.crank_meta.data.old_root_meta_data = ctx.root_meta.key;
    ctx.crank_meta.data.new_root_meta_data = ctx.children_meta.key;
    ctx.crank_meta.data.not_processed_children = [Pubkey::default_key(); 32];
    assert(ctx.crank_meta.data.not_processed_children@ =~= Seq::new(32, |i: int| Pubkey::spec_default()));
    pubkey_array_append(&ctx.parent_meta.data.immediate_children,
        &mut ctx.crank_meta.data.not_processed_children);
    ctx.parent_meta.data.height = 1;
    let mut actions: Vec<Action> = Vec::new();
    actions.push(Action::Close { account: ctx.children_meta_of_parent.key, destination: ctx.operator });
    pubkey_array_remove(&mut ctx.parent_meta_of_parent.data.immediate_children, ctx.child_mint_account);
    Ok(actions)
}

/// The crank has started: the NFT has a child.
pub open spec fn crank_started(c: TransferCrank) -> bool {
    !all_unset(c.parent_meta.data.immediate_children@)
}

/// The crank's work list after the step: the processed binding record leaves
/// it and each of the NFT's children is queued once.
pub open spec fn step_queue(c: TransferCrank) -> Seq<Pubkey> {
    append_keys(c.parent_meta.data.immediate_children@,
        remove_key(c.crank_meta.data.not_processed_children@, c.children_meta.key))
}

/// The accounts and calls of a processing step: the binding record joins the
/// new root, the NFT sits one level below its parent, the bindings' change
/// marks move from the parent's record to the NFT's, the record leaves the
/// work list and the NFT's children join it (`step_queue`), a leaf's records
/// are closed; once the work list is empty the tree is marked unchanged and
/// the crank is closed.
pub open spec fn step_effect(pre: TransferCrank, post: TransferCrank, actions: Seq<Action>) -> bool {
    let leaf = all_unset(pre.parent_meta.data.immediate_children@);
    let q = step_queue(pre);
    let done = all_unset(q);
    let first = if leaf {
        seq![
            Action::Close { account: pre.children_meta.key, destination: pre.operator },
            Action::Close { account: pre.parent_meta.key, destination: pre.operator },
        ]
    } else {
        Seq::<Action>::empty()
    };
    &&& post == (TransferCrank {
        children_meta: post.children_meta,
        children_meta_of_parent: post.children_meta_of_parent,
        root_meta: post.root_meta,
        parent_meta: post.parent_meta,
        crank_meta: post.crank_meta,
        ..pre
    })
    &&& post.children_meta == (Account {
        data: ChildrenMetadataV2 {
            root: pre.crank_meta.data.new_root_meta_data,
            is_mutated: true,
            ..pre.children_meta.data
        },
        ..pre.children_meta
    })
    &&& post.children_meta_of_parent == (Account {
        data: ChildrenMetadataV2 { is_mutated: false, ..pre.children_meta_of_parent.data },
        ..pre.children_meta_of_parent
    })
    &&& post.parent_meta == (Account {
        data: ParentMetadata { height: (pre.parent_meta_of_parent.data.height + 1) as u8, ..pre.parent_meta.data },
        ..pre.parent_meta
    })
    &&& post.crank_meta.key == pre.crank_meta.key
    &&& post.crank_meta.data == (TransferCrankMetadata {
        not_processed_children: post.crank_meta.data.not_processed_children,
        ..pre.crank_meta.data
    })
    &&& post.crank_meta.data.not_processed_children@ == q
    &&& if done {
        &&& post.root_meta == (Account {
            data: ChildrenMetadataV2 { is_mutated: false, ..pre.root_meta.data },
            ..pre.root_meta
        })
        &&& actions == first + seq![Action::Close { account: pre.crank_meta.key, destination: pre.operator }]
    } else {
        &&& post.root_meta == pre.root_meta
        &&& actions == first
    }
}

/// One run of the crank once its accounts are accepted: an NFT without
/// children starts the crank (`init_effect`); otherwise its binding record
/// must be queued on the crank (else the step is refused) and is processed
/// (`step_effect`). A parent at the greatest height has no next level, so
/// that input is excluded.
pub fn transfer_crank_step(ctx: &mut TransferCrank) -> (r: Result<Vec<Action>, InstructionError>)
    requires
        crank_started(*old(ctx))
            && old(ctx).crank_meta.data.not_processed_children@.contains(old(ctx).children_meta.key)
            ==> old(ctx).parent_meta_of_parent.data.height < u8::MAX,
    ensures
        !crank_started(*old(ctx)) ==> (r matches Ok(actions) && init_effect(*old(ctx), *final(ctx), actions@)),
        crank_started(*old(ctx))
            && !old(ctx).crank_meta.data.not_processed_children@.contains(old(ctx).children_meta.key)
            ==> r == Err::<Vec<Action>, InstructionError>(InstructionError::Program(ErrorCode::InvalidTransferCrank))
            && *final(ctx) == *old(ctx),
        crank_started(*old(ctx))
            && old(ctx).crank_meta.data.not_processed_children@.contains(old(ctx).children_meta.key)
            ==> (r matches Ok(actions) && step_effect(*old(ctx), *final(ctx), actions@)),
{
    let is_crank_meta_inited = !pubkey_array_all_empty(&ctx.parent_meta.data.immediate_children);
    if !is_crank_meta_inited {
        return init(ctx);
    }

    let is_in_processed_children = pubkey_array_contains(&ctx.crank_meta.data.not_processed_children, ctx.children_meta.key);
    if !is_in_processed_children {
        return Err(InstructionError::Program(ErrorCode::InvalidTransferCrank));
    }

    ctx.children_meta.data.root = ctx.crank_meta.data.new_root_meta_data;
    ctx.parent_meta.data.height = ctx.parent_meta_of_parent.data.height + 1;
    ctx.children_meta_of_parent.data.is_mutated = false;
    ctx.children_meta.data.is_mutated = true;

    let mut actions: Vec<Action> = Vec::new();
    let processed = ctx.children_meta.key;
    pubkey_array_remove(&mut ctx.crank_meta.data.not_processed_children, processed);
    let is_leaf = pubkey_array_all_empty(&ctx.parent_meta.data.immediate_children);
    if is_leaf {
        actions.push(Action::Close { account: ctx.children_meta.key, destination: ctx.operator });
        actions.push(Action::Close { account: ctx.parent_meta.key, destination: ctx.operator });
    }
    pubkey_array_append(&ctx.parent_meta.data.immediate_children,
        &mut ctx.crank_meta.data.not_processed_children);

    let is_processed_children_empty = pubkey_array_all_empty(&ctx.crank_meta.data.not_processed_children);
    if is_processed_children_empty {
        ctx.root_meta.data.is_mutated = false;
        actions.push(Action::Close { account: ctx.crank_meta.key, destination: ctx.operator });
    }
    Ok(actions)
}

/// The one-instruction transfer crank. Its accounts are first checked against
/// `constraints`, which no accounts meet, so the instruction is always refused.
pub fn handler(ctx: &mut TransferCrank) -> (r: Result<Vec<Action>, InstructionError>)
    ensures
        r == Err::<Vec<Action>, InstructionError>(InstructionError::ConstraintRaw),
        *final(ctx) == *old(ctx),
{
    if !(ctx.child_token_account.amount == 1
        && ctx.child_token_account.mint.key_eq(&ctx.child_mint_account)
        && ctx.child_token_account.owner.key_eq(&ctx.current_owner)
        && ctx.parent_token_account.amount == 1
        && ctx.parent_token_account.mint.key_eq(&ctx.parent_mint_account)
        && ctx.root_token_account.amount == 1
        && ctx.root_token_account.mint.key_eq(&ctx.root_mint_account)
        && ctx.root_token_account.owner.key_eq(&ctx.current_owner)
        && ctx.children_meta.data.root.key_eq(&ctx.root_meta.key)
        && !ctx.children_meta_of_parent.data.is_mutated
        && !ctx.children_meta_of_parent.data.root.key_eq(&ctx.parent_mint_account)
        && ctx.children_meta_of_parent.data.root.key_eq(&ctx.root_meta.key)
        && ctx.children_meta_of_parent.data.is_mutated
        && ctx.root_meta.data.root.key_eq(&ctx.root_meta.key)
        && ctx.root_meta.data.is_mutable
        && ctx.root_meta.data.is_mutated
        && !ctx.parent_meta.data.is_burnt
        && !ctx.parent_meta_of_parent.data.is_burnt
        && !ctx.parent_meta_of_root.data.is_burnt) {
        return Err(InstructionError::ConstraintRaw);
    }
    transfer_crank_step(ctx)
}

/// Starting the one-instruction crank detaches the NFT and nothing else: it
/// leaves its former parent's children while its siblings stay, it becomes a
/// root (height one) of its own binding record, and every one of its children
/// waits on the emptied work list.
pub proof fn law_crank_start(pre: TransferCrank, post: TransferCrank, actions: Seq<Action>)
    requires
        init_effect(pre, post, actions),
        !pre.child_mint_account.is_default(),
    ensures
        post.parent_meta.data.height == 1,
        post.children_meta.data.root == pre.children_meta.key,
        !post.parent_meta_of_parent.data.immediate_children@.contains(pre.child_mint_account),
        forall|j: int| 0 <= j < 3 && pre.parent_meta_of_parent.data.immediate_children@[j] != pre.child_mint_account
            ==> #[trigger] post.parent_meta_of_parent.data.immediate_children@[j]
                == pre.parent_meta_of_parent.data.immediate_children@[j],
        forall|i: int| 0 <= i < 3 && !(#[trigger] pre.parent_meta.data.immediate_children@[i]).is_default()
            ==> post.crank_meta.data.not_processed_children@.contains(pre.parent_meta.data.immediate_children@[i]),
{
    let empty = Seq::new(32, |i: int| Pubkey::spec_default());
    lemma_count_zero(empty);
    lemma_count_le_len(pre.parent_meta.data.immediate_children@);
    lemma_append_keys_contains(pre.parent_meta.data.immediate_children@, empty);
    lemma_remove_key(pre.parent_meta_of_parent.data.immediate_children@, pre.child_mint_account);
}

/// A processing step places the NFT one level below its parent under the new
/// root, takes its binding record off the work list (a record is never its
/// own child) and queues every one of its children (when the list has room).
pub proof fn law_crank_step(pre: TransferCrank, post: TransferCrank, actions: Seq<Action>)
    requires
        step_effect(pre, post, actions),
        pre.parent_meta_of_parent.data.height < u8::MAX,
        !pre.children_meta.key.is_default(),
        !pre.parent_meta.data.immediate_children@.contains(pre.children_meta.key),
    ensures
        post.parent_meta.data.height == pre.parent_meta_of_parent.data.height + 1,
        post.children_meta.data.root == pre.crank_meta.data.new_root_meta_data,
        !post.crank_meta.data.not_processed_children@.contains(pre.children_meta.key),
        count_set(remove_key(pre.crank_meta.data.not_processed_children@, pre.children_meta.key))
            + count_set(pre.parent_meta.data.immediate_children@) <= 32
            ==> forall|i: int| 0 <= i < 3 && !(#[trigger] pre.parent_meta.data.immediate_children@[i]).is_default()
            ==> post.crank_meta.data.not_processed_children@.contains(pre.parent_meta.data.immediate_children@[i]),
{
    let kids = pre.parent_meta.data.immediate_children@;
    let r = remove_key(pre.crank_meta.data.not_processed_children@, pre.children_meta.key);
    lemma_remove_key(pre.crank_meta.data.not_processed_children@, pre.children_meta.key);
    lemma_append_keys_from(kids, r, pre.children_meta.key);
    if count_set(r) + count_set(kids) <= 32 {
        lemma_append_keys_contains(kids, r);
    }
}

} // verus!
