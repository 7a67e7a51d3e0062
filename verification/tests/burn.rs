use synft::accounts::{Account, TokenAccount};
use synft::cpi::{Action, PdaSigner};
use synft::instructions::burn_v2::{
    check_update_branch, handle_deal_single_new_root, handle_start_branch, handle_start_burn, handle_update_branch, DealSingleNewRoot,
    StartBranch, StartBurn, UpdateBranch,
};
use synft::pubkey::Pubkey;
use synft::state::errors::InstructionError;
use synft::state::metadata::{
    BranchInfo, ChildType, ChildrenMetadataV2, CrankMetadata, NewRootInfo, ParentMetadata, RootOwner, SolAccount,
};

fn key(n: u8) -> Pubkey {
    Pubkey::new_from_array([n; 32])
}

fn zero() -> Pubkey {
    Pubkey::default_key()
}

fn parent(height: u8, burnt: bool, kids: [Pubkey; 3], bump: u8) -> ParentMetadata {
    ParentMetadata { bump, is_burnt: burnt, height, self_mint: zero(), immediate_children: kids }
}

fn binding(bump: u8) -> ChildrenMetadataV2 {
    ChildrenMetadataV2 {
        child: zero(),
        parent: zero(),
        root: zero(),
        is_mutable: true,
        is_burnt: false,
        is_mutated: false,
        child_type: ChildType::NFT,
        bump,
    }
}

fn token(k: u8, mint: Pubkey, owner: Pubkey, amount: u64) -> TokenAccount {
    TokenAccount { key: key(k), mint, owner, amount }
}

fn start_burn(kids: [Pubkey; 3]) -> StartBurn {
    StartBurn {
        current_owner: key(1),
        parent_mint_account: key(2),
        parent_token_account: token(3, key(2), key(1), 1),
        parent_metadata: Account { key: key(4), data: parent(0, false, kids, 250) },
        sol_account: Account { key: key(5), data: SolAccount { bump: 7, reserve_buffer: [zero(); 12] } },
        old_root_owner: Account { key: key(6), data: RootOwner { owner: zero() } },
    }
}

#[test]
fn start_burn_of_leaf_root_burns_and_closes() {
    let mut ctx = start_burn([zero(); 3]);
    let actions = handle_start_burn(&mut ctx).unwrap();
    assert_eq!(
        actions,
        vec![
            Action::Burn { mint: key(2), account: key(3), authority: key(1), amount: 1, signer: PdaSigner::Owner },
            Action::Close { account: key(4), destination: key(1) },
            Action::Close { account: key(6), destination: key(1) },
            Action::Close { account: key(5), destination: key(1) },
        ]
    );
    assert!(ctx.parent_metadata.data.is_burnt);
    assert_eq!(ctx.old_root_owner.data.owner, key(1));
}

#[test]
fn start_burn_of_root_with_children_hands_it_to_its_record() {
    let mut ctx = start_burn([zero(), key(9), zero()]);
    let actions = handle_start_burn(&mut ctx).unwrap();
    assert_eq!(
        actions,
        vec![
            Action::SetAuthority { account: key(3), current_authority: key(1), new_owner: key(4), signer: PdaSigner::Owner },
            Action::Close { account: key(5), destination: key(1) },
        ]
    );
    assert!(ctx.parent_metadata.data.is_burnt);
}

#[test]
fn start_burn_refuses_a_burnt_root_or_foreign_token() {
    let mut burnt = start_burn([zero(); 3]);
    burnt.parent_metadata.data.is_burnt = true;
    let before = burnt;
    assert_eq!(handle_start_burn(&mut burnt), Err(InstructionError::ConstraintRaw));
    assert_eq!(burnt, before);
    let mut foreign = start_burn([zero(); 3]);
    foreign.parent_token_account.owner = key(77);
    assert_eq!(handle_start_burn(&mut foreign), Err(InstructionError::ConstraintRaw));
}

fn deal(kids: [Pubkey; 3]) -> DealSingleNewRoot {
    DealSingleNewRoot {
        current_owner: key(1),
        parent_token: token(10, key(11), key(12), 1),
        child_token: token(20, key(21), key(22), 1),
        parent_mint: key(11),
        child_mint: key(21),
        parent_metadata: Account { key: key(13), data: parent(0, true, kids, 200) },
        child_metadata: Account { key: key(23), data: parent(1, false, [zero(); 3], 201) },
        children_metadata: Account { key: key(30), data: binding(202) },
        old_root_owner: Account { key: key(40), data: RootOwner { owner: key(41) } },
    }
}

#[test]
fn last_child_settlement_burns_the_old_root() {
    let mut ctx = deal([zero(), key(21), zero()]);
    let actions = handle_deal_single_new_root(&mut ctx).unwrap();
    assert_eq!(
        actions,
        vec![
            Action::SetAuthority {
                account: key(20),
                current_authority: key(30),
                new_owner: key(41),
                signer: PdaSigner::Children { parent_mint: key(11), child_mint: key(21), bump: 202 },
            },
            Action::Close { account: key(30), destination: key(1) },
            Action::Burn {
                mint: key(11),
                account: key(10),
                authority: key(13),
                amount: 1,
                signer: PdaSigner::Parent { mint: key(11), bump: 200 },
            },
            Action::Close { account: key(13), destination: key(1) },
            Action::Close { account: key(40), destination: key(1) },
        ]
    );
    assert_eq!(ctx.parent_metadata.data.immediate_children, [zero(); 3]);
    assert_eq!(ctx.child_metadata.data.height, 0);
}

#[test]
fn settlement_with_children_left_only_hands_over() {
    let mut ctx = deal([key(21), key(50), zero()]);
    let actions = handle_deal_single_new_root(&mut ctx).unwrap();
    assert_eq!(actions.len(), 2);
    assert_eq!(ctx.parent_metadata.data.immediate_children, [zero(), key(50), zero()]);
}

#[test]
fn settlement_refuses_unburnt_root_or_mutated_binding() {
    let mut ctx = deal([key(21), zero(), zero()]);
    ctx.parent_metadata.data.is_burnt = false;
    assert_eq!(handle_deal_single_new_root(&mut ctx), Err(InstructionError::ConstraintRaw));
    let mut ctx = deal([key(21), zero(), zero()]);
    ctx.children_metadata.data.is_mutated = true;
    assert_eq!(handle_deal_single_new_root(&mut ctx), Err(InstructionError::ConstraintRaw));
    let mut ctx = deal([key(21), zero(), zero()]);
    ctx.child_token.mint = key(99);
    assert_eq!(handle_deal_single_new_root(&mut ctx), Err(InstructionError::ConstraintRaw));
}

fn branch(grandkids: [Pubkey; 3], child_kids: [Pubkey; 3], finished: u32) -> StartBranch {
    StartBranch {
        current_owner: key(1),
        parent_token: token(10, key(11), key(12), 1),
        child_token: token(20, key(21), key(22), 1),
        parent_mint: key(11),
        child_mint: key(21),
        parent_metadata: Account { key: key(13), data: parent(0, true, [key(21), zero(), zero()], 200) },
        child_metadata: Account { key: key(23), data: parent(1, false, child_kids, 201) },
        children_metadata: Account { key: key(30), data: binding(202) },
        grandson_mint: key(60),
        grandson_metadata: Account { key: key(61), data: parent(2, false, grandkids, 203) },
        grandson_children_metadata: Account { key: key(62), data: binding(204) },
        crank_metadata: Account {
            key: key(63),
            data: CrankMetadata {
                tranfered_nft: zero(),
                old_children_root_meta_data: zero(),
                closed_children_meta_data: zero(),
                not_processed_children: [zero(); 8],
            },
        },
        new_root_info: Account { key: key(64), data: NewRootInfo { branch_finished: finished, root: zero() } },
        branch_info: Account { key: key(65), data: BranchInfo {} },
        old_root_owner: Account { key: key(40), data: RootOwner { owner: key(41) } },
    }
}

#[test]
fn branch_with_grandchildren_queues_them() {
    let mut ctx = branch([key(70), zero(), key(71)], [key(60), zero(), zero()], 0);
    let actions = handle_start_branch(&mut ctx).unwrap();
    assert!(actions.is_empty());
    assert_eq!(&ctx.crank_metadata.data.not_processed_children[..3], &[key(70), key(71), zero()]);
    assert_eq!(ctx.grandson_children_metadata.data.root, key(62));
    assert_eq!(ctx.new_root_info.data.root, key(62));
    assert_eq!(ctx.grandson_metadata.data.height, 1);
    assert_eq!(ctx.new_root_info.data.branch_finished, 0);
}

#[test]
fn last_leaf_branch_settles_new_root_and_burns_old_root() {
    let mut ctx = branch([zero(); 3], [key(60), zero(), zero()], 0);
    let actions = handle_start_branch(&mut ctx).unwrap();
    assert_eq!(actions[0], Action::Close { account: key(65), destination: key(1) });
    assert_eq!(actions[1], Action::Close { account: key(63), destination: key(1) });
    assert_eq!(actions[2], Action::Close { account: key(64), destination: key(1) });
    assert_eq!(actions.len(), 8);
    assert_eq!(ctx.new_root_info.data.branch_finished, 1);
    assert_eq!(ctx.parent_metadata.data.immediate_children, [zero(); 3]);
    assert_eq!(ctx.child_metadata.data.height, 0);
}

#[test]
fn leaf_branch_with_other_branches_pending() {
    let mut ctx = branch([zero(); 3], [key(60), key(80), zero()], 0);
    let actions = handle_start_branch(&mut ctx).unwrap();
    assert_eq!(actions.len(), 2);
    assert_eq!(ctx.new_root_info.data.branch_finished, 1);
    assert_eq!(ctx.child_metadata.data.height, 1);
}

fn update(queue: [Pubkey; 8], child_kids: [Pubkey; 3], finished: u32, new_root_kids: [Pubkey; 3]) -> UpdateBranch {
    UpdateBranch {
        current_owner: key(1),
        parent_mint: key(60),
        child_mint: key(70),
        child_metadata: Account { key: key(71), data: parent(3, false, child_kids, 1) },
        children_metadata: Account { key: key(72), data: binding(2) },
        old_root_mint: key(11),
        old_root_token: token(10, key(11), key(12), 1),
        old_root_metadata: Account { key: key(13), data: parent(0, true, [key(21), zero(), zero()], 200) },
        new_root_mint: key(21),
        new_root_token: token(20, key(21), key(22), 1),
        new_root_metadata: Account { key: key(23), data: parent(1, false, new_root_kids, 201) },
        root_children_metadata: Account { key: key(30), data: binding(202) },
        grandson_mint: key(60),
        crank_metadata: Account {
            key: key(63),
            data: CrankMetadata {
                tranfered_nft: zero(),
                old_children_root_meta_data: zero(),
                closed_children_meta_data: zero(),
                not_processed_children: queue,
            },
        },
        new_root_info: Account { key: key(64), data: NewRootInfo { branch_finished: finished, root: key(62) } },
        branch_info: Account { key: key(65), data: BranchInfo {} },
        old_root_owner: Account { key: key(40), data: RootOwner { owner: key(41) } },
    }
}

#[test]
fn update_branch_replaces_child_by_its_children() {
    let mut q = [zero(); 8];
    q[2] = key(70);
    q[3] = key(79);
    let mut ctx = update(q, [key(90), zero(), key(91)], 0, [key(60), zero(), zero()]);
    let actions = handle_update_branch(&mut ctx).unwrap();
    assert!(actions.is_empty());
    let mut expected = [zero(); 8];
    expected[0] = key(90);
    expected[1] = key(91);
    expected[3] = key(79);
    assert_eq!(ctx.crank_metadata.data.not_processed_children, expected);
    assert_eq!(ctx.children_metadata.data.root, key(62));
    assert_eq!(ctx.child_metadata.data.height, 2);
}

#[test]
fn update_branch_finishing_everything_burns_old_root() {
    let mut q = [zero(); 8];
    q[5] = key(70);
    let mut ctx = update(q, [zero(); 3], 0, [key(60), zero(), zero()]);
    let actions = handle_update_branch(&mut ctx).unwrap();
    assert_eq!(actions.len(), 8);
    assert_eq!(actions[0], Action::Close { account: key(63), destination: key(1) });
    assert_eq!(actions[1], Action::Close { account: key(65), destination: key(1) });
    assert_eq!(actions[2], Action::Close { account: key(64), destination: key(1) });
    assert_eq!(
        actions[5],
        Action::Burn {
            mint: key(11),
            account: key(10),
            authority: key(13),
            amount: 1,
            signer: PdaSigner::Parent { mint: key(11), bump: 200 },
        }
    );
    assert_eq!(ctx.new_root_info.data.branch_finished, 1);
    assert_eq!(ctx.old_root_metadata.data.immediate_children, [zero(); 3]);
    assert_eq!(ctx.new_root_metadata.data.height, 0);
}

#[test]
fn update_branch_finishing_one_of_several_branches() {
    let mut q = [zero(); 8];
    q[0] = key(70);
    let mut ctx = update(q, [zero(); 3], 0, [key(60), key(61), zero()]);
    let actions = handle_update_branch(&mut ctx).unwrap();
    assert_eq!(actions.len(), 2);
    assert_eq!(ctx.new_root_info.data.branch_finished, 1);
    assert_eq!(ctx.new_root_metadata.data.height, 1);
}

#[test]
fn update_branch_refuses_unburnt_old_root() {
    let mut q = [zero(); 8];
    q[0] = key(70);
    let mut ctx = update(q, [zero(); 3], 0, [key(60), zero(), zero()]);
    ctx.old_root_metadata.data.is_burnt = false;
    assert_eq!(handle_update_branch(&mut ctx), Err(InstructionError::ConstraintRaw));
}

#[test]
fn burn_completes_after_one_settlement_per_child() {
    let kids = [key(21), key(25), key(26)];
    let mut metadata = deal(kids).parent_metadata;
    let mut lens = Vec::new();
    for child in [key(25), key(21), key(26)] {
        let mut ctx = deal(kids);
        ctx.parent_metadata = metadata;
        ctx.child_mint = child;
        ctx.child_token = token(20, child, key(22), 1);
        let actions = handle_deal_single_new_root(&mut ctx).unwrap();
        lens.push(actions.len());
        metadata = ctx.parent_metadata;
    }
    assert_eq!(lens, vec![2, 2, 5]);
    assert_eq!(metadata.data.immediate_children, [zero(); 3]);
}

#[test]
fn update_branch_inputs_are_checked() {
    let mut q = [zero(); 8];
    q[2] = key(70);
    let ok = update(q, [key(90), zero(), zero()], 0, [key(60), zero(), zero()]);
    assert!(check_update_branch(&ok));
    let unqueued = update([zero(); 8], [zero(); 3], 0, [key(60), zero(), zero()]);
    assert!(!check_update_branch(&unqueued));
    let mut at_top = ok;
    at_top.child_metadata.data.height = 0;
    assert!(!check_update_branch(&at_top));
    let full_count = update(q, [zero(); 3], u32::MAX, [key(60), zero(), zero()]);
    assert!(!check_update_branch(&full_count));
    let mut new_root_at_top = update(q, [zero(); 3], 0, [key(60), zero(), zero()]);
    new_root_at_top.new_root_metadata.data.height = 0;
    assert!(!check_update_branch(&new_root_at_top));
    let mut unburnt = unqueued;
    unburnt.old_root_metadata.data.is_burnt = false;
    assert!(check_update_branch(&unburnt));
}
