use synft::accounts::{Account, TokenAccount};
use synft::cpi::{Action, PdaSigner};
use synft::instructions::{
    burn_for_sol_v2, burn_for_token, crank_process_v2, extract, extract_sol, extract_sol_v2,
    initialize_fungible_token_inject, initialize_inject, initialize_sol_inject, inject_sol_v2, inject_to_non_root_v2,
    nft_copy, transfer_child_nft_v2, transfer_crank_end_v2, transfer_crank_init, transfer_crank_process_v2,
    transfer_crank_v2,
};
use synft::pubkey::Pubkey;
use synft::state::errors::InstructionError;
use synft::state::metadata::{
    ChildType, ChildrenMetadata, ChildrenMetadataV2, CrankMetadata, ErrorCode, ParentMetadata, SolAccount,
};

fn key(n: u8) -> Pubkey {
    Pubkey::new_from_array([n; 32])
}

fn zero() -> Pubkey {
    Pubkey::default_key()
}

fn token(k: u8, mint: Pubkey, owner: Pubkey, amount: u64) -> TokenAccount {
    TokenAccount { key: key(k), mint, owner, amount }
}

fn v1(child: Pubkey, reversible: bool, child_type: ChildType, bump: u8) -> ChildrenMetadata {
    ChildrenMetadata { reversible, bump, child, child_type }
}

fn v2(root: Pubkey, mutable: bool, mutated: bool) -> ChildrenMetadataV2 {
    ChildrenMetadataV2 {
        child: zero(),
        parent: zero(),
        root,
        is_mutable: mutable,
        is_burnt: false,
        is_mutated: mutated,
        child_type: ChildType::NFT,
        bump: 0,
    }
}

fn parent(height: u8, kids: [Pubkey; 3]) -> ParentMetadata {
    ParentMetadata { bump: 0, is_burnt: false, height, self_mint: zero(), immediate_children: kids }
}

#[test]
fn burn_for_sol_burns_all_tokens() {
    let ctx = burn_for_sol_v2::BurnForSolV2 {
        current_owner: key(1),
        parent_mint_account: key(2),
        parent_token_account: token(3, key(2), key(1), 5),
        sol_account: Account { key: key(4), data: SolAccount { bump: 9, reserve_buffer: [zero(); 12] } },
    };
    assert_eq!(
        burn_for_sol_v2::handler(&ctx, 9),
        Ok(vec![Action::Burn { mint: key(2), account: key(3), authority: key(1), amount: 5, signer: PdaSigner::Owner }])
    );
    assert_eq!(burn_for_sol_v2::handler(&ctx, 8), Err(InstructionError::ConstraintRaw));
}

#[test]
fn burn_for_token_refuses_sol_children() {
    let mut ctx = burn_for_token::BurnForToken {
        current_owner: key(1),
        parent_token_mint: key(2),
        parent_token_account: token(3, key(2), key(1), 1),
        child_token_account: key(5),
        children_meta: Account { key: key(6), data: v1(key(5), true, ChildType::SOL, 7) },
    };
    assert_eq!(burn_for_token::handler(&ctx), Err(InstructionError::Program(ErrorCode::InvalidBurnType)));
    ctx.children_meta.data.child_type = ChildType::SPL;
    assert_eq!(
        burn_for_token::handler(&ctx),
        Ok(vec![
            Action::Burn { mint: key(2), account: key(3), authority: key(1), amount: 1, signer: PdaSigner::Owner },
            Action::SetAuthority {
                account: key(5),
                current_authority: key(6),
                new_owner: key(1),
                signer: PdaSigner::ChildrenOf { parent: key(3), bump: 7 },
            },
        ])
    );
    ctx.child_token_account = key(99);
    assert_eq!(burn_for_token::handler(&ctx), Err(InstructionError::ConstraintRaw));
}

#[test]
fn crank_process_only_checks_accounts() {
    let mut ctx = crank_process_v2::CrankProcess {
        operator: key(1),
        current_owner: key(2),
        child_token_account: token(3, key(4), key(2), 1),
        child_mint_account: key(4),
        parent_token_account: token(5, key(6), key(9), 1),
        parent_mint_account: key(6),
        root_token_account: token(7, key(8), key(9), 1),
        root_mint_account: key(8),
        children_meta: Account { key: key(10), data: v2(zero(), true, false) },
        root_meta: Account { key: key(11), data: v2(zero(), true, false) },
    };
    assert_eq!(crank_process_v2::handler(&ctx), Ok(()));
    ctx.root_token_account.amount = 2;
    assert_eq!(crank_process_v2::handler(&ctx), Err(InstructionError::ConstraintRaw));
}

#[test]
fn extract_returns_reversible_child() {
    let mut ctx = extract::Extract {
        current_owner: key(1),
        child_token_account: key(5),
        parent_token_account: token(3, key(2), key(1), 1),
        children_meta: Account { key: key(6), data: v1(key(5), true, ChildType::NFT, 7) },
    };
    assert_eq!(
        extract::handler(&ctx, 7),
        Ok(vec![Action::SetAuthority {
            account: key(5),
            current_authority: key(6),
            new_owner: key(1),
            signer: PdaSigner::ChildrenOf { parent: key(3), bump: 7 },
        }])
    );
    assert_eq!(extract::handler(&ctx, 6), Err(InstructionError::ConstraintRaw));
    ctx.children_meta.data.reversible = false;
    assert_eq!(extract::handler(&ctx, 7), Err(InstructionError::Program(ErrorCode::InvalidExtractAttempt)));
}

#[test]
fn extract_sol_needs_reversible_binding() {
    let mut ctx = extract_sol::ExtractSol {
        current_owner: key(1),
        parent_token_account: token(3, key(2), key(1), 1),
        parent_mint_account: key(2),
        children_meta: Account { key: key(6), data: v1(zero(), true, ChildType::SOL, 7) },
    };
    assert_eq!(extract_sol::handler(&ctx, 7), Ok(()));
    ctx.children_meta.data.reversible = false;
    assert_eq!(extract_sol::handler(&ctx, 7), Err(InstructionError::Program(ErrorCode::InvalidExtractAttempt)));
    ctx.parent_token_account.owner = key(8);
    assert_eq!(extract_sol::handler(&ctx, 7), Err(InstructionError::ConstraintRaw));
}

#[test]
fn extract_sol_v2_returns_sol_account_to_owner() {
    let mut ctx = extract_sol_v2::ExtractSolV2 {
        current_owner: key(1),
        root_mint_account: key(2),
        root_token_account: token(3, key(2), key(1), 1),
        root_meta: Account { key: key(4), data: ChildrenMetadataV2 { parent: key(2), ..v2(key(4), true, false) } },
        parent_token_account: token(5, key(6), key(1), 1),
        parent_mint_account: key(6),
        self_metadata: Account { key: key(7), data: ParentMetadata { bump: 3, ..parent(1, [zero(); 3]) } },
        sol_account: Account { key: key(8), data: SolAccount { bump: 2, reserve_buffer: [zero(); 12] } },
    };
    assert_eq!(
        extract_sol_v2::handler(&ctx, 3),
        Ok(vec![Action::Close { account: key(8), destination: key(1) }])
    );
    ctx.root_meta.data.is_mutated = true;
    assert_eq!(extract_sol_v2::handler(&ctx, 3), Err(InstructionError::ConstraintRaw));
}

#[test]
fn fungible_token_injection() {
    let mut ctx = initialize_fungible_token_inject::InitializeFungibleTokenInject {
        current_owner: key(1),
        owner_token_account: key(2),
        parent_token_account: token(3, key(4), key(1), 1),
        parent_mint_account: key(4),
        children_meta: Account { key: key(5), data: v1(zero(), false, ChildType::NFT, 0) },
        mint: key(6),
        fungible_token_account: key(7),
    };
    let actions = initialize_fungible_token_inject::handler(&mut ctx, true, 9, 1_000).unwrap();
    assert_eq!(actions, vec![Action::TokenTransfer { from: key(2), to: key(7), authority: key(1), amount: 1_000 }]);
    assert_eq!(ctx.children_meta.data, v1(key(7), true, ChildType::SPL, 9));
}

#[test]
fn nft_injection_needs_single_parent_token() {
    let mut ctx = initialize_inject::InitializeInject {
        current_owner: key(1),
        child_token_account: key(2),
        parent_token_account: token(3, key(4), key(1), 2),
        parent_mint_account: key(4),
        children_meta: Account { key: key(5), data: v1(zero(), false, ChildType::SOL, 0) },
    };
    assert_eq!(initialize_inject::handler(&mut ctx, true, 1), Err(InstructionError::ConstraintRaw));
    ctx.parent_token_account.amount = 1;
    assert_eq!(
        initialize_inject::handler(&mut ctx, true, 1),
        Ok(vec![Action::SetAuthority { account: key(2), current_authority: key(1), new_owner: key(5), signer: PdaSigner::Owner }])
    );
    assert_eq!(ctx.children_meta.data, v1(key(2), true, ChildType::NFT, 1));
}

#[test]
fn sol_injection_transfers_lamports() {
    let mut ctx = initialize_sol_inject::InitializeSolInject {
        current_owner: key(1),
        parent_token_account: token(3, key(4), key(1), 1),
        parent_mint_account: key(4),
        children_meta: Account { key: key(5), data: v1(key(8), false, ChildType::NFT, 0) },
    };
    assert_eq!(
        initialize_sol_inject::handler(&mut ctx, false, 2, 100_000_000),
        Ok(vec![Action::SystemTransfer { from: key(1), to: key(5), lamports: 100_000_000 }])
    );
    assert_eq!(ctx.children_meta.data, v1(key(8), false, ChildType::SOL, 2));

    let mut v2ctx = inject_sol_v2::InjectSolV2 {
        current_owner: key(1),
        parent_token_account: token(3, key(4), key(1), 1),
        parent_mint_account: key(4),
        sol_account: Account { key: key(6), data: SolAccount { bump: 0, reserve_buffer: [zero(); 12] } },
    };
    assert_eq!(
        inject_sol_v2::handler(&mut v2ctx, 254, 7),
        Ok(vec![Action::SystemTransfer { from: key(1), to: key(6), lamports: 7 }])
    );
    assert_eq!(v2ctx.sol_account.data.bump, 254);
    v2ctx.parent_token_account.owner = key(9);
    assert_eq!(inject_sol_v2::handler(&mut v2ctx, 1, 7), Err(InstructionError::ConstraintRaw));
}

fn non_root(parent_height: u8, kids: [Pubkey; 3]) -> inject_to_non_root_v2::InjectToNonRootV2 {
    inject_to_non_root_v2::InjectToNonRootV2 {
        current_owner: key(1),
        child_token_account: token(2, key(3), key(1), 1),
        child_mint_account: key(3),
        parent_token_account: token(4, key(5), key(9), 1),
        parent_mint_account: key(5),
        root_token_account: token(6, key(7), key(1), 1),
        root_mint_account: key(7),
        children_meta: Account { key: key(10), data: v2(zero(), false, false) },
        children_meta_of_parent: Account { key: key(11), data: v2(key(12), true, false) },
        root_meta: Account { key: key(12), data: v2(key(12), true, false) },
        parent_meta: Account { key: key(13), data: parent(parent_height, kids) },
        parent_meta_of_child: Account { key: key(14), data: parent(0, [zero(); 3]) },
    }
}

#[test]
fn injection_below_non_root() {
    let mut ctx = non_root(2, [key(40), zero(), zero()]);
    let actions = inject_to_non_root_v2::handler(&mut ctx, true, 8, 9).unwrap();
    assert_eq!(
        actions,
        vec![Action::SetAuthority { account: key(2), current_authority: key(1), new_owner: key(10), signer: PdaSigner::Owner }]
    );
    assert_eq!(ctx.parent_meta.data.immediate_children, [key(40), key(3), zero()]);
    assert_eq!(ctx.parent_meta_of_child.data.height, 3);
    assert_eq!(ctx.parent_meta_of_child.data.self_mint, key(3));
    assert_eq!(ctx.parent_meta_of_child.data.bump, 9);
    assert_eq!(ctx.children_meta.data.root, key(12));
    assert_eq!(ctx.children_meta.data.parent, key(5));
    assert_eq!(ctx.children_meta.data.child, key(3));
    assert_eq!(ctx.children_meta.data.bump, 8);
}

#[test]
fn injection_into_full_parent_is_refused() {
    let mut ctx = non_root(1, [key(40), key(41), key(42)]);
    let before = ctx;
    assert_eq!(
        inject_to_non_root_v2::handler(&mut ctx, true, 8, 9),
        Err(InstructionError::Program(ErrorCode::ImmediateChildrenFull))
    );
    assert_eq!(ctx, before);
}

#[test]
fn injection_at_height_limit_is_refused() {
    let mut ctx = non_root(3, [zero(); 3]);
    assert_eq!(inject_to_non_root_v2::handler(&mut ctx, true, 8, 9), Err(InstructionError::ConstraintRaw));
    let mut ctx = non_root(0, [zero(); 3]);
    ctx.children_meta_of_parent.data.root = key(5);
    assert_eq!(inject_to_non_root_v2::handler(&mut ctx, true, 8, 9), Err(InstructionError::ConstraintRaw));
}

#[test]
fn child_nft_transfer_marks_tree_changed() {
    let mut ctx = transfer_child_nft_v2::TransferChildNftV2 {
        current_owner: key(1),
        root_mint_account: key(2),
        root_token_account: token(3, key(2), key(1), 1),
        root_meta: Account { key: key(4), data: ChildrenMetadataV2 { parent: key(2), ..v2(key(4), true, false) } },
        parent_mint_account: key(5),
        parent_of_children_meta: Account {
            key: key(6),
            data: ChildrenMetadataV2 { parent: key(5), child: key(7), ..v2(key(4), true, false) },
        },
        child_mint_account: key(7),
        child_token_account: token(8, key(7), key(6), 1),
        receiver_account: key(9),
    };
    let actions = transfer_child_nft_v2::handler(&mut ctx, 253).unwrap();
    assert_eq!(
        actions,
        vec![Action::SetAuthority {
            account: key(8),
            current_authority: key(6),
            new_owner: key(9),
            signer: PdaSigner::Children { parent_mint: key(5), child_mint: key(7), bump: 253 },
        }]
    );
    assert!(ctx.root_meta.data.is_mutated);
    assert!(ctx.parent_of_children_meta.data.is_mutated);
    assert_eq!(transfer_child_nft_v2::handler(&mut ctx, 253), Err(InstructionError::ConstraintRaw));
}

fn crank(queue: [Pubkey; 8]) -> CrankMetadata {
    CrankMetadata {
        tranfered_nft: zero(),
        old_children_root_meta_data: key(20),
        closed_children_meta_data: key(21),
        not_processed_children: queue,
    }
}

#[test]
fn crank_end_requires_empty_work() {
    let mut ctx = transfer_crank_end_v2::TransferCrankEnd {
        operator: key(1),
        children_meta_of_root: Account { key: key(20), data: v2(key(20), true, true) },
        children_meta_of_close: Account { key: key(21), data: v2(zero(), true, true) },
        parent_meta: Account { key: key(22), data: parent(1, [zero(), key(5), zero()]) },
        crank_meta: Account { key: key(23), data: crank([zero(); 8]) },
    };
    assert_eq!(
        transfer_crank_end_v2::handler(&mut ctx),
        Err(InstructionError::Program(ErrorCode::InvalidTransferCrankEnd))
    );
    ctx.parent_meta.data.immediate_children = [zero(); 3];
    assert_eq!(
        transfer_crank_end_v2::handler(&mut ctx),
        Ok(vec![
            Action::Close { account: key(23), destination: key(1) },
            Action::Close { account: key(21), destination: key(1) },
        ])
    );
    assert!(!ctx.children_meta_of_root.data.is_mutated);
    let mut busy = ctx;
    busy.children_meta_of_root.data.is_mutated = true;
    busy.crank_meta.data.not_processed_children[0] = key(3);
    assert_eq!(transfer_crank_end_v2::handler(&mut busy), Err(InstructionError::ConstraintRaw));
}

#[test]
fn crank_init_queues_children_and_detaches() {
    let mut ctx = transfer_crank_init::TransferCrankInit {
        operator: key(1),
        child_mint_account: key(30),
        children_meta_of_parent: Account {
            key: key(21),
            data: ChildrenMetadataV2 { child: key(30), ..v2(key(20), true, true) },
        },
        children_meta_of_root: Account { key: key(20), data: v2(key(20), true, true) },
        parent_meta: Account { key: key(22), data: parent(2, [key(31), zero(), key(32)]) },
        parent_meta_of_parent: Account { key: key(24), data: parent(1, [key(30), key(33), key(30)]) },
        crank_meta: Account { key: key(23), data: crank([zero(); 8]) },
    };
    assert_eq!(transfer_crank_init::handler(&mut ctx), Ok(()));
    let mut q = [zero(); 8];
    q[0] = key(31);
    q[1] = key(32);
    assert_eq!(ctx.crank_meta.data.not_processed_children, q);
    assert_eq!(ctx.crank_meta.data.tranfered_nft, key(30));
    assert_eq!(ctx.crank_meta.data.old_children_root_meta_data, key(20));
    assert_eq!(ctx.crank_meta.data.closed_children_meta_data, key(21));
    assert_eq!(ctx.parent_meta_of_parent.data.immediate_children, [zero(), key(33), zero()]);
    assert_eq!(ctx.parent_meta.data.height, 1);
}

#[test]
fn crank_process_replaces_node_by_its_children() {
    let mut q = [zero(); 8];
    q[0] = key(29);
    q[1] = key(30);
    let mut ctx = transfer_crank_process_v2::TransferCrankProcess {
        operator: key(1),
        child_mint_account: key(30),
        children_meta: Account { key: key(40), data: v2(zero(), true, true) },
        parent_meta: Account { key: key(41), data: parent(5, [zero(), key(50), key(51)]) },
        parent_meta_of_parent: Account { key: key(42), data: parent(1, [zero(); 3]) },
        crank_meta: Account { key: key(43), data: crank(q) },
    };
    assert_eq!(transfer_crank_process_v2::handler(&mut ctx), Ok(()));
    let mut expected = [zero(); 8];
    expected[0] = key(29);
    expected[1] = key(50);
    expected[2] = key(51);
    assert_eq!(ctx.crank_meta.data.not_processed_children, expected);
    assert_eq!(ctx.children_meta.data.root, key(40));
    assert_eq!(ctx.parent_meta.data.height, 2);
    ctx.child_mint_account = key(99);
    let before = ctx;
    assert_eq!(
        transfer_crank_process_v2::handler(&mut ctx),
        Err(InstructionError::Program(ErrorCode::InvalidTransferCrankProcess))
    );
    assert_eq!(ctx, before);
}

#[test]
fn crank_process_of_leaf_only_dequeues() {
    let mut q = [zero(); 8];
    q[3] = key(30);
    let mut ctx = transfer_crank_process_v2::TransferCrankProcess {
        operator: key(1),
        child_mint_account: key(30),
        children_meta: Account { key: key(40), data: v2(zero(), true, true) },
        parent_meta: Account { key: key(41), data: parent(5, [zero(); 3]) },
        parent_meta_of_parent: Account { key: key(42), data: parent(1, [zero(); 3]) },
        crank_meta: Account { key: key(43), data: crank(q) },
    };
    assert_eq!(transfer_crank_process_v2::handler(&mut ctx), Ok(()));
    assert_eq!(ctx.crank_meta.data.not_processed_children, [zero(); 8]);
}

fn transfer_crank(kids: [Pubkey; 3], queue: [Pubkey; 32]) -> transfer_crank_v2::TransferCrank {
    transfer_crank_v2::TransferCrank {
        operator: key(1),
        current_owner: key(2),
        child_token_account: token(3, key(4), key(2), 1),
        child_mint_account: key(4),
        parent_token_account: token(5, key(6), key(9), 1),
        parent_mint_account: key(6),
        root_token_account: token(7, key(8), key(2), 1),
        root_mint_account: key(8),
        children_meta: Account { key: key(10), data: v2(key(12), true, false) },
        children_meta_of_parent: Account { key: key(11), data: v2(key(12), true, true) },
        root_meta: Account { key: key(12), data: v2(key(12), true, true) },
        parent_meta: Account { key: key(13), data: parent(2, kids) },
        parent_meta_of_parent: Account { key: key(14), data: parent(1, [key(4), key(15), zero()]) },
        parent_meta_of_root: Account { key: key(16), data: parent(0, [zero(); 3]) },
        crank_meta: Account {
            key: key(17),
            data: transfer_crank_v2::TransferCrankMetadata {
                tranfered_nft: zero(),
                old_root_meta_data: zero(),
                new_root_meta_data: key(18),
                not_processed_children: queue,
            },
        },
    }
}

#[test]
fn transfer_crank_is_always_refused() {
    let mut ctx = transfer_crank([zero(); 3], [zero(); 32]);
    let before = ctx;
    assert_eq!(transfer_crank_v2::handler(&mut ctx), Err(InstructionError::ConstraintRaw));
    assert_eq!(ctx, before);
    ctx.children_meta_of_parent.data.is_mutated = false;
    assert_eq!(transfer_crank_v2::handler(&mut ctx), Err(InstructionError::ConstraintRaw));
}

#[test]
fn transfer_crank_step_starts_crank() {
    let mut ctx = transfer_crank([zero(); 3], [key(99); 32]);
    let actions = transfer_crank_v2::transfer_crank_step(&mut ctx).unwrap();
    assert_eq!(actions, vec![Action::Close { account: key(11), destination: key(1) }]);
    assert_eq!(ctx.crank_meta.data.not_processed_children, [zero(); 32]);
    assert_eq!(ctx.crank_meta.data.old_root_meta_data, key(12));
    assert_eq!(ctx.crank_meta.data.new_root_meta_data, key(10));
    assert_eq!(ctx.children_meta.data.root, key(10));
    assert_eq!(ctx.children_meta.data.parent, key(6));
    assert_eq!(ctx.parent_meta.data.height, 1);
    assert_eq!(ctx.parent_meta_of_parent.data.immediate_children, [zero(), key(15), zero()]);
}

#[test]
fn transfer_crank_step_processes_queued_node() {
    let mut q = [zero(); 32];
    q[0] = key(70);
    q[4] = key(10);
    let mut ctx = transfer_crank([key(60), zero(), key(61)], q);
    let actions = transfer_crank_v2::transfer_crank_step(&mut ctx).unwrap();
    assert!(actions.is_empty());
    let mut expected = [zero(); 32];
    expected[0] = key(70);
    expected[1] = key(60);
    expected[2] = key(61);
    assert_eq!(ctx.crank_meta.data.not_processed_children, expected);
    assert_eq!(ctx.children_meta.data.root, key(18));
    assert!(ctx.children_meta.data.is_mutated);
    assert!(!ctx.children_meta_of_parent.data.is_mutated);
    assert_eq!(ctx.parent_meta.data.height, 2);
    assert!(ctx.root_meta.data.is_mutated);
}

#[test]
fn transfer_crank_step_refuses_unqueued_node() {
    let mut ctx = transfer_crank([key(60), zero(), zero()], [zero(); 32]);
    assert_eq!(
        transfer_crank_v2::transfer_crank_step(&mut ctx),
        Err(InstructionError::Program(ErrorCode::InvalidTransferCrank))
    );
}

#[test]
fn nft_copy_mints_one_token_with_metadata() {
    let ctx = nft_copy::NftCopy {
        current_owner: key(1),
        from_nft_mint: key(2),
        nft_meta_data_account: key(3),
        nft_mint_account: key(4),
        nft_token_account: key(5),
    };
    let actions = nft_copy::handler(&ctx, "Copy".to_string(), "CPY".to_string(), "https://x/1.json".to_string());
    assert_eq!(actions.len(), 4);
    assert_eq!(
        actions[0],
        Action::InitializeMint { mint: key(4), decimals: 0, mint_authority: key(1), freeze_authority: None }
    );
    assert_eq!(actions[1], Action::InitializeAccount { account: key(5), mint: key(4), owner: key(1) });
    assert_eq!(actions[2], Action::MintTo { mint: key(4), account: key(5), authority: key(1), amount: 1 });
    assert_eq!(
        actions[3],
        Action::CreateMetadataAccountsV2 {
            metadata: key(3),
            mint: key(4),
            mint_authority: key(1),
            payer: key(1),
            update_authority: key(1),
            name: "Copy".to_string(),
            symbol: "CPY".to_string(),
            uri: "https://x/1.json".to_string(),
            seller_fee_basis_points: 0,
            creators: None,
            collection: None,
            uses: None,
            update_authority_is_signer: true,
            is_mutable: true,
        }
    );
}
