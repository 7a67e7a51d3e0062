use synft::accounts::{Account, TokenAccount};
use synft::cpi::{Action, PdaSigner};
use synft::instructions::snowball_nft::{
    assert_collection_mint_equal, assert_currently_holding, cmp_pubkeys, decode_nft_metadata, extraction_accepted,
    handle_extract_snowball_nft_sol_with_nft_burn, handle_init_snowball_nft, handle_update_snowball_nft,
    settle_snowball_extraction, Collection, ExtractSnowNftSolWithNftBurn, InitSnowballNft, NftMetadata,
    SnowballNftMetadata, UpdateSnowballNft,
};
use synft::pubkey::Pubkey;
use synft::state::errors::{InstructionError, MetadataError, SynftError};
use synft::state::metadata::{ParentMetadata, RootOwner, SolAccount};

fn key(n: u8) -> Pubkey {
    Pubkey::new_from_array([n; 32])
}

fn zero() -> Pubkey {
    Pubkey::default_key()
}

fn pool(size: u64) -> Account<SnowballNftMetadata> {
    Account { key: key(50), data: SnowballNftMetadata { size, collection_mint: key(9) } }
}

fn verified(k: Pubkey) -> Option<Collection> {
    Some(Collection { verified: true, key: k })
}

fn metadata_program() -> Pubkey {
    key(77)
}

fn push_str(out: &mut Vec<u8>, s: &str) {
    out.extend_from_slice(&(s.len() as u32).to_le_bytes());
    out.extend_from_slice(s.as_bytes());
}

/// The bytes of a token-metadata account (version 1) of `mint`.
fn metadata_bytes(mint: Pubkey, collection: Option<Collection>) -> Vec<u8> {
    let mut out = vec![4u8];
    out.extend_from_slice(&key(60).to_bytes());
    out.extend_from_slice(&mint.to_bytes());
    push_str(&mut out, "Snow");
    push_str(&mut out, "SNW");
    push_str(&mut out, "https://x/snow.json");
    out.extend_from_slice(&500u16.to_le_bytes());
    out.push(0); // creators
    out.push(0); // primary sale happened
    out.push(1); // mutable
    out.push(0); // edition nonce
    out.push(0); // token standard
    match collection {
        Some(c) => {
            out.push(1);
            out.push(c.verified as u8);
            out.extend_from_slice(&c.key.to_bytes());
        }
        None => out.push(0),
    }
    out.push(0); // uses
    out.push(0); // collection details
    out.push(0); // programmable config
    out
}

#[test]
fn metadata_bytes_decode_to_mint_and_collection() {
    assert_eq!(
        decode_nft_metadata(&metadata_bytes(key(20), verified(key(9)))),
        Some(NftMetadata { mint: key(20), collection: verified(key(9)) })
    );
    assert_eq!(
        decode_nft_metadata(&metadata_bytes(key(21), None)),
        Some(NftMetadata { mint: key(21), collection: None })
    );
    assert_eq!(decode_nft_metadata(&[4u8, 1, 2]), None);
}

#[test]
fn holding_check_variants() {
    let m = NftMetadata { mint: key(20), collection: None };
    let token = TokenAccount { key: key(21), mint: key(20), owner: key(1), amount: 1 };
    assert_eq!(assert_currently_holding(&key(77), &key(77), &m, &key(1), &key(20), &token), Ok(()));
    assert_eq!(
        assert_currently_holding(&key(78), &key(77), &m, &key(1), &key(20), &token),
        Err(InstructionError::Metadata(MetadataError::IncorrectOwner))
    );
    assert_eq!(
        assert_currently_holding(&key(77), &key(77), &m, &key(2), &key(20), &token),
        Err(InstructionError::Metadata(MetadataError::InvalidOwner))
    );
    assert_eq!(
        assert_currently_holding(&key(77), &key(77), &m, &key(1), &key(19), &token),
        Err(InstructionError::Metadata(MetadataError::MintMismatch))
    );
    let empty = TokenAccount { amount: 0, ..token };
    assert_eq!(
        assert_currently_holding(&key(77), &key(77), &m, &key(1), &key(20), &empty),
        Err(InstructionError::Metadata(MetadataError::NotEnoughTokens))
    );
    let other = NftMetadata { mint: key(19), collection: None };
    assert_eq!(
        assert_currently_holding(&key(77), &key(77), &other, &key(1), &key(20), &token),
        Err(InstructionError::Metadata(MetadataError::MintMismatch))
    );
}

#[test]
fn space_of_pool_record() {
    assert_eq!(SnowballNftMetadata::space(), 48);
}

#[test]
fn cmp_pubkeys_is_equality() {
    assert!(cmp_pubkeys(&key(3), &key(3)));
    assert!(!cmp_pubkeys(&key(3), &key(4)));
}

#[test]
fn collection_check_variants() {
    assert_eq!(assert_collection_mint_equal(&verified(key(9)), &key(9)), Ok(()));
    assert_eq!(
        assert_collection_mint_equal(&None, &key(9)),
        Err(InstructionError::Synft(SynftError::MetadataCollectionIsNone))
    );
    assert_eq!(
        assert_collection_mint_equal(&Some(Collection { verified: false, key: key(9) }), &key(9)),
        Err(InstructionError::Synft(SynftError::CollectionNotVerified))
    );
    assert_eq!(
        assert_collection_mint_equal(&verified(key(8)), &key(9)),
        Err(InstructionError::Synft(SynftError::CollectionMintNotEqual))
    );
}

#[test]
fn init_opens_an_empty_pool() {
    let mut ctx = InitSnowballNft { snowball_nft_metadata: pool(17), collection_mint: key(4), payer: key(1) };
    assert_eq!(handle_init_snowball_nft(&mut ctx), Ok(()));
    assert_eq!(ctx.snowball_nft_metadata.data, SnowballNftMetadata { size: 0, collection_mint: key(4) });
}

fn register(metadata_mint: Pubkey, collection: Option<Collection>, signer: bool) -> UpdateSnowballNft {
    UpdateSnowballNft {
        snowball_nft_metadata: pool(2),
        snowball_nft_unique: key(51),
        nft_mint: key(20),
        nft_token_account: TokenAccount { key: key(21), mint: key(20), owner: key(1), amount: 1 },
        nft_metadata: metadata_bytes(metadata_mint, collection),
        nft_metadata_owner: metadata_program(),
        metadata_program: metadata_program(),
        collection_mint: key(9),
        payer: key(1),
        payer_is_signer: signer,
    }
}

#[test]
fn registration_counts_one_more_nft() {
    let mut ctx = register(key(20), verified(key(9)), true);
    assert_eq!(handle_update_snowball_nft(&mut ctx), Ok(()));
    assert_eq!(ctx.snowball_nft_metadata.data.size, 3);
}

#[test]
fn registration_errors() {
    let cases = [
        (register(key(20), None, true), SynftError::MetadataCollectionIsNone),
        (register(key(20), Some(Collection { verified: false, key: key(9) }), true), SynftError::CollectionNotVerified),
        (register(key(20), verified(key(7)), true), SynftError::CollectionMintNotEqual),
        (register(key(20), verified(key(9)), false), SynftError::MissingRequiredSignature),
    ];
    for (ctx, err) in cases.iter() {
        let mut c = ctx.clone();
        assert_eq!(handle_update_snowball_nft(&mut c), Err(InstructionError::Synft(*err)));
        assert_eq!(c.snowball_nft_metadata.data.size, 2);
    }
}

#[test]
fn registration_of_unheld_or_undecodable_metadata_is_refused() {
    // metadata of another mint: the holder's token is not of that mint
    let mut c = register(key(19), verified(key(9)), true);
    assert_eq!(handle_update_snowball_nft(&mut c), Err(InstructionError::Metadata(MetadataError::MintMismatch)));
    let mut c = register(key(20), verified(key(9)), true);
    c.nft_metadata = vec![1, 2, 3];
    assert_eq!(handle_update_snowball_nft(&mut c), Err(InstructionError::Metadata(MetadataError::NotDecoded)));
    let mut c = register(key(20), verified(key(9)), true);
    c.nft_metadata_owner = key(78);
    let before = c.clone();
    assert_eq!(handle_update_snowball_nft(&mut c), Err(InstructionError::Metadata(MetadataError::IncorrectOwner)));
    assert_eq!(c, before);
}

fn extraction(size: u64, kids: [Pubkey; 3]) -> ExtractSnowNftSolWithNftBurn {
    ExtractSnowNftSolWithNftBurn {
        snowball_nft_metadata: pool(size),
        snowball_nft_unique: key(51),
        nft_mint: key(20),
        nft_token_account: TokenAccount { key: key(21), mint: key(20), owner: key(1), amount: 1 },
        nft_metadata: metadata_bytes(key(20), verified(key(9))),
        nft_metadata_owner: metadata_program(),
        metadata_program: metadata_program(),
        collection_mint: key(9),
        inject_parent_metadata: Account {
            key: key(22),
            data: ParentMetadata { bump: 3, is_burnt: false, height: 0, self_mint: zero(), immediate_children: kids },
        },
        inject_sol_account: Account { key: key(23), data: SolAccount { bump: 4, reserve_buffer: [zero(); 12] } },
        inject_old_root_owner: Account { key: key(24), data: RootOwner { owner: zero() } },
        owner: key(1),
    }
}

#[test]
fn extraction_burns_the_nft_and_closes_its_token_account() {
    let mut ctx = extraction(3, [zero(); 3]);
    let actions = handle_extract_snowball_nft_sol_with_nft_burn(&mut ctx).unwrap();
    assert_eq!(
        actions,
        vec![
            Action::Burn { mint: key(20), account: key(21), authority: key(1), amount: 1, signer: PdaSigner::Owner },
            Action::CloseTokenAccount { account: key(21), destination: key(1), owner: key(1) },
            Action::Close { account: key(22), destination: key(1) },
            Action::Close { account: key(24), destination: key(1) },
            Action::Close { account: key(23), destination: key(1) },
        ]
    );
    assert!(ctx.inject_parent_metadata.data.is_burnt);
    assert_eq!(ctx.inject_old_root_owner.data.owner, key(1));
}

#[test]
fn extraction_refuses_foreign_token() {
    let mut ctx = extraction(3, [zero(); 3]);
    ctx.nft_token_account.owner = key(2);
    assert_eq!(handle_extract_snowball_nft_sol_with_nft_burn(&mut ctx), Err(InstructionError::ConstraintRaw));
}

#[test]
fn extraction_refuses_metadata_of_other_program() {
    let mut ctx = extraction(3, [zero(); 3]);
    ctx.nft_metadata_owner = key(78);
    let before = ctx.clone();
    assert_eq!(
        handle_extract_snowball_nft_sol_with_nft_burn(&mut ctx),
        Err(InstructionError::Metadata(MetadataError::IncorrectOwner))
    );
    assert_eq!(ctx, before);
    ctx.nft_metadata = Vec::new();
    assert_eq!(
        handle_extract_snowball_nft_sol_with_nft_burn(&mut ctx),
        Err(InstructionError::Metadata(MetadataError::NotDecoded))
    );
    assert!(extraction_accepted(&extraction(3, [zero(); 3])));
}

#[test]
fn share_is_equal_part_above_reserve() {
    let mut ctx = extraction(4, [zero(); 3]);
    let r = settle_snowball_extraction(&mut ctx, 1_000, 9_000, 500);
    assert_eq!(r, Ok((7_000, 2_500)));
    assert_eq!(ctx.snowball_nft_metadata.data.size, 3);
    let (pool_after, owner_after) = r.unwrap();
    assert_eq!(pool_after + owner_after, 9_000 + 500);
}

#[test]
fn last_holder_takes_everything_above_reserve() {
    let mut ctx = extraction(1, [zero(); 3]);
    assert_eq!(settle_snowball_extraction(&mut ctx, 1_000, 9_001, 0), Ok((1_000, 8_001)));
    assert_eq!(ctx.snowball_nft_metadata.data.size, 0);
}

#[test]
fn shares_grow_as_holders_leave() {
    let mut ctx = extraction(3, [zero(); 3]);
    let (pool1, owner1) = settle_snowball_extraction(&mut ctx, 100, 1_100, 0).unwrap();
    let first = owner1;
    let (_, owner2) = settle_snowball_extraction(&mut ctx, 100, pool1, 0).unwrap();
    assert!(owner2 >= first);
    assert_eq!(first, 333);
    assert_eq!(owner2, 333);
}

#[test]
fn empty_pool_refuses_extraction() {
    let mut ctx = extraction(0, [zero(); 3]);
    assert_eq!(
        settle_snowball_extraction(&mut ctx, 100, 1_000, 0),
        Err(InstructionError::Synft(SynftError::NotEnoughNFTCount))
    );
}

#[test]
fn extraction_checks_collection_first() {
    let mut ctx = extraction(0, [zero(); 3]);
    ctx.nft_metadata = metadata_bytes(key(20), None);
    assert!(!extraction_accepted(&ctx));
    assert_eq!(
        settle_snowball_extraction(&mut ctx, 100, 1_000, 0),
        Err(InstructionError::Synft(SynftError::MetadataCollectionIsNone))
    );
}

#[test]
fn owner_balance_overflow_is_refused() {
    let mut ctx = extraction(1, [zero(); 3]);
    assert_eq!(
        settle_snowball_extraction(&mut ctx, 0, 10, u64::MAX),
        Err(InstructionError::Synft(SynftError::NumericalOverflowError))
    );
}
