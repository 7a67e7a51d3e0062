use vstd::prelude::*;
use crate::accounts::{Account, TokenAccount};
use crate::cpi::Action;
pub use crate::cpi::Collection;
use crate::instructions::burn_v2::{burn_root, root_burn_actions};
use crate::pubkey::{Pubkey, PUBKEY_BYTES};
use crate::state::errors::{InstructionError, MetadataError, SynftError};
use mpl_token_metadata::accounts::Metadata;
use crate::state::metadata::{ParentMetadata, RootOwner, SolAccount};

verus! {

// ------------------------------------------------------------------------------------------------
// Snowball NFTs: a pool of SOL shared by the NFTs of one verified collection.
// Each NFT of the collection registers once; burning a registered NFT pays
// out an equal share of the pool's lamports above its rent reserve.
// ------------------------------------------------------------------------------------------------

/// The pool record of a collection: how many NFTs share it.
#[derive(Clone, Copy, Debug, PartialEq, Eq)]
pub struct SnowballNftMetadata {
    pub size: u64,
    pub collection_mint: Pubkey,
}

impl SnowballNftMetadata {
    /// Bytes of the pool account: the 8-byte discriminator, the count and the collection mint.
    pub fn space() -> (r: usize)
        ensures
            r == 48,
    {
        8 + 8 + PUBKEY_BYTES
    }
}

/// Marks an NFT as registered in its collection's pool.
#[derive(Clone, Copy, Debug, PartialEq, Eq)]
pub struct SnowballNftUnique {}

/// The fields of an NFT's token metadata that the pool reads.
#[derive(Clone, Copy, Debug, PartialEq, Eq)]
pub struct NftMetadata {
    pub mint: Pubkey,
    pub collection: Option<Collection>,
}

/// The token metadata that the bytes `data` of a metadata account decode to,
/// if they decode at all.
pub uninterp spec fn decoded_metadata(data: Seq<u8>) -> Option<NftMetadata>;

/// Decodes the bytes of a token-metadata account with
/// `mpl_token_metadata::accounts::Metadata::from_bytes` (a borsh decode) and
/// keeps its mint and collection. Trusted: the result is named
/// `decoded_metadata` of the bytes, `None` when the decode fails; nothing
/// more is claimed of the layout.
#[verifier::external_body]
pub fn decode_nft_metadata(data: &[u8]) -> (r: Option<NftMetadata>)
    ensures
        r == decoded_metadata(data@),
{
    let m = match Metadata::from_bytes(data) {
        Ok(m) => m,
        Err(_) => return None,
    };
    let collection = match m.collection {
        Some(c) => Some(Collection { verified: c.verified, key: Pubkey(c.key.to_bytes()) }),
        None => None,
    };
    Some(NftMetadata { mint: Pubkey(m.mint.to_bytes()), collection })
}

/// The verdict of `assert_currently_holding`: the metadata account belongs to
/// the token-metadata program, and `owner`'s token account holds at least one
/// token of `mint`, the mint that the metadata describes.
pub open spec fn holding_check(
    metadata_owner: Pubkey,
    metadata_program: Pubkey,
    metadata: NftMetadata,
    owner: Pubkey,
    mint: Pubkey,
    token: TokenAccount,
) -> Result<(), InstructionError> {
    if metadata_owner != metadata_program {
        Err(InstructionError::Metadata(MetadataError::IncorrectOwner))
    } else if token.owner != owner {
        Err(InstructionError::Metadata(MetadataError::InvalidOwner))
    } else if token.mint != mint {
        Err(InstructionError::Metadata(MetadataError::MintMismatch))
    } else if token.amount < 1 {
        Err(InstructionError::Metadata(MetadataError::NotEnoughTokens))
    } else if token.mint != metadata.mint {
        Err(InstructionError::Metadata(MetadataError::MintMismatch))
    } else {
        Ok(())
    }
}

/// Accepts an `owner` who currently holds the NFT of `mint` that `metadata`
/// describes (see `holding_check`).
pub fn assert_currently_holding(
    metadata_owner: &Pubkey,
    metadata_program: &Pubkey,
    metadata: &NftMetadata,
    owner: &Pubkey,
    mint: &Pubkey,
    token: &TokenAccount,
) -> (r: Result<(), InstructionError>)
    ensures
        r == holding_check(*metadata_owner, *metadata_program, *metadata, *owner, *mint, *token),
{
    if !metadata_owner.key_eq(metadata_program) {
        return Err(InstructionError::Metadata(MetadataError::IncorrectOwner));
    }
    if !token.owner.key_eq(owner) {
        return Err(InstructionError::Metadata(MetadataError::InvalidOwner));
    }
    if !token.mint.key_eq(mint) {
        return Err(InstructionError::Metadata(MetadataError::MintMismatch));
    }
    if token.amount < 1 {
        return Err(InstructionError::Metadata(MetadataError::NotEnoughTokens));
    }
    if !token.mint.key_eq(&metadata.mint) {
        return Err(InstructionError::Metadata(MetadataError::MintMismatch));
    }
    Ok(())
}

/// Whether two addresses are the same.
pub fn cmp_pubkeys(a: &Pubkey, b: &Pubkey) -> (r: bool)
    ensures
        r == (*a == *b),
{
    a.key_eq(b)
}

/// The verdict of `assert_collection_mint_equal`.
pub open spec fn collection_check(metadata_collection: Option<Collection>, collection_mint: Pubkey) -> Result<(), InstructionError> {
    match metadata_collection {
        None => Err(InstructionError::Synft(SynftError::MetadataCollectionIsNone)),
        Some(c) => if !c.verified {
            Err(InstructionError::Synft(SynftError::CollectionNotVerified))
        } else if c.key != collection_mint {
            Err(InstructionError::Synft(SynftError::CollectionMintNotEqual))
        } else {
            Ok(())
        },
    }
}

/// Accepts metadata that names `collection_mint` as its verified collection.
pub fn assert_collection_mint_equal(
    metadata_collection: &Option<Collection>,
    collection_mint: &Pubkey,
) -> (r: Result<(), InstructionError>)
    ensures
        r == collection_check(*metadata_collection, *collection_mint),
{
    match metadata_collection {
        Some(c) => {
            if !c.verified {
                return Err(InstructionError::Synft(SynftError::CollectionNotVerified));
            }
            if !cmp_pubkeys(&c.key, collection_mint) {
                return Err(InstructionError::Synft(SynftError::CollectionMintNotEqual));
            }
            Ok(())
        },
        None => Err(InstructionError::Synft(SynftError::MetadataCollectionIsNone)),
    }
}

/// The accounts of `handle_init_snowball_nft`.
#[derive(Clone, Copy, Debug, PartialEq, Eq)]
pub struct InitSnowballNft {
    pub snowball_nft_metadata: Account<SnowballNftMetadata>,
    pub collection_mint: Pubkey,
    pub payer: Pubkey,
}

/// Opens the pool of a collection with no NFT registered.
pub fn handle_init_snowball_nft(ctx: &mut InitSnowballNft) -> (r: Result<(), InstructionError>)
    ensures
        r is Ok,
        *final(ctx) == (InitSnowballNft {
            snowball_nft_metadata: Account {
                data: SnowballNftMetadata { size: 0, collection_mint: old(ctx).collection_mint },
                ..old(ctx).snowball_nft_metadata
            },
            ..*old(ctx)
        }),
{
    ctx.snowball_nft_metadata.data.size = 0;
    ctx.snowball_nft_metadata.data.collection_mint = ctx.collection_mint;
    Ok(())
}

/// The accounts of `handle_update_snowball_nft`; `nft_metadata` holds the
/// bytes of the token-metadata account of `nft_mint`, an account owned by
/// the program `nft_metadata_owner`, and `metadata_program` is the
/// token-metadata program.
#[derive(Clone, Debug, PartialEq, Eq)]
pub struct UpdateSnowballNft {
    pub snowball_nft_metadata: Account<SnowballNftMetadata>,
    pub snowball_nft_unique: Pubkey,
    pub nft_mint: Pubkey,
    pub nft_token_account: TokenAccount,
    pub nft_metadata: Vec<u8>,
    pub nft_metadata_owner: Pubkey,
    pub metadata_program: Pubkey,
    pub collection_mint: Pubkey,
    pub payer: Pubkey,
    pub payer_is_signer: bool,
}

/// The verdict of `handle_update_snowball_nft` on the decoded metadata `m`.
pub open spec fn update_snowball_check_with(c: UpdateSnowballNft, m: NftMetadata) -> Result<(), InstructionError> {
    if holding_check(c.nft_metadata_owner, c.metadata_program, m, c.payer, c.nft_mint, c.nft_token_account) is Err {
        holding_check(c.nft_metadata_owner, c.metadata_program, m, c.payer, c.nft_mint, c.nft_token_account)
    } else if m.mint != c.nft_mint {
        Err(InstructionError::Synft(SynftError::NftMetadataNotMatch))
    } else if collection_check(m.collection, c.collection_mint) is Err {
        collection_check(m.collection, c.collection_mint)
    } else if !c.payer_is_signer {
        Err(InstructionError::Synft(SynftError::MissingRequiredSignature))
    } else {
        Ok(())
    }
}

/// The verdict of `handle_update_snowball_nft`: bytes that are not token
/// metadata are refused, otherwise `update_snowball_check_with`.
pub open spec fn update_snowball_check(c: UpdateSnowballNft) -> Result<(), InstructionError> {
    match decoded_metadata(c.nft_metadata@) {
        None => Err(InstructionError::Metadata(MetadataError::NotDecoded)),
        Some(m) => update_snowball_check_with(c, m),
    }
}

/// The accounts after a successful registration: the pool counts one more NFT.
pub open spec fn registered(pre: UpdateSnowballNft, post: UpdateSnowballNft) -> bool {
    post == (UpdateSnowballNft {
        snowball_nft_metadata: Account {
            data: SnowballNftMetadata { size: (pre.snowball_nft_metadata.data.size + 1) as u64, ..pre.snowball_nft_metadata.data },
            ..pre.snowball_nft_metadata
        },
        ..pre
    })
}

/// A registration counts the NFT exactly once: the pool's count grows by one,
/// the pool stays the pool of the same collection, and only the NFT whose
/// metadata names that collection as verified, held by the payer, is counted.
pub proof fn law_registration_counts_one(pre: UpdateSnowballNft, post: UpdateSnowballNft)
    requires
        registered(pre, post),
        update_snowball_check(pre) is Ok,
        pre.snowball_nft_metadata.data.size < u64::MAX,
    ensures
        post.snowball_nft_metadata.data.size == pre.snowball_nft_metadata.data.size + 1,
        post.snowball_nft_metadata.data.collection_mint == pre.snowball_nft_metadata.data.collection_mint,
        post.snowball_nft_metadata.key == pre.snowball_nft_metadata.key,
        decoded_metadata(pre.nft_metadata@) matches Some(m) && m.mint == pre.nft_mint
            && (m.collection matches Some(c) && c.verified && c.key == pre.collection_mint),
        pre.payer_is_signer,
        pre.nft_token_account.owner == pre.payer && pre.nft_token_account.amount >= 1,
{
}

/// Registers an NFT of the collection in its pool: the metadata must decode,
/// the payer must hold the NFT it describes, it must be that NFT's metadata
/// and name the collection as verified, and the payer must sign; the pool
/// then counts one more NFT. A pool that already counts `u64::MAX` NFTs has
/// no next count, so that input is excluded.
pub fn handle_update_snowball_nft(ctx: &mut UpdateSnowballNft) -> (r: Result<(), InstructionError>)
    requires
        update_snowball_check(*old(ctx)) is Ok ==> old(ctx).snowball_nft_metadata.data.size < u64::MAX,
    ensures
        r == update_snowball_check(*old(ctx)),
        r is Ok ==> registered(*old(ctx), *final(ctx)),
        r is Err ==> *final(ctx) == *old(ctx),
{
    let metadata = match decode_nft_metadata(ctx.nft_metadata.as_slice()) {
        Some(m) => m,
        None => {
            return Err(InstructionError::Metadata(MetadataError::NotDecoded));
        },
    };
    if let Err(e) = assert_currently_holding(&ctx.nft_metadata_owner, &ctx.metadata_program, &metadata,
        &ctx.payer, &ctx.nft_mint, &ctx.nft_token_account) {
        return Err(e);
    }
    if !metadata.mint.key_eq(&ctx.nft_mint) {
        return Err(InstructionError::Synft(SynftError::NftMetadataNotMatch));
    }
    if let Err(e) = assert_collection_mint_equal(&metadata.collection, &ctx.collection_mint) {
        return Err(e);
    }
    if !ctx.payer_is_signer {
        return Err(InstructionError::Synft(SynftError::MissingRequiredSignature));
    }
    ctx.snowball_nft_metadata.data.size = ctx.snowball_nft_metadata.data.size + 1;
    Ok(())
}

/// The accounts of `handle_extract_snowball_nft_sol_with_nft_burn`;
/// `nft_metadata` holds the bytes of the token-metadata account of
/// `nft_mint`, an account owned by the program `nft_metadata_owner`, and
/// `metadata_program` is the token-metadata program.
#[derive(Clone, Debug, PartialEq, Eq)]
pub struct ExtractSnowNftSolWithNftBurn {
    pub snowball_nft_metadata: Account<SnowballNftMetadata>,
    pub snowball_nft_unique: Pubkey,
    pub nft_mint: Pubkey,
    pub nft_token_account: TokenAccount,
    pub nft_metadata: Vec<u8>,
    pub nft_metadata_owner: Pubkey,
    pub metadata_program: Pubkey,
    pub collection_mint: Pubkey,
    pub inject_parent_metadata: Account<ParentMetadata>,
    pub inject_sol_account: Account<SolAccount>,
    pub inject_old_root_owner: Account<RootOwner>,
    pub owner: Pubkey,
}

pub open spec fn extract_snowball_constraints(c: ExtractSnowNftSolWithNftBurn) -> bool {
    &&& c.nft_token_account.owner == c.owner
    &&& c.nft_token_account.mint == c.nft_mint
    &&& !c.inject_parent_metadata.data.is_burnt
}

/// The refusal, if any, of the burn step once the accounts are accepted: the
/// metadata must decode and the owner must hold the NFT it describes.
pub open spec fn extract_metadata_check(c: ExtractSnowNftSolWithNftBurn) -> Result<(), InstructionError> {
    match decoded_metadata(c.nft_metadata@) {
        None => Err(InstructionError::Metadata(MetadataError::NotDecoded)),
        Some(m) => holding_check(c.nft_metadata_owner, c.metadata_program, m, c.owner, c.nft_mint,
            c.nft_token_account),
    }
}

/// First step of burning a registered NFT for its share of the pool: the
/// accounts must meet `extract_snowball_constraints` (else `ConstraintRaw`)
/// and the metadata `extract_metadata_check` (else its error); then the NFT
/// is burnt as a root (its token account closed as well when it has no
/// children). The share is paid by `settle_snowball_extraction` once these
/// calls have run.
pub fn handle_extract_snowball_nft_sol_with_nft_burn(ctx: &mut ExtractSnowNftSolWithNftBurn)
    -> (r: Result<Vec<Action>, InstructionError>)
    ensures
        !extract_snowball_constraints(*old(ctx))
            ==> r == Err::<Vec<Action>, InstructionError>(InstructionError::ConstraintRaw) && *final(ctx) == *old(ctx),
        extract_snowball_constraints(*old(ctx)) && extract_metadata_check(*old(ctx)) is Err
            ==> (extract_metadata_check(*old(ctx)) matches Err(e) && r == Err::<Vec<Action>, InstructionError>(e)
            && *final(ctx) == *old(ctx)),
        extract_snowball_constraints(*old(ctx)) && extract_metadata_check(*old(ctx)) is Ok ==> {
            &&& r matches Ok(actions) && actions@ == root_burn_actions(old(ctx).owner, old(ctx).nft_mint,
                old(ctx).nft_token_account, old(ctx).inject_parent_metadata,
                old(ctx).inject_sol_account.key, old(ctx).inject_old_root_owner.key, true)
            &&& *final(ctx) == (ExtractSnowNftSolWithNftBurn {
                inject_parent_metadata: Account {
                    data: ParentMetadata { is_burnt: true, ..old(ctx).inject_parent_metadata.data },
                    ..old(ctx).inject_parent_metadata
                },
                inject_old_root_owner: Account {
                    data: RootOwner { owner: old(ctx).owner },
                    ..old(ctx).inject_old_root_owner
                },
                ..*old(ctx)
            })
        },
{
    if !(ctx.nft_token_account.owner.key_eq(&ctx.owner)
        && ctx.nft_token_account.mint.key_eq(&ctx.nft_mint)
        && !ctx.inject_parent_metadata.data.is_burnt) {
        return Err(InstructionError::ConstraintRaw);
    }
    let metadata = match decode_nft_metadata(ctx.nft_metadata.as_slice()) {
        Some(m) => m,
        None => {
            return Err(InstructionError::Metadata(MetadataError::NotDecoded));
        },
    };
    if let Err(e) = assert_currently_holding(&ctx.nft_metadata_owner, &ctx.metadata_program, &metadata,
        &ctx.owner, &ctx.nft_mint, &ctx.nft_token_account) {
        return Err(e);
    }
    let actions = burn_root(
        ctx.owner,
        ctx.nft_mint,
        &ctx.nft_token_account,
        &mut ctx.inject_parent_metadata,
        ctx.inject_sol_account.key,
        &mut ctx.inject_old_root_owner,
        true,
    );
    Ok(actions)
}

/// The error, if any, on which `settle_snowball_extraction` refuses before any lamports move.
pub open spec fn extraction_check(c: ExtractSnowNftSolWithNftBurn) -> Option<InstructionError> {
    match decoded_metadata(c.nft_metadata@) {
        None => Some(InstructionError::Metadata(MetadataError::NotDecoded)),
        Some(m) => match collection_check(m.collection, c.collection_mint) {
            Err(e) => Some(e),
            Ok(_) => if c.snowball_nft_metadata.data.size < 1 {
                Some(InstructionError::Synft(SynftError::NotEnoughNFTCount))
            } else {
                None
            },
        },
    }
}

/// Whether `settle_snowball_extraction` would pay a share, that is, whether
/// `extraction_check` finds nothing to refuse.
pub fn extraction_accepted(ctx: &ExtractSnowNftSolWithNftBurn) -> (r: bool)
    ensures
        r == (extraction_check(*ctx) is None),
{
    match decode_nft_metadata(ctx.nft_metadata.as_slice()) {
        None => false,
        Some(m) => assert_collection_mint_equal(&m.collection, &ctx.collection_mint).is_ok()
            && ctx.snowball_nft_metadata.data.size >= 1,
    }
}

/// One holder's share of the pool: an equal part of what lies above the reserve.
pub open spec fn snowball_share(pool_lamports: u64, lamports_required: u64, size: u64) -> int {
    (pool_lamports - lamports_required) / (size as int)
}

/// Second step of burning a registered NFT: the NFT must belong to the
/// pool's collection and the pool must count an NFT; the owner then receives
/// `snowball_share` of the pool (`pool_lamports`, of which `lamports_required`
/// is kept as rent reserve) and the pool counts one NFT less. Returns the new
/// balances of the pool and of the owner. A pool holding less than its rent
/// reserve has no share to pay, so that input is excluded.
pub fn settle_snowball_extraction(
    ctx: &mut ExtractSnowNftSolWithNftBurn,
    lamports_required: u64,
    pool_lamports: u64,
    owner_lamports: u64,
) -> (r: Result<(u64, u64), InstructionError>)
    requires
        extraction_check(*old(ctx)) is None ==> pool_lamports >= lamports_required,
    ensures
        extraction_check(*old(ctx)) matches Some(e) ==> r == Err::<(u64, u64), InstructionError>(e)
            && *final(ctx) == *old(ctx),
        extraction_check(*old(ctx)) is None ==> {
            let share = snowball_share(pool_lamports, lamports_required, old(ctx).snowball_nft_metadata.data.size);
            &&& *final(ctx) == (ExtractSnowNftSolWithNftBurn {
                snowball_nft_metadata: Account {
                    data: SnowballNftMetadata {
                        size: (old(ctx).snowball_nft_metadata.data.size - 1) as u64,
                        ..old(ctx).snowball_nft_metadata.data
                    },
                    ..old(ctx).snowball_nft_metadata
                },
                ..*old(ctx)
            })
            &&& owner_lamports + share > u64::MAX ==> r == Err::<(u64, u64), InstructionError>(
                InstructionError::Synft(SynftError::NumericalOverflowError))
            &&& owner_lamports + share <= u64::MAX ==> r == Ok::<(u64, u64), InstructionError>(
                ((pool_lamports - share) as u64, (owner_lamports + share) as u64))
        },
{
    let metadata = match decode_nft_metadata(ctx.nft_metadata.as_slice()) {
        Some(m) => m,
        None => {
            return Err(InstructionError::Metadata(MetadataError::NotDecoded));
        },
    };
    if let Err(e) = assert_collection_mint_equal(&metadata.collection, &ctx.collection_mint) {
        return Err(e);
    }
    if ctx.snowball_nft_metadata.data.size < 1 {
        return Err(InstructionError::Synft(SynftError::NotEnoughNFTCount));
    }
    let divided_amount = (pool_lamports - lamports_required) / ctx.snowball_nft_metadata.data.size;
    ctx.snowball_nft_metadata.data.size = ctx.snowball_nft_metadata.data.size - 1;
    let new_pool = match pool_lamports.checked_sub(divided_amount) {
        Some(v) => v,
        None => {
            return Err(InstructionError::Synft(SynftError::NumericalOverflowError));
        },
    };
    let new_owner = match owner_lamports.checked_add(divided_amount) {
        Some(v) => v,
        None => {
            return Err(InstructionError::Synft(SynftError::NumericalOverflowError));
        },
    };
    Ok((new_pool, new_owner))
}

/// Paying a share moves lamports and creates none: the pool and the owner
/// hold together what they held before, the pool keeps its rent reserve, and
/// the shares of all holders together never exceed what lies above the
/// reserve; the last holder takes all of it.
pub proof fn law_share_conserves_lamports(pool_lamports: u64, lamports_required: u64, size: u64, owner_lamports: u64)
    requires
        pool_lamports >= lamports_required,
        size >= 1,
    ensures
        ({
            let share = snowball_share(pool_lamports, lamports_required, size);
            &&& 0 <= share <= pool_lamports - lamports_required
            &&& (pool_lamports - share) + (owner_lamports + share) == pool_lamports + owner_lamports
            &&& pool_lamports - share >= lamports_required
            &&& share * size <= pool_lamports - lamports_required
            &&& size == 1 ==> pool_lamports - share == lamports_required
        }),
{
    let e = pool_lamports - lamports_required;
    let share = snowball_share(pool_lamports, lamports_required, size);
    assert(share == e / (size as int));
    assert(0 <= e / (size as int) <= e) by (nonlinear_arith)
        requires
            e >= 0,
            size >= 1,
    ;
    assert((e / (size as int)) * size <= e) by (nonlinear_arith)
        requires
            e >= 0,
            size >= 1,
    ;
}

/// Shares snowball: after one holder is paid, the next holder's share is at
/// least as large.
pub proof fn law_shares_grow(pool_lamports: u64, lamports_required: u64, size: u64)
    requires
        pool_lamports >= lamports_required,
        size >= 2,
    ensures
        ({
            let share = snowball_share(pool_lamports, lamports_required, size);
            let rest = (pool_lamports - share) as u64;
            snowball_share(rest, lamports_required, (size - 1) as u64) >= share
        }),
{
    let e: int = pool_lamports - lamports_required;
    let n: int = size as int;
    law_share_conserves_lamports(pool_lamports, lamports_required, size, 0);
    let q: int = e / n;
    let share = snowball_share(pool_lamports, lamports_required, size);
    assert(share == q);
    let rest = (pool_lamports - share) as u64;
    assert(rest - lamports_required == e - q);
    assert((e - q) / (n - 1) >= q) by (nonlinear_arith)
        requires
            e >= 0,
            n >= 2,
            q == e / n,
    {
        assert(q * n <= e);
        assert(e - q >= q * (n - 1));
    }
}

/// A pool with no NFT registered pays nothing: extraction from a freshly
/// opened pool is refused.
pub proof fn law_empty_pool_pays_nothing(c: ExtractSnowNftSolWithNftBurn)
    requires
        c.snowball_nft_metadata.data.size == 0,
    ensures
        extraction_check(c) is Some,
        decoded_metadata(c.nft_metadata@) matches Some(m) && collection_check(m.collection, c.collection_mint) is Ok
            ==> extraction_check(c) == Some(InstructionError::Synft(SynftError::NotEnoughNFTCount)),
{
}

} // verus!
