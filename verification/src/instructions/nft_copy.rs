use vstd::prelude::*;
use crate::cpi::Action;
use crate::pubkey::Pubkey;

verus! {

/// The accounts of `handler`.
#[derive(Clone, Copy, Debug, PartialEq, Eq)]
pub struct NftCopy {
    pub current_owner: Pubkey,
    pub from_nft_mint: Pubkey,
    pub nft_meta_data_account: Pubkey,
    pub nft_mint_account: Pubkey,
    pub nft_token_account: Pubkey,
}

/// The calls that mint a copy of an NFT: a mint with no decimals whose
/// authority is the owner, the owner's token account, one token, and its
/// metadata (`name`, `symbol`, `uri`; no seller fee, no creators, no
/// collection, no uses; owner as update authority, signing; mutable).
pub open spec fn copy_actions(c: NftCopy, name: String, symbol: String, uri: String) -> Seq<Action> {
    seq![
        Action::InitializeMint {
            mint: c.nft_mint_account,
            decimals: 0,
            mint_authority: c.current_owner,
            freeze_authority: Option::None,
        },
        Action::InitializeAccount { account: c.nft_token_account, mint: c.nft_mint_account, owner: c.current_owner },
        Action::MintTo { mint: c.nft_mint_account, account: c.nft_token_account, authority: c.current_owner, amount: 1 },
        Action::CreateMetadataAccountsV2 {
            metadata: c.nft_meta_data_account,
            mint: c.nft_mint_account,
            mint_authority: c.current_owner,
            payer: c.current_owner,
            update_authority: c.current_owner,
            name: name,
            symbol: symbol,
            uri: uri,
            seller_fee_basis_points: 0,
            creators: Option::None,
            collection: Option::None,
            uses: Option::None,
            update_authority_is_signer: true,
            is_mutable: true,
        },
    ]
}

/// Mints a synthetic copy of an NFT (see `copy_actions`).
pub fn handler(ctx: &NftCopy, name: String, symbol: String, uri: String) -> (actions: Vec<Action>)
    ensures
        actions@ == copy_actions(*ctx, name, symbol, uri),
{
    let mut actions: Vec<Action> = Vec::new();
    actions.push(Action::InitializeMint {
        mint: ctx.nft_mint_account,
        decimals: 0,
        mint_authority: ctx.current_owner,
        freeze_authority: Option::None,
    });
    actions.push(Action::InitializeAccount {
        account: ctx.nft_token_account,
        mint: ctx.nft_mint_account,
        owner: ctx.current_owner,
    });
    actions.push(Action::MintTo {
        mint: ctx.nft_mint_account,
        account: ctx.nft_token_account,
        authority: ctx.current_owner,
        amount: 1,
    });
    actions.push(Action::CreateMetadataAccountsV2 {
        metadata: ctx.nft_meta_data_account,
        mint: ctx.nft_mint_account,
        mint_authority: ctx.current_owner,
        payer: ctx.current_owner,
        update_authority: ctx.current_owner,
        name: name,
        symbol: symbol,
        uri: uri,
        seller_fee_basis_points: 0,
        creators: Option::None,
        collection: Option::None,
        uses: Option::None,
        update_authority_is_signer: true,
        is_mutable: true,
    });
    actions
}

/// A copy is one fresh NFT owned by the caller: a mint with no decimals and
/// no freeze authority is created, exactly one token is minted, into the
/// caller's new token account, and its metadata carries the given name,
/// symbol and uri with the caller as update authority, no royalties, no
/// creators, collection or uses.
pub proof fn law_copy_is_one_nft(c: NftCopy, name: String, symbol: String, uri: String)
    ensures
        ({
            let a = copy_actions(c, name, symbol, uri);
            &&& a[0] matches Action::InitializeMint { mint, decimals, mint_authority, freeze_authority }
                && mint == c.nft_mint_account && decimals == 0 && mint_authority == c.current_owner
                && freeze_authority is None
            &&& a[1] matches Action::InitializeAccount { account, mint, owner }
                && account == c.nft_token_account && mint == c.nft_mint_account && owner == c.current_owner
            &&& forall|i: int| 0 <= i < a.len() && (#[trigger] a[i] is MintTo) ==> i == 2
            &&& a[2] matches Action::MintTo { mint, account, amount, .. }
                && mint == c.nft_mint_account && account == c.nft_token_account && amount == 1
            &&& a[3] matches Action::CreateMetadataAccountsV2 {
                mint: m, update_authority: u, name: n, symbol: sy, uri: ur, seller_fee_basis_points: fee,
                creators: cr, collection: co, uses: us, ..
            } && m == c.nft_mint_account && u == c.current_owner && n == name && sy == symbol && ur == uri
                && fee == 0 && cr is None && co is None && us is None
            &&& a.len() == 4
        }),
{
}

} // verus!
