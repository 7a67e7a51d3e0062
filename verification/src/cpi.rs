use vstd::prelude::*;
use crate::pubkey::Pubkey;

verus! {

/// The program-derived address that signs a token-program call.
#[derive(Clone, Copy, Debug, PartialEq, Eq)]
pub enum PdaSigner {
    /// No program signature: the transaction's signer authorizes the call.
    Owner,
    /// The binding record of `child_mint` under `parent_mint`.
    Children { parent_mint: Pubkey, child_mint: Pubkey, bump: u8 },
    /// The first-generation binding record of the parent token account `parent`.
    ChildrenOf { parent: Pubkey, bump: u8 },
    /// The parent record of `mint`.
    Parent { mint: Pubkey, bump: u8 },
}

/// A creator listed in token metadata, with its share of the royalties.
#[derive(Clone, Copy, Debug, PartialEq, Eq)]
pub struct Creator {
    pub address: Pubkey,
    pub verified: bool,
    pub share: u8,
}

/// The collection an NFT's metadata names, and whether that membership is verified.
#[derive(Clone, Copy, Debug, PartialEq, Eq)]
pub struct Collection {
    pub verified: bool,
    pub key: Pubkey,
}

/// How the uses of an NFT are spent.
#[derive(Clone, Copy, Debug, PartialEq, Eq)]
pub enum UseMethod {
    Burn,
    Multiple,
    Single,
}

/// The uses an NFT's metadata grants.
#[derive(Clone, Copy, Debug, PartialEq, Eq)]
pub struct Uses {
    pub use_method: UseMethod,
    pub remaining: u64,
    pub total: u64,
}

/// A call that an instruction makes into another program, or an account it
/// closes, in the order the instruction performs them.
#[derive(Clone, Debug, PartialEq, Eq)]
pub enum Action {
    /// Token program: make `new_owner` the owner of token account `account`.
    SetAuthority { account: Pubkey, current_authority: Pubkey, new_owner: Pubkey, signer: PdaSigner },
    /// Token program: burn `amount` tokens of `mint` held in `account`.
    Burn { mint: Pubkey, account: Pubkey, authority: Pubkey, amount: u64, signer: PdaSigner },
    /// Close the program account `account`, sending its lamports to `destination`.
    Close { account: Pubkey, destination: Pubkey },
    /// Token program: close token account `account`, sending its lamports to `destination`.
    CloseTokenAccount { account: Pubkey, destination: Pubkey, owner: Pubkey },
    /// Token program: move `amount` tokens from `from` to `to`.
    TokenTransfer { from: Pubkey, to: Pubkey, authority: Pubkey, amount: u64 },
    /// System program: move `lamports` from `from` to `to`.
    SystemTransfer { from: Pubkey, to: Pubkey, lamports: u64 },
    /// Token program: initialize mint `mint`.
    InitializeMint { mint: Pubkey, decimals: u8, mint_authority: Pubkey, freeze_authority: Option<Pubkey> },
    /// Token program: initialize token account `account` of `mint` owned by `owner`.
    InitializeAccount { account: Pubkey, mint: Pubkey, owner: Pubkey },
    /// Token program: mint `amount` tokens of `mint` into `account`.
    MintTo { mint: Pubkey, account: Pubkey, authority: Pubkey, amount: u64 },
    /// Token-metadata program: create the metadata account of `mint`.
    CreateMetadataAccountsV2 {
        metadata: Pubkey,
        mint: Pubkey,
        mint_authority: Pubkey,
        payer: Pubkey,
        update_authority: Pubkey,
        name: String,
        symbol: String,
        uri: String,
        seller_fee_basis_points: u16,
        creators: Option<Vec<Creator>>,
        collection: Option<Collection>,
        uses: Option<Uses>,
        update_authority_is_signer: bool,
        is_mutable: bool,
    },
}

} // verus!
