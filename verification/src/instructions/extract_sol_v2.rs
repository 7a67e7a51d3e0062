use vstd::prelude::*;
use crate::accounts::{Account, TokenAccount};
use crate::cpi::Action;
use crate::pubkey::Pubkey;
use crate::state::errors::InstructionError;
use crate::state::metadata::{ChildrenMetadataV2, ParentMetadata, SolAccount};

verus! {

/// The accounts of `handler`.
#[derive(Clone, Copy, Debug, PartialEq, Eq)]
pub struct ExtractSolV2 {
    pub current_owner: Pubkey,
    pub root_mint_account: Pubkey,
    pub root_token_account: TokenAccount,
    pub root_meta: Account<ChildrenMetadataV2>,
    pub parent_token_account: TokenAccount,
    pub parent_mint_account: Pubkey,
    pub self_metadata: Account<ParentMetadata>,
    /// The account that holds the SOL injected into the parent NFT.
    pub sol_account: Account<SolAccount>,
}

pub open spec fn constraints(c: ExtractSolV2, bump: u8) -> bool {
    &&& c.root_token_account.amount == 1
    &&& c.root_token_account.mint == c.root_mint_account
    &&& c.root_token_account.owner == c.current_owner
    &&& c.root_meta.data.parent == c.root_mint_account
    &&& c.root_meta.data.root == c.root_meta.key
    &&& c.root_meta.data.is_mutable
    &&& !c.root_meta.data.is_mutated
    &&& !c.root_meta.data.is_burnt
    &&& c.parent_token_account.owner == c.current_owner
    &&& c.parent_token_account.mint == c.parent_mint_account
    &&& c.self_metadata.data.bump == bump
}

/// The calls of a successful `handler`: the NFT's SOL account is closed to the owner.
pub open spec fn extract_sol_actions(c: ExtractSolV2) -> Seq<Action> {
    seq![Action::Close { account: c.sol_account.key, destination: c.current_owner }]
}

/// Extracting SOL empties exactly the NFT's SOL account into the owner's
/// wallet: the only call closes that account to the owner, and the NFT's own
/// record is left alone.
pub proof fn law_extract_sol(c: ExtractSolV2)
    ensures
        extract_sol_actions(c).len() == 1,
        extract_sol_actions(c)[0] matches Action::Close { account, destination }
            && account == c.sol_account.key && destination == c.current_owner,
        c.sol_account.key != c.self_metadata.key ==> !extract_sol_actions(c).contains(
            Action::Close { account: c.self_metadata.key, destination: c.current_owner }),
{
    let a = extract_sol_actions(c);
    if c.sol_account.key != c.self_metadata.key && a.contains(Action::Close { account: c.self_metadata.key, destination: c.current_owner }) {
        let i = choose|i: int| 0 <= i < a.len() && a[i] == Action::Close { account: c.self_metadata.key, destination: c.current_owner };
        assert(a[0] == Action::Close { account: c.sol_account.key, destination: c.current_owner });
    }
}

/// The owner of a mutable tree takes back the SOL injected into an NFT: the
/// NFT's SOL account is closed to the owner, so all its lamports go to the
/// owner's wallet.
pub fn handler(ctx: &ExtractSolV2, _bump: u8) -> (r: Result<Vec<Action>, InstructionError>)
    ensures
        match r {
            Err(e) => !constraints(*ctx, _bump) && e == InstructionError::ConstraintRaw,
            Ok(actions) => constraints(*ctx, _bump) && actions@ == extract_sol_actions(*ctx),
        },
{
    if !(ctx.root_token_account.amount == 1
        && ctx.root_token_account.mint.key_eq(&ctx.root_mint_account)
        && ctx.root_token_account.owner.key_eq(&ctx.current_owner)
        && ctx.root_meta.data.parent.key_eq(&ctx.root_mint_account)
        && ctx.root_meta.data.root.key_eq(&ctx.root_meta.key)
        && ctx.root_meta.data.is_mutable
        && !ctx.root_meta.data.is_mutated
        && !ctx.root_meta.data.is_burnt
        && ctx.parent_token_account.owner.key_eq(&ctx.current_owner)
        && ctx.parent_token_account.mint.key_eq(&ctx.parent_mint_account)
        && ctx.self_metadata.data.bump == _bump) {
        return Err(InstructionError::ConstraintRaw);
    }
    let mut actions: Vec<Action> = Vec::new();
    actions.push(Action::Close { account: ctx.sol_account.key, destination: ctx.current_owner });
    assert(actions@ =~= extract_sol_actions(*ctx));
    Ok(actions)
}

} // verus!
