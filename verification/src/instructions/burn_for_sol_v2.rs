use vstd::prelude::*;
use crate::accounts::{Account, TokenAccount};
use crate::cpi::{Action, PdaSigner};
use crate::pubkey::Pubkey;
use crate::state::errors::InstructionError;
use crate::state::metadata::SolAccount;

verus! {

/// The accounts of `handler`.
#[derive(Clone, Copy, Debug, PartialEq, Eq)]
pub struct BurnForSolV2 {
    pub current_owner: Pubkey,
    pub parent_mint_account: Pubkey,
    pub parent_token_account: TokenAccount,
    pub sol_account: Account<SolAccount>,
}

pub open spec fn constraints(c: BurnForSolV2, bump: u8) -> bool {
    &&& c.parent_token_account.owner == c.current_owner
    &&& c.parent_token_account.mint == c.parent_mint_account
    &&& c.sol_account.data.bump == bump
}

/// The calls of a successful `handler`: the owner burns all its tokens of the NFT.
pub open spec fn burn_actions(c: BurnForSolV2) -> Seq<Action> {
    seq![Action::Burn {
        mint: c.parent_mint_account,
        account: c.parent_token_account.key,
        authority: c.current_owner,
        amount: c.parent_token_account.amount,
        signer: PdaSigner::Owner,
    }]
}

/// Burning for SOL burns the NFT and nothing else: one burn, by the owner,
/// of every token that the owner's account holds of that NFT's mint.
pub proof fn law_burn_for_sol(c: BurnForSolV2)
    ensures
        burn_actions(c).len() == 1,
        burn_actions(c)[0] matches Action::Burn { mint, account, authority, amount, signer }
            && mint == c.parent_mint_account && account == c.parent_token_account.key
            && authority == c.current_owner && amount == c.parent_token_account.amount
            && signer == PdaSigner::Owner,
{
}

/// Burns every token of the owner's NFT (the SOL account is then closed to the owner).
pub fn handler(ctx: &BurnForSolV2, _bump: u8) -> (r: Result<Vec<Action>, InstructionError>)
    ensures
        match r {
            Err(e) => !constraints(*ctx, _bump) && e == InstructionError::ConstraintRaw,
            Ok(actions) => constraints(*ctx, _bump) && actions@ == burn_actions(*ctx),
        },
{
    if !(ctx.parent_token_account.owner.key_eq(&ctx.current_owner)
        && ctx.parent_token_account.mint.key_eq(&ctx.parent_mint_account)
        && ctx.sol_account.data.bump == _bump) {
        return Err(InstructionError::ConstraintRaw);
    }
    let mut actions: Vec<Action> = Vec::new();
    actions.push(Action::Burn {
        mint: ctx.parent_mint_account,
        account: ctx.parent_token_account.key,
        authority: ctx.current_owner,
        amount: ctx.parent_token_account.amount,
        signer: PdaSigner::Owner,
    });
    assert(actions@ =~= burn_actions(*ctx));
    Ok(actions)
}

} // verus!
