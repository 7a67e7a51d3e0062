use vstd::prelude::*;
use crate::accounts::{Account, TokenAccount};
use crate::cpi::Action;
use crate::pubkey::Pubkey;
use crate::state::errors::InstructionError;
use crate::state::metadata::SolAccount;

verus! {

/// The accounts of `handler`.
#[derive(Clone, Copy, Debug, PartialEq, Eq)]
pub struct InjectSolV2 {
    pub current_owner: Pubkey,
    pub parent_token_account: TokenAccount,
    pub parent_mint_account: Pubkey,
    pub sol_account: Account<SolAccount>,
}

pub open spec fn constraints(c: InjectSolV2) -> bool {
    &&& c.parent_token_account.owner == c.current_owner
    &&& c.parent_token_account.mint == c.parent_mint_account
}

/// The calls of a successful `handler`: the owner pays `amount` lamports
/// into the NFT's SOL account.
pub open spec fn inject_actions(c: InjectSolV2, amount: u64) -> Seq<Action> {
    seq![Action::SystemTransfer { from: c.current_owner, to: c.sol_account.key, lamports: amount }]
}

/// Injecting SOL moves exactly the requested lamports, from the NFT's owner
/// into that NFT's SOL account, and nothing else.
pub proof fn law_inject_sol(c: InjectSolV2, amount: u64)
    ensures
        inject_actions(c, amount).len() == 1,
        inject_actions(c, amount)[0] matches Action::SystemTransfer { from, to, lamports }
            && from == c.current_owner && to == c.sol_account.key && lamports == amount,
{
}

/// Adds `inject_sol_amount` lamports of the owner to the SOL account of the owner's NFT.
pub fn handler(ctx: &mut InjectSolV2, _bump: u8, inject_sol_amount: u64) -> (r: Result<Vec<Action>, InstructionError>)
    ensures
        match r {
            Err(e) => !constraints(*old(ctx)) && e == InstructionError::ConstraintRaw && *final(ctx) == *old(ctx),
            Ok(actions) => {
                &&& constraints(*old(ctx))
                &&& *final(ctx) == (InjectSolV2 {
                    sol_account: Account {
                        data: SolAccount { bump: _bump, ..old(ctx).sol_account.data },
                        ..old(ctx).sol_account
                    },
                    ..*old(ctx)
                })
                &&& actions@ == inject_actions(*old(ctx), inject_sol_amount)
            },
        },
{
    if !(ctx.parent_token_account.owner.key_eq(&ctx.current_owner)
        && ctx.parent_token_account.mint.key_eq(&ctx.parent_mint_account)) {
        return Err(InstructionError::ConstraintRaw);
    }
    ctx.sol_account.data.bump = _bump;
    let mut actions: Vec<Action> = Vec::new();
    actions.push(Action::SystemTransfer {
        from: ctx.current_owner,
        to: ctx.sol_account.key,
        lamports: inject_sol_amount,
    });
    assert(actions@ =~= inject_actions(*ctx, inject_sol_amount));
    Ok(actions)
}

} // verus!
