//! The reward dispatcher: the two requests a committed vote triggers.
//!
//! Both side effects are described here as plain values — a mint request and a
//! deposit call with its exact handle list and binary payload — so their
//! construction is verified; performing them against the host chain is the
//! application's job.

use vstd::prelude::*;
use vstd::bytes::{spec_u64_to_le_bytes, u64_to_le_bytes};
use crate::ids::AccountId;
use crate::state::VotingState;

verus! {

/// How many base units of the reward token one accepted vote mints: one
/// reward token in the token's smallest-unit convention.
pub const REWARD_AMOUNT: u64 = 1_000_000;

/// A request to the external mint capability: create `amount` base units of
/// token `mint` in `destination`, authorized by `authority`.
#[derive(Clone, Copy, Debug, PartialEq, Eq, Structural)]
pub struct MintRequest {
    pub mint: AccountId,
    pub destination: AccountId,
    pub authority: AccountId,
    pub amount: u64,
}

/// The reward mint a committed vote owes: the record's reward token, the
/// voter's holding account as destination, and the fixed reward amount.
pub fn mint_reward_request(
    record: &VotingState,
    voter_token_account: AccountId,
    authority: AccountId,
) -> (r: MintRequest)
    ensures
        r.mint == record.vote_mint,
        r.destination == voter_token_account,
        r.authority == authority,
        r.amount == REWARD_AMOUNT,
{
    MintRequest {
        mint: record.vote_mint,
        destination: voter_token_account,
        authority,
        amount: REWARD_AMOUNT,
    }
}

/// The data of the deposit instruction forwarded to the pool program: the two
/// caller-supplied liquidity amounts.
#[derive(Clone, Copy, Debug, PartialEq, Eq, Structural)]
pub struct DepositInstruction {
    pub amount_coin: u64,
    pub amount_pc: u64,
}

/// The exact 16-byte wire form of a deposit instruction: the two amounts,
/// little-endian, coin side first.
pub open spec fn deposit_payload(amount_coin: u64, amount_pc: u64) -> Seq<u8> {
    spec_u64_to_le_bytes(amount_coin) + spec_u64_to_le_bytes(amount_pc)
}

impl DepositInstruction {
    /// Serialize this instruction into its 16-byte wire form.
    pub fn encode(&self) -> (r: Vec<u8>)
        ensures
            r@ == deposit_payload(self.amount_coin, self.amount_pc),
            r@.len() == 16,
    {
        let mut out = u64_to_le_bytes(self.amount_coin);
        let mut rest = u64_to_le_bytes(self.amount_pc);
        out.append(&mut rest);
        out
    }
}

/// One resource handle of the deposit call, with the access the pool program
/// is granted on it.
#[derive(Clone, Copy, Debug, PartialEq, Eq, Structural)]
pub struct HandleMeta {
    pub account: AccountId,
    pub is_writable: bool,
    pub is_signer: bool,
}

/// The fixed accounts a deposit call runs against: the pool program itself
/// and the twelve handles it dereferences, in no particular order here — the
/// order on the wire is fixed by [`deposit_handles`].
#[derive(Clone, Copy, Debug, PartialEq, Eq, Structural)]
pub struct PoolAccounts {
    pub raydium_program: AccountId,
    pub spl_token_program: AccountId,
    pub amm: AccountId,
    pub authority: AccountId,
    pub amm_open_orders: AccountId,
    pub amm_target_orders: AccountId,
    pub pool_lp_mint: AccountId,
    pub pool_token_coin: AccountId,
    pub pool_token_pc: AccountId,
    pub serum_market: AccountId,
    pub user_coin_token_account: AccountId,
    pub user_pc_token_account: AccountId,
    pub user_lp_token_account: AccountId,
}

/// The thirteen handles of a deposit call, in the exact positional order the
/// pool program expects, with the voter attached last as a read-only signer.
pub open spec fn deposit_handles(pool: PoolAccounts, voter: AccountId) -> Seq<HandleMeta> {
    seq![
        (HandleMeta { account: pool.spl_token_program, is_writable: false, is_signer: false }),
        (HandleMeta { account: pool.amm, is_writable: true, is_signer: false }),
        (HandleMeta { account: pool.authority, is_writable: false, is_signer: false }),
        (HandleMeta { account: pool.amm_open_orders, is_writable: false, is_signer: false }),
        (HandleMeta { account: pool.amm_target_orders, is_writable: true, is_signer: false }),
        (HandleMeta { account: pool.pool_lp_mint, is_writable: true, is_signer: false }),
        (HandleMeta { account: pool.pool_token_coin, is_writable: true, is_signer: false }),
        (HandleMeta { account: pool.pool_token_pc, is_writable: true, is_signer: false }),
        (HandleMeta { account: pool.serum_market, is_writable: false, is_signer: false }),
        (HandleMeta { account: pool.user_coin_token_account, is_writable: true, is_signer: false }),
        (HandleMeta { account: pool.user_pc_token_account, is_writable: true, is_signer: false }),
        (HandleMeta { account: pool.user_lp_token_account, is_writable: true, is_signer: false }),
        (HandleMeta { account: voter, is_writable: false, is_signer: true }),
    ]
}

/// The complete deposit call: the pool program to invoke, the ordered handle
/// list, and the binary payload.
#[derive(Debug)]
pub struct DepositCall {
    pub program_id: AccountId,
    pub accounts: Vec<HandleMeta>,
    pub data: Vec<u8>,
}

/// Build the deposit call a committed vote forwards: exactly the thirteen
/// handles of [`deposit_handles`] in that order, and exactly the payload of
/// [`deposit_payload`] for the caller-supplied amounts. The amounts are not
/// validated here; the pool program is trusted to validate them.
pub fn build_deposit_call(
    pool: &PoolAccounts,
    voter: AccountId,
    amount_coin: u64,
    amount_pc: u64,
) -> (r: DepositCall)
    ensures
        r.program_id == pool.raydium_program,
        r.accounts@ == deposit_handles(*pool, voter),
        r.data@ == deposit_payload(amount_coin, amount_pc),
{
    let mut accounts: Vec<HandleMeta> = Vec::new();
    accounts.push(HandleMeta { account: pool.spl_token_program, is_writable: false, is_signer: false });
    accounts.push(HandleMeta { account: pool.amm, is_writable: true, is_signer: false });
    accounts.push(HandleMeta { account: pool.authority, is_writable: false, is_signer: false });
    accounts.push(HandleMeta { account: pool.amm_open_orders, is_writable: false, is_signer: false });
    accounts.push(HandleMeta { account: pool.amm_target_orders, is_writable: true, is_signer: false });
    accounts.push(HandleMeta { account: pool.pool_lp_mint, is_writable: true, is_signer: false });
    accounts.push(HandleMeta { account: pool.pool_token_coin, is_writable: true, is_signer: false });
    accounts.push(HandleMeta { account: pool.pool_token_pc, is_writable: true, is_signer: false });
    accounts.push(HandleMeta { account: pool.serum_market, is_writable: false, is_signer: false });
    accounts.push(HandleMeta { account: pool.user_coin_token_account, is_writable: true, is_signer: false });
    accounts.push(HandleMeta { account: pool.user_pc_token_account, is_writable: true, is_signer: false });
    accounts.push(HandleMeta { account: pool.user_lp_token_account, is_writable: true, is_signer: false });
    accounts.push(HandleMeta { account: voter, is_writable: false, is_signer: true });
    proof {
        assert(accounts@ =~= deposit_handles(*pool, voter));
    }
    let instruction = DepositInstruction { amount_coin, amount_pc };
    let data = instruction.encode();
    DepositCall { program_id: pool.raydium_program, accounts, data }
}

} // verus!
