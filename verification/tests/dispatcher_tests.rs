use voting::dispatcher::{
    build_deposit_call, mint_reward_request, DepositInstruction, PoolAccounts, REWARD_AMOUNT,
};
use voting::ids::AccountId;
use voting::state::initialize;

fn pool() -> PoolAccounts {
    PoolAccounts {
        raydium_program: AccountId::new(20),
        spl_token_program: AccountId::new(21),
        amm: AccountId::new(22),
        authority: AccountId::new(23),
        amm_open_orders: AccountId::new(24),
        amm_target_orders: AccountId::new(25),
        pool_lp_mint: AccountId::new(26),
        pool_token_coin: AccountId::new(27),
        pool_token_pc: AccountId::new(28),
        serum_market: AccountId::new(29),
        user_coin_token_account: AccountId::new(30),
        user_pc_token_account: AccountId::new(31),
        user_lp_token_account: AccountId::new(32),
    }
}

#[test]
fn the_mint_request_rewards_one_token() {
    let record = initialize(
        AccountId::new(1),
        AccountId::new(2),
        vec!["Alice".to_string()],
    )
    .unwrap();
    let holding = AccountId::new(40);
    let authority = AccountId::new(1);
    let req = mint_reward_request(&record, holding, authority);
    assert_eq!(req.mint, AccountId::new(2));
    assert_eq!(req.destination, holding);
    assert_eq!(req.authority, authority);
    assert_eq!(req.amount, 1_000_000);
    assert_eq!(req.amount, REWARD_AMOUNT);
}

#[test]
fn the_payload_is_the_two_amounts_little_endian() {
    let data = DepositInstruction { amount_coin: 1, amount_pc: 2 }.encode();
    assert_eq!(
        data,
        vec![1, 0, 0, 0, 0, 0, 0, 0, 2, 0, 0, 0, 0, 0, 0, 0]
    );

    let data = DepositInstruction {
        amount_coin: 0x0102030405060708,
        amount_pc: u64::MAX,
    }
    .encode();
    assert_eq!(
        data,
        vec![8, 7, 6, 5, 4, 3, 2, 1, 255, 255, 255, 255, 255, 255, 255, 255]
    );
}

#[test]
fn the_deposit_call_orders_its_thirteen_handles() {
    let voter = AccountId::new(50);
    let call = build_deposit_call(&pool(), voter, 700, 900);
    assert_eq!(call.program_id, AccountId::new(20));
    assert_eq!(call.accounts.len(), 13);

    // (position, account, writable, signer)
    let expected = [
        (AccountId::new(21), false, false),
        (AccountId::new(22), true, false),
        (AccountId::new(23), false, false),
        (AccountId::new(24), false, false),
        (AccountId::new(25), true, false),
        (AccountId::new(26), true, false),
        (AccountId::new(27), true, false),
        (AccountId::new(28), true, false),
        (AccountId::new(29), false, false),
        (AccountId::new(30), true, false),
        (AccountId::new(31), true, false),
        (AccountId::new(32), true, false),
        (AccountId::new(50), false, true),
    ];
    for (i, (account, writable, signer)) in expected.iter().enumerate() {
        assert_eq!(call.accounts[i].account, *account);
        assert_eq!(call.accounts[i].is_writable, *writable);
        assert_eq!(call.accounts[i].is_signer, *signer);
    }

    assert_eq!(
        call.data,
        vec![188, 2, 0, 0, 0, 0, 0, 0, 132, 3, 0, 0, 0, 0, 0, 0]
    );
}
