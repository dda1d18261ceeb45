use shekel::{
    signing_authority, transact, transact_with, transfer_usdc, reward_tokens, reward_tokens_with,
    within_limits, Address, Authority, ErrorCode, NetworkConfig, Stats, TokenAccount, TransferUSDC,
};

fn address(tag: u8) -> Address {
    Address { bytes: [tag; 32] }
}

fn holding(mint: Address, owner: Address, amount: u64) -> TokenAccount {
    TokenAccount { mint, owner, amount }
}

fn signer() -> Option<(Address, u8)> {
    Some((address(9), 254))
}

fn accounts(basis_points: u64, moved: u64, treasury: u64) -> TransferUSDC {
    let stable = address(1);
    let reward = address(2);
    let payer = address(3);
    let payee = address(4);
    let authority = address(9);
    TransferUSDC {
        owner: payer,
        source: holding(stable, payer, 50_000),
        source_token_account: holding(reward, payer, 10),
        destination: holding(stable, payee, 20),
        destination_token_account: holding(reward, payee, 30),
        network_config: NetworkConfig {
            merchant_tx_fee_basis_points: basis_points,
            purchase_protection_fee_basis_points: 0,
            usdc_mint: stable,
            shekel_token_mint: reward,
        },
        pool_account: holding(stable, authority, 40),
        stats: Stats {
            amount_moved: moved,
            amount_rewarded_sender: 0,
            amount_rewarded_recipient: 0,
        },
        treasury: holding(reward, authority, treasury),
        authority: Authority { key: authority },
    }
}

#[test]
fn one_percent_fee_on_ten_thousand() {
    let mut ctx = accounts(100, 0, 5_000_000);
    assert!(within_limits(&ctx, 10_000));
    assert_eq!(transact_with(&mut ctx, &signer(), 10_000), Ok(()));
    assert_eq!(ctx.source.amount, 40_000);
    assert_eq!(ctx.pool_account.amount, 40 + 100);
    assert_eq!(ctx.destination.amount, 20 + 9_900);
    assert_eq!(ctx.stats.amount_moved, 10_000);
    assert_eq!(ctx.source_token_account.amount, 10 + 499_995);
    assert_eq!(ctx.destination_token_account.amount, 30 + 499_996);
    assert_eq!(ctx.treasury.amount, 5_000_000 - 999_991);
    assert_eq!(ctx.stats.amount_rewarded_sender, 499_995);
    assert_eq!(ctx.stats.amount_rewarded_recipient, 499_996);
}

#[test]
fn payout_clamps_to_a_treasury_of_three() {
    let mut ctx = accounts(100, 998_991_000, 3);
    assert!(within_limits(&ctx, 10_000));
    assert_eq!(transact_with(&mut ctx, &signer(), 10_000), Ok(()));
    assert_eq!(ctx.stats.amount_moved, 999_001_000);
    assert_eq!(ctx.source_token_account.amount, 10 + 1);
    assert_eq!(ctx.destination_token_account.amount, 30 + 2);
    assert_eq!(ctx.treasury.amount, 0);
    assert_eq!(ctx.stats.amount_rewarded_sender, 1);
    assert_eq!(ctx.stats.amount_rewarded_recipient, 2);
}

#[test]
fn shares_add_up_and_differ_by_at_most_one() {
    for treasury in [1u64, 2, 3, 4, 999, 1_000, 1_000_000, 7_000_000] {
        let mut ctx = accounts(250, 123_456, treasury);
        let before = ctx;
        assert_eq!(transact_with(&mut ctx, &signer(), 4_000), Ok(()));
        let sender = ctx.source_token_account.amount - before.source_token_account.amount;
        let recipient =
            ctx.destination_token_account.amount - before.destination_token_account.amount;
        let rate = shekel::get_reward_rate(123_456 + 4_000);
        let expected = if rate > treasury { treasury } else { rate };
        assert_eq!(sender + recipient, expected);
        assert!(recipient - sender <= 1);
        assert_eq!(before.treasury.amount - ctx.treasury.amount, expected);
    }
}

#[test]
fn zero_amount_is_refused_and_changes_nothing() {
    let mut ctx = accounts(100, 77, 1_000);
    let before = ctx;
    assert_eq!(transact_with(&mut ctx, &signer(), 0), Err(ErrorCode::ZeroAmt));
    assert_eq!(ctx, before);
    let mut wrong = accounts(100, 77, 1_000);
    wrong.source.mint = address(8);
    wrong.owner = address(8);
    let before = wrong;
    assert_eq!(transact_with(&mut wrong, &None, 0), Err(ErrorCode::ZeroAmt));
    assert_eq!(wrong, before);
}

#[test]
fn fee_of_the_whole_amount_is_refused_and_changes_nothing() {
    for basis_points in [10_000u64, 10_001, 50_000, u64::MAX] {
        let mut ctx = accounts(basis_points, 0, 1_000);
        let before = ctx;
        assert_eq!(
            transact_with(&mut ctx, &signer(), 500),
            Err(ErrorCode::FeeGreaterThanAmt)
        );
        assert_eq!(ctx, before);
    }
}

#[test]
fn no_fee_means_no_reward() {
    let mut ctx = accounts(0, 0, 1_000_000);
    let before = ctx;
    assert_eq!(transact_with(&mut ctx, &None, 10_000), Ok(()));
    assert_eq!(ctx.source.amount, before.source.amount - 10_000);
    assert_eq!(ctx.destination.amount, before.destination.amount + 10_000);
    assert_eq!(ctx.pool_account, before.pool_account);
    assert_eq!(ctx.stats.amount_moved, 10_000);
    assert_eq!(ctx.stats.amount_rewarded_sender, 0);
    assert_eq!(ctx.stats.amount_rewarded_recipient, 0);
    assert_eq!(ctx.treasury, before.treasury);
    assert_eq!(ctx.source_token_account, before.source_token_account);
    assert_eq!(ctx.destination_token_account, before.destination_token_account);
}

#[test]
fn fee_rounded_down_to_zero_means_no_reward() {
    let mut ctx = accounts(100, 0, 1_000_000);
    assert_eq!(transact_with(&mut ctx, &signer(), 99), Ok(()));
    assert_eq!(ctx.destination.amount, 20 + 99);
    assert_eq!(ctx.pool_account.amount, 40);
    assert_eq!(ctx.treasury.amount, 1_000_000);
    assert_eq!(ctx.stats.amount_moved, 99);
}

#[test]
fn empty_treasury_settles_without_reward() {
    let mut ctx = accounts(100, 0, 0);
    assert_eq!(transact_with(&mut ctx, &None, 10_000), Ok(()));
    assert_eq!(ctx.pool_account.amount, 140);
    assert_eq!(ctx.destination.amount, 9_920);
    assert_eq!(ctx.stats.amount_moved, 10_000);
    assert_eq!(ctx.source_token_account.amount, 10);
    assert_eq!(ctx.destination_token_account.amount, 30);
    assert_eq!(ctx.stats.amount_rewarded_sender, 0);
    assert_eq!(ctx.stats.amount_rewarded_recipient, 0);
}

#[test]
fn wrong_asset_is_refused() {
    let mut ctx = accounts(100, 0, 1_000);
    ctx.destination.mint = address(2);
    let before = ctx;
    assert_eq!(
        transact_with(&mut ctx, &signer(), 10_000),
        Err(ErrorCode::AssetMismatch)
    );
    assert_eq!(ctx, before);
    let mut ctx = accounts(100, 0, 1_000);
    ctx.treasury.mint = address(1);
    assert_eq!(
        transact_with(&mut ctx, &signer(), 10_000),
        Err(ErrorCode::AssetMismatch)
    );
}

#[test]
fn payer_must_own_the_source() {
    let mut ctx = accounts(100, 0, 1_000);
    ctx.owner = address(4);
    let before = ctx;
    assert_eq!(
        transact_with(&mut ctx, &signer(), 10_000),
        Err(ErrorCode::Unauthorized)
    );
    assert_eq!(ctx, before);
}

#[test]
fn source_must_hold_the_amount() {
    let mut ctx = accounts(100, 0, 1_000);
    let before = ctx;
    assert_eq!(
        transact_with(&mut ctx, &signer(), 50_001),
        Err(ErrorCode::InsufficientFunds)
    );
    assert_eq!(ctx, before);
    assert_eq!(transact_with(&mut ctx, &signer(), 50_000), Ok(()));
    assert_eq!(ctx.source.amount, 0);
}

#[test]
fn reward_needs_the_signing_authority() {
    let mut ctx = accounts(100, 0, 1_000);
    let before = ctx;
    assert_eq!(
        transact_with(&mut ctx, &None, 10_000),
        Err(ErrorCode::Unauthorized)
    );
    assert_eq!(ctx, before);
    assert_eq!(
        transact_with(&mut ctx, &Some((address(5), 254)), 10_000),
        Err(ErrorCode::Unauthorized)
    );
    assert_eq!(ctx, before);
    ctx.treasury.owner = address(5);
    let before = ctx;
    assert_eq!(
        transact_with(&mut ctx, &signer(), 10_000),
        Err(ErrorCode::Unauthorized)
    );
    assert_eq!(ctx, before);
}

#[test]
fn transact_signs_with_the_derived_authority() {
    let derived = signing_authority().expect("the authority derives");
    let mut ctx = accounts(100, 0, 5_000_000);
    ctx.authority = Authority { key: derived.0 };
    ctx.treasury.owner = derived.0;
    assert_eq!(transact(&mut ctx, 10_000), Ok(()));
    assert_eq!(ctx.source_token_account.amount, 10 + 499_995);
    assert_eq!(ctx.destination_token_account.amount, 30 + 499_996);

    let mut other = accounts(100, 0, 5_000_000);
    let before = other;
    assert_eq!(transact(&mut other, 10_000), Err(ErrorCode::Unauthorized));
    assert_eq!(other, before);
}

#[test]
fn limits_are_told_before_settling() {
    let mut ctx = accounts(100, u64::MAX - 5, 1_000);
    assert!(!within_limits(&ctx, 10_000));
    assert!(within_limits(&ctx, 5));
    assert!(within_limits(&ctx, 0));
    ctx.stats.amount_moved = 0;
    ctx.destination.amount = u64::MAX - 9_899;
    assert!(!within_limits(&ctx, 10_000));
    ctx.destination.amount = u64::MAX - 9_900;
    assert!(within_limits(&ctx, 10_000));
    ctx.stats.amount_rewarded_recipient = u64::MAX - 499;
    assert!(!within_limits(&ctx, 10_000));
    ctx.source.amount = 9_999;
    assert!(within_limits(&ctx, 10_000));
    ctx.source.amount = 50_000;
    assert!(!within_limits(&ctx, 10_000));
    ctx.network_config.merchant_tx_fee_basis_points = 10_000;
    assert!(within_limits(&ctx, 10_000));
}

#[test]
fn signed_transfer_moves_the_amount() {
    let mut from = holding(address(1), address(3), 100);
    let mut to = holding(address(1), address(4), 5);
    assert_eq!(transfer_usdc(&mut from, &mut to, &address(3), 60), Ok(()));
    assert_eq!(from, holding(address(1), address(3), 40));
    assert_eq!(to, holding(address(1), address(4), 65));
    assert_eq!(
        transfer_usdc(&mut from, &mut to, &address(3), 41),
        Err(ErrorCode::InsufficientFunds)
    );
    assert_eq!(
        transfer_usdc(&mut from, &mut to, &address(4), 1),
        Err(ErrorCode::Unauthorized)
    );
    assert_eq!(from.amount, 40);
    assert_eq!(to.amount, 65);
    assert_eq!(transfer_usdc(&mut from, &mut to, &address(3), 0), Ok(()));
    assert_eq!(from.amount, 40);
}

#[test]
fn delegated_transfer_needs_the_derived_address() {
    let authority = Authority { key: address(9) };
    let mut treasury = holding(address(2), address(9), 100);
    let mut to = holding(address(2), address(4), 5);
    assert_eq!(
        reward_tokens_with(&mut to, &mut treasury, &authority, &signer(), 30),
        Ok(())
    );
    assert_eq!(treasury.amount, 70);
    assert_eq!(to.amount, 35);
    assert_eq!(
        reward_tokens_with(&mut to, &mut treasury, &authority, &None, 30),
        Err(ErrorCode::Unauthorized)
    );
    assert_eq!(
        reward_tokens_with(&mut to, &mut treasury, &authority, &Some((address(8), 1)), 30),
        Err(ErrorCode::Unauthorized)
    );
    assert_eq!(
        reward_tokens_with(&mut to, &mut treasury, &authority, &signer(), 71),
        Err(ErrorCode::InsufficientFunds)
    );
    assert_eq!(treasury.amount, 70);
    assert_eq!(to.amount, 35);
}

#[test]
fn delegated_transfer_derives_its_authority() {
    let derived = signing_authority().expect("the authority derives");
    let authority = Authority { key: derived.0 };
    let mut treasury = holding(address(2), derived.0, 100);
    let mut to = holding(address(2), address(4), 5);
    assert_eq!(reward_tokens(&mut to, &mut treasury, &authority, 100), Ok(()));
    assert_eq!(treasury.amount, 0);
    assert_eq!(to.amount, 105);

    let stranger = Authority { key: address(9) };
    let mut treasury = holding(address(2), address(9), 100);
    assert_eq!(
        reward_tokens(&mut to, &mut treasury, &stranger, 1),
        Err(ErrorCode::Unauthorized)
    );
    assert_eq!(treasury.amount, 100);
}
