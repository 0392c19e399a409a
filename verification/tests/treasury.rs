use pokegacha_contract::errors::{CustomError, ProgramError};
use pokegacha_contract::instructions::topup_balance::checked_topup_cost;
use pokegacha_contract::instructions::{topup_balance, withdraw_funds, TopupBalance, Withdraw};
use pokegacha_contract::states::{
    Account, GameAuthority, Pubkey, Signer, UserData, LAMPORT_PER_COIN,
};
use pokegacha_contract::{topup, withdraw};

fn key(tag: u8) -> Pubkey {
    Pubkey::new_from_array([tag; 32])
}

fn player(owner: u8, balance: u64) -> UserData {
    UserData {
        address: key(owner),
        username: "ash".to_string(),
        bio: String::new(),
        pokemon_count: 2,
        balance,
    }
}

fn counter(holdings: u64, custody: u64, balance: u64) -> TopupBalance {
    TopupBalance {
        signer: Signer { key: key(1), lamports: holdings },
        user_data: Account::holding(300, player(1, balance)),
        config: Account::holding(custody, GameAuthority { owner: key(77) }),
    }
}

#[test]
fn one_coin_costs_a_hundred_thousand_units() {
    assert_eq!(LAMPORT_PER_COIN, 100_000);
    assert_eq!(checked_topup_cost(0), Some(0));
    assert_eq!(checked_topup_cost(1), Some(100_000));
    assert_eq!(checked_topup_cost(37), Some(3_700_000));
    assert_eq!(checked_topup_cost(u64::MAX / 100_000), Some(18_446_744_073_709_500_000));
    assert_eq!(checked_topup_cost(u64::MAX / 100_000 + 1), None);
    assert_eq!(checked_topup_cost(u64::MAX), None);
}

#[test]
fn topup_moves_the_price_and_credits_the_coins() {
    let mut ctx = counter(1_000_000, 50, 100);
    assert_eq!(topup_balance(&mut ctx, 3), Ok(()));
    assert_eq!(ctx.signer, Signer { key: key(1), lamports: 700_000 });
    assert_eq!(ctx.config, Account::holding(300_050, GameAuthority { owner: key(77) }));
    assert_eq!(ctx.user_data, Account::holding(300, player(1, 103)));
}

#[test]
fn topup_with_exactly_the_price_empties_the_holdings() {
    let mut ctx = counter(500_000, 0, 0);
    assert_eq!(topup(&mut ctx, 5), Ok(()));
    assert_eq!(ctx.signer.lamports, 0);
    assert_eq!(ctx.config.lamports, 500_000);
    assert_eq!(ctx.user_data.data.map(|user| user.balance), Some(5));
}

#[test]
fn topup_one_unit_short_is_refused_and_changes_nothing() {
    let mut ctx = counter(499_999, 10, 7);
    let before = ctx.clone();
    assert_eq!(
        topup_balance(&mut ctx, 5),
        Err(ProgramError::Custom(CustomError::InsufficientFunds))
    );
    assert_eq!(ctx, before);
}

#[test]
fn topup_whose_price_exceeds_every_holding_is_refused() {
    let mut ctx = counter(u64::MAX, 0, 7);
    let before = ctx.clone();
    assert_eq!(
        topup_balance(&mut ctx, u64::MAX),
        Err(ProgramError::Custom(CustomError::InsufficientFunds))
    );
    assert_eq!(ctx, before);
}

#[test]
fn topup_of_nothing_is_served_and_changes_nothing() {
    let mut ctx = counter(0, 10, 7);
    let before = ctx.clone();
    assert_eq!(topup_balance(&mut ctx, 0), Ok(()));
    assert_eq!(ctx, before);
}

#[test]
fn topup_without_player_or_treasury_is_refused() {
    let mut ctx = counter(1_000_000, 50, 100);
    ctx.user_data = Account::vacant(300);
    let before = ctx.clone();
    assert_eq!(topup_balance(&mut ctx, 1), Err(ProgramError::UninitializedAccount));
    assert_eq!(ctx, before);
    let mut ctx = counter(10, 50, 100);
    ctx.config = Account::vacant(50);
    assert_eq!(topup_balance(&mut ctx, 1), Err(ProgramError::UninitializedAccount));
}

fn vault(caller: u8, holdings: u64, custody: u64) -> Withdraw {
    Withdraw {
        owner: Signer { key: key(caller), lamports: holdings },
        config: Account::holding(custody, GameAuthority { owner: key(77) }),
    }
}

#[test]
fn withdraw_moves_exactly_the_amount() {
    let mut ctx = vault(77, 1_000, 900_000);
    assert_eq!(withdraw_funds(&mut ctx, 250_000), Ok(()));
    assert_eq!(ctx.owner, Signer { key: key(77), lamports: 251_000 });
    assert_eq!(ctx.config, Account::holding(650_000, GameAuthority { owner: key(77) }));
}

#[test]
fn withdraw_of_the_whole_custody_is_served() {
    let mut ctx = vault(77, 0, 900_000);
    assert_eq!(withdraw(&mut ctx, 900_000), Ok(()));
    assert_eq!(ctx.owner.lamports, 900_000);
    assert_eq!(ctx.config.lamports, 0);
}

#[test]
fn withdraw_beyond_custody_is_refused_and_changes_nothing() {
    let mut ctx = vault(77, 1_000, 900_000);
    let before = ctx.clone();
    assert_eq!(
        withdraw_funds(&mut ctx, 900_001),
        Err(ProgramError::Custom(CustomError::InsufficientFunds))
    );
    assert_eq!(ctx, before);
}

#[test]
fn withdraw_by_a_stranger_is_refused_and_changes_nothing() {
    let mut ctx = vault(1, 1_000, 900_000);
    let before = ctx.clone();
    assert_eq!(
        withdraw_funds(&mut ctx, 1),
        Err(ProgramError::Custom(CustomError::Unauthorized))
    );
    assert_eq!(ctx, before);
}

#[test]
fn stranger_asking_for_too_much_is_told_unauthorized() {
    let mut ctx = vault(1, 1_000, 10);
    assert_eq!(
        withdraw_funds(&mut ctx, 11),
        Err(ProgramError::Custom(CustomError::Unauthorized))
    );
}

#[test]
fn withdraw_from_a_missing_treasury_is_refused() {
    let mut ctx = Withdraw {
        owner: Signer { key: key(77), lamports: 0 },
        config: Account::vacant(500),
    };
    assert_eq!(withdraw_funds(&mut ctx, 1), Err(ProgramError::UninitializedAccount));
    assert_eq!(ctx.config, Account::vacant(500));
}

#[test]
fn topup_then_withdraw_returns_the_price_to_the_owner() {
    let mut pay = counter(1_000_000, 0, 100);
    assert_eq!(topup(&mut pay, 10), Ok(()));
    let mut take = Withdraw {
        owner: Signer { key: key(77), lamports: 0 },
        config: pay.config.clone(),
    };
    assert_eq!(withdraw(&mut take, 1_000_000), Ok(()));
    assert_eq!(take.owner.lamports, 1_000_000);
    assert_eq!(take.config.lamports, 0);
    // The coins that were bought stay with the player.
    assert_eq!(pay.user_data.data.map(|user| user.balance), Some(110));
}

#[test]
fn topup_fits_unless_a_served_one_overflows() {
    assert!(counter(1_000_000, 50, 100).topup_fits(3));
    // Turned down for want of funds: nothing to write.
    assert!(counter(10, u64::MAX, u64::MAX).topup_fits(3));
    assert!(counter(u64::MAX, u64::MAX, u64::MAX).topup_fits(u64::MAX));
    // Served, but the custody would pass 64 bits.
    assert!(!counter(300_000, u64::MAX - 299_999, 0).topup_fits(3));
    assert!(counter(300_000, u64::MAX - 300_000, 0).topup_fits(3));
    // Served, but the balance would pass 64 bits.
    assert!(!counter(300_000, 0, u64::MAX - 2).topup_fits(3));
    assert!(counter(300_000, 0, u64::MAX - 3).topup_fits(3));
    let mut unregistered = counter(300_000, u64::MAX, 0);
    unregistered.user_data = Account::vacant(0);
    assert!(unregistered.topup_fits(3));
}

#[test]
fn withdraw_fits_unless_a_served_one_overflows() {
    assert!(vault(77, 1_000, 900_000).withdraw_fits(900_000));
    assert!(!vault(77, u64::MAX, 900_000).withdraw_fits(1));
    assert!(vault(77, u64::MAX, 900_000).withdraw_fits(0));
    assert!(vault(77, u64::MAX - 5, 900_000).withdraw_fits(5));
    // Turned down: a stranger, or more than the custody.
    assert!(vault(1, u64::MAX, 900_000).withdraw_fits(1));
    assert!(vault(77, u64::MAX, 900_000).withdraw_fits(900_001));
}
