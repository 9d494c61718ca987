use fund::deposit::{self, DepositAccounts};
use fund::error::FundErrorCode;
use fund::fund::{Fund, FundType, Payback};
use fund::initialize::{self, InitializeAccounts, MintInfo, VAULT_NONCE};
use fund::key::Key;
use fund::legacy;
use fund::vault::TokenVault;

fn key(b: u8) -> Key {
    Key::new([b; 32])
}

/// A program id and fund address whose vault authority can be derived, with that authority.
fn derivable() -> (Key, Key, Key) {
    let program = key(200);
    for b in 1u8..100 {
        let fund_key = key(b);
        if let Ok(auth) = TokenVault::derive_authority(&fund_key, VAULT_NONCE, &program) {
            return (program, fund_key, auth);
        }
    }
    panic!("no derivable fund address");
}

fn init_accounts(fund_type: FundType) -> InitializeAccounts {
    let (program, fund_key, auth) = derivable();
    let raise = matches!(fund_type, FundType::Raise { .. });
    InitializeAccounts {
        program_id: program,
        fund_key,
        fund_account_owner: program,
        fund_rent_exempt: true,
        vault_key: key(150),
        vault_owner: auth,
        mint_key: key(151),
        mint_valid: true,
        whitelist: if fund_type == (FundType::Raise { private: true }) { Some(key(152)) } else { None },
        nft_account: if raise { Some(key(153)) } else { None },
        nft_mint: if raise { Some(MintInfo { key: key(154), mint_authority: Some(auth) }) } else { None },
    }
}

fn deposit_accounts(init: &InitializeAccounts, signer: bool) -> DepositAccounts {
    DepositAccounts {
        program_id: init.program_id,
        fund_key: init.fund_key,
        fund_account_owner: init.program_id,
        depositor: key(160),
        depositor_authority: key(161),
        depositor_authority_is_signer: signer,
        vault_key: init.vault_key,
        vault_owner: init.vault_owner,
        vault_authority: init.vault_owner,
    }
}

fn initialized_fund(fund_type: FundType, max_balance: u64) -> (Fund, InitializeAccounts) {
    let mut f = Fund::default();
    let a = init_accounts(fund_type);
    assert_eq!(initialize::handler(&mut f, &a, key(170), key(171), max_balance, fund_type), Ok(()));
    (f, a)
}

#[test]
fn scenario_fund_me_deposit() {
    let (mut f, a) = initialized_fund(FundType::FundMe, 1000);
    assert!(f.initialized && f.open);
    assert_eq!(f.max_balance, 1000);
    let t = deposit::handler(&mut f, &deposit_accounts(&a, true), 100).unwrap();
    assert_eq!(f.balance, 100);
    assert_eq!(f.shares, 0);
    assert_eq!(t.amount, 100);
    assert_eq!(t.source, key(160));
    assert_eq!(t.destination, a.vault_key);
    assert_eq!(t.authority, key(161));
}

#[test]
fn scenario_raise_deposit_and_payback() {
    let (mut f, a) = initialized_fund(FundType::Raise { private: false }, 1000);
    deposit::handler(&mut f, &deposit_accounts(&a, true), 100).unwrap();
    assert_eq!(f.balance, 100);
    assert_eq!(f.shares, 100);
    f.add_new_payback(50, 7);
    assert_eq!(f.round, 1);
    assert_eq!(f.paybacks, vec![Payback { total: 50, per_share: 7 }]);
}

#[test]
fn scenario_initialize_twice() {
    let (mut f, a) = initialized_fund(FundType::FundMe, 1000);
    let r = initialize::handler(&mut f, &a, key(1), key(2), 5, FundType::Raise { private: false });
    assert_eq!(r, Err(FundErrorCode::AlreadyInitialized));
    assert_eq!(f.owner, key(170));
    assert_eq!(f.authority, key(171));
    assert_eq!(f.max_balance, 1000);
    assert_eq!(f.fund_type, FundType::FundMe);
}

#[test]
fn scenario_unsigned_deposit() {
    let (mut f, a) = initialized_fund(FundType::Raise { private: true }, 1000);
    let r = deposit::handler(&mut f, &deposit_accounts(&a, false), 100);
    assert_eq!(r.unwrap_err(), FundErrorCode::Unauthorized);
    assert_eq!(f.balance, 0);
    assert_eq!(f.shares, 0);
}

#[test]
fn private_raise_records_whitelist_and_nft() {
    let (f, a) = initialized_fund(FundType::Raise { private: true }, 9);
    assert_eq!(f.whitelist, key(152));
    assert_eq!(f.nft_account, key(153));
    assert_eq!(f.nft_mint, key(154));
    assert_eq!(f.vault, a.vault_key);
    assert_eq!(f.mint, a.mint_key);
    assert_eq!(f.nonce, VAULT_NONCE);
    assert_eq!(f.round, 0);
}

#[test]
fn deposit_credits_shares_only_for_raise() {
    let (mut me, a) = initialized_fund(FundType::FundMe, 0);
    let (mut pr, b) = initialized_fund(FundType::Raise { private: true }, 0);
    deposit::handler(&mut me, &deposit_accounts(&a, true), 40).unwrap();
    deposit::handler(&mut me, &deposit_accounts(&a, true), 2).unwrap();
    deposit::handler(&mut pr, &deposit_accounts(&b, true), 40).unwrap();
    assert_eq!((me.balance, me.shares), (42, 0));
    assert_eq!((pr.balance, pr.shares), (40, 40));
}

#[test]
fn deposit_beyond_max_balance_is_not_refused() {
    let (mut f, a) = initialized_fund(FundType::FundMe, 10);
    deposit::handler(&mut f, &deposit_accounts(&a, true), 11).unwrap();
    assert_eq!(f.balance, 11);
}

#[test]
fn deposit_overflow_refused() {
    let (mut f, a) = initialized_fund(FundType::FundMe, 0);
    deposit::handler(&mut f, &deposit_accounts(&a, true), u64::MAX).unwrap();
    let r = deposit::handler(&mut f, &deposit_accounts(&a, true), 1);
    assert_eq!(r.unwrap_err(), FundErrorCode::BalanceOverflow);
    assert_eq!(f.balance, u64::MAX);
}

#[test]
fn deposit_into_closed_fund_refused() {
    let (mut f, a) = initialized_fund(FundType::FundMe, 0);
    f.close_fund();
    let r = deposit::handler(&mut f, &deposit_accounts(&a, true), 1);
    assert_eq!(r.unwrap_err(), FundErrorCode::FundClosed);
}

#[test]
fn deposit_into_uninitialized_fund_refused() {
    let a = init_accounts(FundType::FundMe);
    let mut f = Fund::default();
    let r = deposit::handler(&mut f, &deposit_accounts(&a, true), 1);
    assert_eq!(r.unwrap_err(), FundErrorCode::NotInitialized);
}

#[test]
fn deposit_wrong_program_or_vault_refused() {
    let (mut f, a) = initialized_fund(FundType::FundMe, 0);
    let mut d = deposit_accounts(&a, true);
    d.fund_account_owner = key(9);
    assert_eq!(deposit::handler(&mut f, &d, 1).unwrap_err(), FundErrorCode::NotOwnedByProgram);
    let mut d = deposit_accounts(&a, true);
    d.vault_authority = key(9);
    assert_eq!(deposit::handler(&mut f, &d, 1).unwrap_err(), FundErrorCode::InvalidVault);
    assert_eq!(f.balance, 0);
}

#[test]
fn initialize_errors() {
    let base = init_accounts(FundType::Raise { private: true });
    let ft = FundType::Raise { private: true };
    let run = |a: InitializeAccounts| {
        let mut f = Fund::default();
        let r = initialize::handler(&mut f, &a, key(1), key(2), 3, ft);
        assert!(!f.initialized);
        r
    };
    let mut a = base;
    a.fund_account_owner = key(3);
    assert_eq!(run(a), Err(FundErrorCode::NotOwnedByProgram));
    let mut a = base;
    a.fund_rent_exempt = false;
    assert_eq!(run(a), Err(FundErrorCode::NotRentExempt));
    let mut a = base;
    a.vault_owner = key(3);
    assert_eq!(run(a), Err(FundErrorCode::InvalidVault));
    let mut a = base;
    a.nft_mint = Some(MintInfo { key: key(154), mint_authority: None });
    assert_eq!(run(a), Err(FundErrorCode::InvalidMintAuthority));
    let mut a = base;
    a.nft_mint = None;
    assert_eq!(run(a), Err(FundErrorCode::MissingAccount));
    let mut a = base;
    a.mint_valid = false;
    assert_eq!(run(a), Err(FundErrorCode::InvalidMint));
    let mut a = base;
    a.whitelist = None;
    assert_eq!(run(a), Err(FundErrorCode::MissingAccount));
}

#[test]
fn initialize_invalid_nonce() {
    let program = key(200);
    for b in 1u8..100 {
        let fund_key = key(b);
        if TokenVault::derive_authority(&fund_key, VAULT_NONCE, &program).is_err() {
            let mut a = init_accounts(FundType::FundMe);
            a.fund_key = fund_key;
            let mut f = Fund::default();
            let r = initialize::handler(&mut f, &a, key(1), key(2), 3, FundType::FundMe);
            assert_eq!(r, Err(FundErrorCode::InvalidVaultNonce));
            return;
        }
    }
}

#[test]
fn derived_authority_depends_on_seeds() {
    let (program, fund_key, auth) = derivable();
    assert_ne!(auth, fund_key);
    assert_ne!(auth, program);
    assert_eq!(TokenVault::derive_authority(&fund_key, VAULT_NONCE, &program), Ok(auth));
    let other = TokenVault::derive_authority(&fund_key, 1, &program);
    assert_ne!(other, Ok(auth));
}

#[test]
fn signer_seeds_are_address_then_nonce() {
    let seeds = TokenVault::signer_seeds(&key(5), &7);
    assert_eq!(seeds, vec![vec![5u8; 32], vec![7u8]]);
}

#[test]
fn deduct_on_empty_balance_is_noop() {
    let mut f = Fund::default();
    f.deduct(500);
    assert_eq!(f.balance, 0);
    f.deduct(u64::MAX);
    assert_eq!(f.balance, 0);
}

#[test]
fn deduct_subtracts() {
    let mut f = Fund::default();
    f.add(30);
    f.deduct(12);
    assert_eq!(f.balance, 18);
    assert_eq!(f.shares, 0);
}

#[test]
fn payback_rounds_count_entries() {
    let mut f = Fund::default();
    for i in 0..5u64 {
        f.add_new_payback(i * 10, i);
        assert_eq!(f.round as usize, f.paybacks.len());
    }
    assert_eq!(f.round, 5);
    assert_eq!(f.paybacks[4], Payback::new(40, 4));
}

#[test]
fn close_twice_stays_closed() {
    let (mut f, _) = initialized_fund(FundType::FundMe, 0);
    f.close_fund();
    assert!(!f.open);
    f.close_fund();
    assert!(!f.open);
}

#[test]
fn payback_accumulators() {
    let mut p = Payback::new(1, 2);
    p.add_total(10);
    p.add_payback_per_share(5);
    assert_eq!(p, Payback { total: 11, per_share: 7 });
}

#[test]
fn fund_type_default_is_fund_me() {
    assert_eq!(FundType::default(), FundType::FundMe);
}

#[test]
fn legacy_record_migrates() {
    let mut old = legacy::Fund {
        initialized: true,
        open: true,
        fund_type: legacy::FundType::PublicRaise,
        owner: key(1),
        authority: key(2),
        max_balance: 100,
        balance: 0,
        nonce: 3,
        mint: key(4),
        vault: key(5),
        shares: 0,
        nft_account: key(6),
        nft_mint: key(7),
    };
    old.add(20);
    old.deduct(5);
    assert_eq!((old.balance, old.shares), (15, 20));
    old.close_fund();
    let f = old.migrate();
    assert_eq!(f.fund_type, FundType::Raise { private: false });
    assert_eq!((f.balance, f.shares, f.round), (15, 20, 0));
    assert!(!f.open && f.initialized);
    assert!(f.paybacks.is_empty());
    assert_eq!(f.nft_mint, key(7));
}
