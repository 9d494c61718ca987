use crate::error::FundErrorCode;
use crate::fund::{Fund, FundModel, FundType};
use crate::key::Key;
use crate::vault::{vault_authority_of, TokenVault};
use vstd::prelude::*;

verus! {

/// The nonce from which a new fund's vault authority is derived.
pub const VAULT_NONCE: u8 = 0;

/// A token mint as read from its account.
#[derive(Clone, Copy, Debug)]
pub struct MintInfo {
    pub key: Key,
    pub mint_authority: Option<Key>,
}

/// What the Initialize instruction reads from its accounts, in plain values.
#[derive(Clone, Copy, Debug)]
pub struct InitializeAccounts {
    pub program_id: Key,
    pub fund_key: Key,
    /// The program that owns the fund's account.
    pub fund_account_owner: Key,
    /// The rent oracle's answer for the fund account's lamports and size.
    pub fund_rent_exempt: bool,
    pub vault_key: Key,
    /// The custody authority recorded in the vault token account.
    pub vault_owner: Key,
    pub mint_key: Key,
    /// Whether the mint account holds an initialized token mint.
    pub mint_valid: bool,
    pub whitelist: Option<Key>,
    pub nft_account: Option<Key>,
    pub nft_mint: Option<MintInfo>,
}

pub open spec fn key_result_view(r: Result<Key, FundErrorCode>) -> Result<Seq<u8>, FundErrorCode> {
    match r {
        Ok(k) => Ok(k@),
        Err(e) => Err(e),
    }
}

pub open spec fn mint_authority_is(m: MintInfo, authority: Seq<u8>) -> bool {
    match m.mint_authority {
        Some(k) => k@ == authority,
        None => false,
    }
}

/// The first failed precondition of Initialize, given the derived vault authority.
pub open spec fn initialize_error(
    f: FundModel,
    a: InitializeAccounts,
    fund_type: FundType,
    vault_authority: Result<Seq<u8>, FundErrorCode>,
) -> Option<FundErrorCode> {
    if a.fund_account_owner@ != a.program_id@ {
        Some(FundErrorCode::NotOwnedByProgram)
    } else if !a.fund_rent_exempt {
        Some(FundErrorCode::NotRentExempt)
    } else if f.initialized {
        Some(FundErrorCode::AlreadyInitialized)
    } else {
        match vault_authority {
            Err(e) => Some(e),
            Ok(auth) => if a.vault_owner@ != auth {
                Some(FundErrorCode::InvalidVault)
            } else if fund_type is Raise && a.nft_mint is None {
                Some(FundErrorCode::MissingAccount)
            } else if fund_type is Raise && !mint_authority_is(a.nft_mint.unwrap(), auth) {
                Some(FundErrorCode::InvalidMintAuthority)
            } else if !a.mint_valid {
                Some(FundErrorCode::InvalidMint)
            } else if fund_type is Raise && a.nft_account is None {
                Some(FundErrorCode::MissingAccount)
            } else if fund_type == (FundType::Raise { private: true }) && a.whitelist is None {
                Some(FundErrorCode::MissingAccount)
            } else {
                None
            },
        }
    }
}

/// The accounts that a fund of this type records are all present.
pub open spec fn accounts_present(a: InitializeAccounts, fund_type: FundType) -> bool {
    &&& fund_type is Raise ==> a.nft_mint is Some && a.nft_account is Some
    &&& fund_type == (FundType::Raise { private: true }) ==> a.whitelist is Some
}

/// The record after a successful Initialize.
pub open spec fn initialized(
    f: FundModel,
    a: InitializeAccounts,
    owner: Seq<u8>,
    authority: Seq<u8>,
    max_balance: u64,
    fund_type: FundType,
) -> FundModel {
    let base = FundModel {
        initialized: true,
        open: true,
        owner,
        authority,
        vault: a.vault_key@,
        mint: a.mint_key@,
        max_balance,
        balance: 0,
        fund_type,
        nonce: VAULT_NONCE,
        ..f
    };
    let raised = if fund_type is Raise {
        FundModel {
            nft_mint: a.nft_mint.unwrap().key@,
            nft_account: a.nft_account.unwrap()@,
            round: 0,
            paybacks: Seq::empty(),
            ..base
        }
    } else {
        base
    };
    if fund_type == (FundType::Raise { private: true }) {
        FundModel { whitelist: a.whitelist.unwrap()@, ..raised }
    } else {
        raised
    }
}

fn same_opt(a: &Option<Key>, b: &Key) -> (r: bool)
    ensures
        r == match a {
            Some(k) => k@ == b@,
            None => false,
        },
{
    match a {
        Some(k) => k.same(b),
        None => false,
    }
}

/// Checks the preconditions of Initialize against an already derived vault authority.
pub fn check_initialize(
    fund: &Fund,
    accounts: &InitializeAccounts,
    fund_type: FundType,
    vault_authority: Result<Key, FundErrorCode>,
) -> (r: Result<(), FundErrorCode>)
    ensures
        r == match initialize_error(fund@, *accounts, fund_type, key_result_view(vault_authority)) {
            Some(e) => Err::<(), FundErrorCode>(e),
            None => Ok(()),
        },
{
    if !accounts.fund_account_owner.same(&accounts.program_id) {
        return Err(FundErrorCode::NotOwnedByProgram);
    }
    if !accounts.fund_rent_exempt {
        return Err(FundErrorCode::NotRentExempt);
    }
    if fund.initialized {
        return Err(FundErrorCode::AlreadyInitialized);
    }
    let auth = match vault_authority {
        Err(e) => return Err(e),
        Ok(k) => k,
    };
    if !accounts.vault_owner.same(&auth) {
        return Err(FundErrorCode::InvalidVault);
    }
    let raise = fund_type.is_raise();
    if raise {
        match &accounts.nft_mint {
            None => return Err(FundErrorCode::MissingAccount),
            Some(m) => {
                if !same_opt(&m.mint_authority, &auth) {
                    return Err(FundErrorCode::InvalidMintAuthority);
                }
            },
        }
    }
    if !accounts.mint_valid {
        return Err(FundErrorCode::InvalidMint);
    }
    if raise && accounts.nft_account.is_none() {
        return Err(FundErrorCode::MissingAccount);
    }
    if fund_type.is_private_raise() && accounts.whitelist.is_none() {
        return Err(FundErrorCode::MissingAccount);
    }
    Ok(())
}

/// Validates Initialize, deriving the vault authority from the fund's address.
pub fn access_control(fund: &Fund, accounts: &InitializeAccounts, fund_type: FundType) -> (r: Result<(), FundErrorCode>)
    ensures
        r == match initialize_error(
            fund@,
            *accounts,
            fund_type,
            vault_authority_of(accounts.fund_key@, VAULT_NONCE, accounts.program_id@),
        ) {
            Some(e) => Err::<(), FundErrorCode>(e),
            None => Ok(()),
        },
{
    let auth = TokenVault::derive_authority(&accounts.fund_key, VAULT_NONCE, &accounts.program_id);
    check_initialize(fund, accounts, fund_type, auth)
}

/// Writes the one-time setup of a fund into its record.
pub fn state_transition(
    fund: &mut Fund,
    accounts: &InitializeAccounts,
    owner: Key,
    authority: Key,
    max_balance: u64,
    fund_type: FundType,
)
    requires
        accounts_present(*accounts, fund_type),
    ensures
        final(fund)@ == initialized(old(fund)@, *accounts, owner@, authority@, max_balance, fund_type),
{
    fund.initialized = true;
    fund.open = true;
    fund.owner = owner;
    fund.authority = authority;
    fund.vault = accounts.vault_key;
    fund.mint = accounts.mint_key;
    fund.max_balance = max_balance;
    fund.balance = 0;
    fund.fund_type = fund_type;
    fund.nonce = VAULT_NONCE;
    if fund_type.is_raise() {
        fund.nft_mint = accounts.nft_mint.unwrap().key;
        fund.nft_account = accounts.nft_account.unwrap();
        fund.round = 0;
        fund.paybacks = Vec::new();
    }
    if fund_type.is_private_raise() {
        fund.whitelist = accounts.whitelist.unwrap();
    }
    proof {
        let m = initialized(old(fund)@, *accounts, owner@, authority@, max_balance, fund_type);
        assert(fund.paybacks@ =~= m.paybacks);
    }
}

/// Initializes a fund: validates, then writes the record; nothing is written on failure.
pub fn handler(
    fund: &mut Fund,
    accounts: &InitializeAccounts,
    owner: Key,
    authority: Key,
    max_balance: u64,
    fund_type: FundType,
) -> (r: Result<(), FundErrorCode>)
    ensures
        match initialize_error(
            old(fund)@,
            *accounts,
            fund_type,
            vault_authority_of(accounts.fund_key@, VAULT_NONCE, accounts.program_id@),
        ) {
            Some(e) => r == Err::<(), FundErrorCode>(e) && final(fund)@ == old(fund)@,
            None => r == Ok::<(), FundErrorCode>(())
                && final(fund)@ == initialized(old(fund)@, *accounts, owner@, authority@, max_balance, fund_type),
        },
{
    match access_control(fund, accounts, fund_type) {
        Err(e) => Err(e),
        Ok(()) => {
            state_transition(fund, accounts, owner, authority, max_balance, fund_type);
            Ok(())
        },
    }
}

/// A record that one Initialize has set up is refused by every later one, and
/// with `AlreadyInitialized` wherever the account checks before it pass.
pub proof fn lemma_initialize_once(
    f: FundModel,
    a: InitializeAccounts,
    owner: Seq<u8>,
    authority: Seq<u8>,
    max_balance: u64,
    fund_type: FundType,
    vault_authority: Result<Seq<u8>, FundErrorCode>,
    a2: InitializeAccounts,
    fund_type2: FundType,
    vault_authority2: Result<Seq<u8>, FundErrorCode>,
)
    requires
        initialize_error(f, a, fund_type, vault_authority) is None,
    ensures
        initialize_error(initialized(f, a, owner, authority, max_balance, fund_type), a2, fund_type2, vault_authority2) is Some,
        a2.fund_account_owner@ == a2.program_id@ && a2.fund_rent_exempt ==> initialize_error(
            initialized(f, a, owner, authority, max_balance, fund_type),
            a2,
            fund_type2,
            vault_authority2,
        ) == Some(FundErrorCode::AlreadyInitialized),
{
}

} // verus!
