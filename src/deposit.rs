use crate::error::FundErrorCode;
use crate::fund::{Fund, FundModel};
use crate::initialize::key_result_view;
use crate::key::Key;
use crate::vault::{vault_authority_of, TokenVault};
use vstd::prelude::*;

verus! {

/// What the Deposit instruction reads from its accounts, in plain values.
#[derive(Clone, Copy, Debug)]
pub struct DepositAccounts {
    pub program_id: Key,
    pub fund_key: Key,
    /// The program that owns the fund's account.
    pub fund_account_owner: Key,
    /// The depositor's token account.
    pub depositor: Key,
    pub depositor_authority: Key,
    /// Whether the depositor's authority signed the request.
    pub depositor_authority_is_signer: bool,
    pub vault_key: Key,
    /// The custody authority recorded in the vault token account.
    pub vault_owner: Key,
    /// The vault authority account passed with the request.
    pub vault_authority: Key,
}

/// A token transfer for the host to carry out, authorized by `authority`:
/// its own signature, or, where `program_signed`, the fund's derivation seeds.
#[derive(Clone, Copy, Debug)]
pub struct Transfer {
    pub source: Key,
    pub destination: Key,
    pub authority: Key,
    pub amount: u64,
    pub program_signed: bool,
}

/// The first failed precondition of Deposit, given the derived vault authority.
pub open spec fn deposit_error(
    f: FundModel,
    a: DepositAccounts,
    amount: u64,
    vault_authority: Result<Seq<u8>, FundErrorCode>,
) -> Option<FundErrorCode> {
    if !a.depositor_authority_is_signer {
        Some(FundErrorCode::Unauthorized)
    } else if a.fund_account_owner@ != a.program_id@ {
        Some(FundErrorCode::NotOwnedByProgram)
    } else if !f.initialized {
        Some(FundErrorCode::NotInitialized)
    } else if !f.open {
        Some(FundErrorCode::FundClosed)
    } else {
        match vault_authority {
            Err(e) => Some(e),
            Ok(auth) => if a.vault_owner@ != auth || a.vault_authority@ != auth {
                Some(FundErrorCode::InvalidVault)
            } else if !f.can_deposit(amount) {
                Some(FundErrorCode::BalanceOverflow)
            } else {
                None
            },
        }
    }
}

/// The transfer that moves a deposit from the depositor into the vault.
pub open spec fn deposit_transfer(a: DepositAccounts, amount: u64, t: Transfer) -> bool {
    &&& t.source@ == a.depositor@
    &&& t.destination@ == a.vault_key@
    &&& t.authority@ == a.depositor_authority@
    &&& t.amount == amount
    &&& !t.program_signed
}

/// Checks the preconditions of Deposit against an already derived vault authority.
pub fn check_deposit(
    fund: &Fund,
    accounts: &DepositAccounts,
    amount: u64,
    vault_authority: Result<Key, FundErrorCode>,
) -> (r: Result<(), FundErrorCode>)
    ensures
        r == match deposit_error(fund@, *accounts, amount, key_result_view(vault_authority)) {
            Some(e) => Err::<(), FundErrorCode>(e),
            None => Ok(()),
        },
{
    if !accounts.depositor_authority_is_signer {
        return Err(FundErrorCode::Unauthorized);
    }
    if !accounts.fund_account_owner.same(&accounts.program_id) {
        return Err(FundErrorCode::NotOwnedByProgram);
    }
    if !fund.initialized {
        return Err(FundErrorCode::NotInitialized);
    }
    if !fund.open {
        return Err(FundErrorCode::FundClosed);
    }
    let auth = match vault_authority {
        Err(e) => return Err(e),
        Ok(k) => k,
    };
    if !accounts.vault_owner.same(&auth) || !accounts.vault_authority.same(&auth) {
        return Err(FundErrorCode::InvalidVault);
    }
    if fund.balance > u64::MAX - amount {
        return Err(FundErrorCode::BalanceOverflow);
    }
    if fund.fund_type.is_raise() && fund.shares > u64::MAX - amount {
        return Err(FundErrorCode::BalanceOverflow);
    }
    Ok(())
}

/// Validates Deposit, deriving the vault authority from the fund's recorded nonce.
pub fn access_control(fund: &Fund, accounts: &DepositAccounts, amount: u64) -> (r: Result<(), FundErrorCode>)
    ensures
        r == match deposit_error(
            fund@,
            *accounts,
            amount,
            vault_authority_of(accounts.fund_key@, fund.nonce, accounts.program_id@),
        ) {
            Some(e) => Err::<(), FundErrorCode>(e),
            None => Ok(()),
        },
{
    if !accounts.depositor_authority_is_signer {
        return Err(FundErrorCode::Unauthorized);
    }
    let auth = TokenVault::derive_authority(&accounts.fund_key, fund.nonce, &accounts.program_id);
    check_deposit(fund, accounts, amount, auth)
}

/// Credits the deposit to the record and names the transfer into the vault,
/// which the depositor's own signature authorizes.
pub fn state_transition(fund: &mut Fund, accounts: &DepositAccounts, amount: u64) -> (t: Transfer)
    requires
        old(fund)@.can_deposit(amount),
    ensures
        final(fund)@ == old(fund)@.deposited(amount),
        deposit_transfer(*accounts, amount, t),
{
    fund.add(amount);
    Transfer {
        source: accounts.depositor,
        destination: accounts.vault_key,
        authority: accounts.depositor_authority,
        amount,
        program_signed: false,
    }
}

/// Deposits `amount`: validates, then credits the record and returns the
/// transfer to perform; nothing is written on failure.
pub fn handler(fund: &mut Fund, accounts: &DepositAccounts, amount: u64) -> (r: Result<Transfer, FundErrorCode>)
    ensures
        match deposit_error(
            old(fund)@,
            *accounts,
            amount,
            vault_authority_of(accounts.fund_key@, old(fund).nonce, accounts.program_id@),
        ) {
            Some(e) => r == Err::<Transfer, FundErrorCode>(e) && final(fund)@ == old(fund)@,
            None => r is Ok && deposit_transfer(*accounts, amount, r->Ok_0)
                && final(fund)@ == old(fund)@.deposited(amount),
        },
{
    match access_control(fund, accounts, amount) {
        Err(e) => Err(e),
        Ok(()) => Ok(state_transition(fund, accounts, amount)),
    }
}

/// A deposit whose authority did not sign is refused as unauthorized, whatever
/// the amount, the record or the derivation.
pub proof fn lemma_unsigned_deposit_refused(
    f: FundModel,
    a: DepositAccounts,
    amount: u64,
    vault_authority: Result<Seq<u8>, FundErrorCode>,
)
    requires
        !a.depositor_authority_is_signer,
    ensures
        deposit_error(f, a, amount, vault_authority) == Some(FundErrorCode::Unauthorized),
{
}

} // verus!
