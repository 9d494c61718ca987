//! The instructions that the fund's own operators sign: Close, Withdraw and
//! RegisterPayback.
use crate::deposit::Transfer;
use crate::error::FundErrorCode;
use crate::fund::{Fund, FundModel};
use crate::initialize::key_result_view;
use crate::key::Key;
use crate::vault::{vault_authority_of, TokenVault};
use vstd::prelude::*;

verus! {

/// What an operator-signed instruction reads from its accounts, in plain values.
#[derive(Clone, Copy, Debug)]
pub struct OperatorAccounts {
    pub program_id: Key,
    pub fund_key: Key,
    /// The program that owns the fund's account.
    pub fund_account_owner: Key,
    /// The identity that claims to act for the fund.
    pub signer: Key,
    /// Whether `signer` signed the request.
    pub is_signer: bool,
}

/// Who must sign an operator instruction.
#[derive(Clone, Copy, Debug, PartialEq, Eq, Structural)]
pub enum Role {
    Owner,
    Authority,
}

pub open spec fn role_key(f: FundModel, role: Role) -> Seq<u8> {
    match role {
        Role::Owner => f.owner,
        Role::Authority => f.authority,
    }
}

/// The first failed check common to every operator instruction.
pub open spec fn operator_error(f: FundModel, a: OperatorAccounts, role: Role) -> Option<FundErrorCode> {
    if !a.is_signer || a.signer@ != role_key(f, role) {
        Some(FundErrorCode::Unauthorized)
    } else if a.fund_account_owner@ != a.program_id@ {
        Some(FundErrorCode::NotOwnedByProgram)
    } else if !f.initialized {
        Some(FundErrorCode::NotInitialized)
    } else {
        None
    }
}

pub fn check_operator(fund: &Fund, accounts: &OperatorAccounts, role: Role) -> (r: Result<(), FundErrorCode>)
    ensures
        r == match operator_error(fund@, *accounts, role) {
            Some(e) => Err::<(), FundErrorCode>(e),
            None => Ok(()),
        },
{
    let expected = match role {
        Role::Owner => &fund.owner,
        Role::Authority => &fund.authority,
    };
    if !accounts.is_signer || !accounts.signer.same(expected) {
        return Err(FundErrorCode::Unauthorized);
    }
    if !accounts.fund_account_owner.same(&accounts.program_id) {
        return Err(FundErrorCode::NotOwnedByProgram);
    }
    if !fund.initialized {
        return Err(FundErrorCode::NotInitialized);
    }
    Ok(())
}

/// Closes the fund on the owner's signature; closing a closed fund changes nothing
/// and is no error.
pub fn close(fund: &mut Fund, accounts: &OperatorAccounts) -> (r: Result<(), FundErrorCode>)
    ensures
        match operator_error(old(fund)@, *accounts, Role::Owner) {
            Some(e) => r == Err::<(), FundErrorCode>(e) && final(fund)@ == old(fund)@,
            None => r == Ok::<(), FundErrorCode>(()) && final(fund)@ == old(fund)@.closed(),
        },
{
    check_operator(fund, accounts, Role::Owner)?;
    fund.close_fund();
    Ok(())
}

/// Close is idempotent: where the owner's first close passes, a second one on the
/// closed record passes too, and both leave the fund closed and otherwise as it was.
pub proof fn lemma_close_twice(f: FundModel, a: OperatorAccounts)
    requires
        operator_error(f, a, Role::Owner) is None,
    ensures
        operator_error(f.closed(), a, Role::Owner) is None,
        !f.closed().open,
        f.closed().closed() == f.closed(),
{
}

/// The first failed check of RegisterPayback.
pub open spec fn payback_error(f: FundModel, a: OperatorAccounts) -> Option<FundErrorCode> {
    match operator_error(f, a, Role::Authority) {
        Some(e) => Some(e),
        None => if !f.open {
            Some(FundErrorCode::FundClosed)
        } else if f.round == u32::MAX {
            Some(FundErrorCode::RoundOverflow)
        } else {
            None
        },
    }
}

/// Records a payback round on the authority's signature.
pub fn register_payback(
    fund: &mut Fund,
    accounts: &OperatorAccounts,
    amount: u64,
    per_share: u64,
) -> (r: Result<(), FundErrorCode>)
    ensures
        match payback_error(old(fund)@, *accounts) {
            Some(e) => r == Err::<(), FundErrorCode>(e) && final(fund)@ == old(fund)@,
            None => r == Ok::<(), FundErrorCode>(()) && final(fund)@ == old(fund)@.with_payback(amount, per_share),
        },
{
    check_operator(fund, accounts, Role::Authority)?;
    if !fund.open {
        return Err(FundErrorCode::FundClosed);
    }
    if fund.round == u32::MAX {
        return Err(FundErrorCode::RoundOverflow);
    }
    fund.add_new_payback(amount, per_share);
    Ok(())
}

/// The accounts of Withdraw besides the operator's.
#[derive(Clone, Copy, Debug)]
pub struct WithdrawAccounts {
    pub vault_key: Key,
    /// The custody authority recorded in the vault token account.
    pub vault_owner: Key,
    /// The vault authority account passed with the request.
    pub vault_authority: Key,
    /// The owner's token account that receives the tokens.
    pub destination: Key,
}

/// The first failed check of Withdraw, given the derived vault authority.
pub open spec fn withdraw_error(
    f: FundModel,
    a: OperatorAccounts,
    w: WithdrawAccounts,
    amount: u64,
    vault_authority: Result<Seq<u8>, FundErrorCode>,
) -> Option<FundErrorCode> {
    match operator_error(f, a, Role::Owner) {
        Some(e) => Some(e),
        None => if !f.open {
            Some(FundErrorCode::FundClosed)
        } else {
            match vault_authority {
                Err(e) => Some(e),
                Ok(auth) => if w.vault_owner@ != auth || w.vault_authority@ != auth {
                    Some(FundErrorCode::InvalidVault)
                } else if f.balance > 0 && amount > f.balance {
                    Some(FundErrorCode::InsufficientBalance)
                } else {
                    None
                },
            }
        },
    }
}

/// The transfer that moves a withdrawal out of the vault under the derived authority.
pub open spec fn withdraw_transfer(w: WithdrawAccounts, amount: u64, t: Transfer) -> bool {
    &&& t.source@ == w.vault_key@
    &&& t.destination@ == w.destination@
    &&& t.authority@ == w.vault_authority@
    &&& t.amount == amount
    &&& t.program_signed
}

/// Checks Withdraw against an already derived vault authority.
pub fn check_withdraw(
    fund: &Fund,
    accounts: &OperatorAccounts,
    w: &WithdrawAccounts,
    amount: u64,
    vault_authority: Result<Key, FundErrorCode>,
) -> (r: Result<(), FundErrorCode>)
    ensures
        r == match withdraw_error(fund@, *accounts, *w, amount, key_result_view(vault_authority)) {
            Some(e) => Err::<(), FundErrorCode>(e),
            None => Ok(()),
        },
{
    check_operator(fund, accounts, Role::Owner)?;
    if !fund.open {
        return Err(FundErrorCode::FundClosed);
    }
    let auth = match vault_authority {
        Err(e) => return Err(e),
        Ok(k) => k,
    };
    if !w.vault_owner.same(&auth) || !w.vault_authority.same(&auth) {
        return Err(FundErrorCode::InvalidVault);
    }
    if fund.balance > 0 && amount > fund.balance {
        return Err(FundErrorCode::InsufficientBalance);
    }
    Ok(())
}

/// Withdraws `amount` on the owner's signature: deducts it from the balance and
/// returns the outbound transfer, which the fund's derived authority signs.
pub fn withdraw(
    fund: &mut Fund,
    accounts: &OperatorAccounts,
    w: &WithdrawAccounts,
    amount: u64,
) -> (r: Result<Transfer, FundErrorCode>)
    ensures
        match withdraw_error(
            old(fund)@,
            *accounts,
            *w,
            amount,
            vault_authority_of(accounts.fund_key@, old(fund).nonce, accounts.program_id@),
        ) {
            Some(e) => r == Err::<Transfer, FundErrorCode>(e) && final(fund)@ == old(fund)@,
            None => r is Ok && withdraw_transfer(*w, amount, r->Ok_0)
                && final(fund)@ == old(fund)@.deducted(amount),
        },
{
    let auth = TokenVault::derive_authority(&accounts.fund_key, fund.nonce, &accounts.program_id);
    check_withdraw(fund, accounts, w, amount, auth)?;
    fund.deduct(amount);
    Ok(Transfer {
        source: w.vault_key,
        destination: w.destination,
        authority: w.vault_authority,
        amount,
        program_signed: true,
    })
}

} // verus!
