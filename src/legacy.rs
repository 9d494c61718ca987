//! The earlier record schema, without payback, whitelist or private raises, and
//! its migration into the current one.
use crate::fund::FundModel;
use crate::key::Key;
use vstd::prelude::*;

verus! {

#[derive(Clone, Copy, Debug, PartialEq, Eq, Structural)]
pub enum FundType {
    /// Similar to a gofundme.
    FundMe,
    PublicRaise,
}

/// A fund record in the earlier schema.
#[derive(Clone, Copy, Debug)]
pub struct Fund {
    pub initialized: bool,
    pub open: bool,
    pub fund_type: FundType,
    pub owner: Key,
    pub authority: Key,
    pub max_balance: u64,
    pub balance: u64,
    pub nonce: u8,
    pub mint: Key,
    pub vault: Key,
    pub shares: u64,
    pub nft_account: Key,
    pub nft_mint: Key,
}

pub open spec fn current_type(t: FundType) -> crate::fund::FundType {
    match t {
        FundType::FundMe => crate::fund::FundType::FundMe,
        FundType::PublicRaise => crate::fund::FundType::Raise { private: false },
    }
}

impl Fund {
    pub fn deduct(&mut self, amount: u64)
        requires
            old(self).balance == 0 || amount <= old(self).balance,
        ensures
            *final(self) == (if old(self).balance > 0 {
                Fund { balance: (old(self).balance - amount) as u64, ..*old(self) }
            } else {
                *old(self)
            }),
    {
        if self.balance > 0 {
            self.balance = self.balance - amount;
        }
    }

    /// Adds the deposited amount to the balance, and to the shares of a raise.
    pub fn add(&mut self, amount: u64)
        requires
            old(self).balance + amount <= u64::MAX,
            old(self).fund_type == FundType::PublicRaise ==> old(self).shares + amount <= u64::MAX,
        ensures
            *final(self) == (Fund {
                balance: (old(self).balance + amount) as u64,
                shares: if old(self).fund_type == FundType::PublicRaise {
                    (old(self).shares + amount) as u64
                } else {
                    old(self).shares
                },
                ..*old(self)
            }),
    {
        self.balance = self.balance + amount;
        if self.fund_type == FundType::PublicRaise {
            self.shares = self.shares + amount;
        }
    }

    /// Called when the owner starts the withdrawal process.
    pub fn close_fund(&mut self)
        ensures
            *final(self) == (Fund { open: false, ..*old(self) }),
    {
        if self.open {
            self.open = false;
        }
    }

    /// The same fund in the current schema, with no payback rounds and no whitelist.
    pub fn migrate(&self) -> (r: crate::fund::Fund)
        ensures
            r@ == (FundModel {
                initialized: self.initialized,
                open: self.open,
                fund_type: current_type(self.fund_type),
                owner: self.owner@,
                authority: self.authority@,
                max_balance: self.max_balance,
                balance: self.balance,
                nonce: self.nonce,
                mint: self.mint@,
                vault: self.vault@,
                shares: self.shares,
                nft_account: self.nft_account@,
                nft_mint: self.nft_mint@,
                whitelist: Seq::new(32, |i: int| 0u8),
                paybacks: Seq::empty(),
                round: 0,
            }),
            r@.wf(),
    {
        let fund_type = match self.fund_type {
            FundType::FundMe => crate::fund::FundType::FundMe,
            FundType::PublicRaise => crate::fund::FundType::Raise { private: false },
        };
        let zero = Key::new([0u8; 32]);
        let r = crate::fund::Fund {
            initialized: self.initialized,
            open: self.open,
            fund_type,
            owner: self.owner,
            authority: self.authority,
            max_balance: self.max_balance,
            balance: self.balance,
            nonce: self.nonce,
            mint: self.mint,
            vault: self.vault,
            shares: self.shares,
            nft_account: self.nft_account,
            nft_mint: self.nft_mint,
            whitelist: zero,
            paybacks: Vec::new(),
            round: 0,
        };
        assert(zero@ =~= Seq::new(32, |i: int| 0u8));
        assert(r@.paybacks =~= Seq::<crate::fund::Payback>::empty());
        r
    }
}

} // verus!
