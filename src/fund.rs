use crate::key::Key;
use vstd::prelude::*;

verus! {

/// How a fund accounts for deposits.
#[derive(Clone, Copy, Debug, PartialEq, Eq, Structural)]
pub enum FundType {
    /// Similar to a gofundme: deposits raise the balance only.
    FundMe,
    /// Deposits raise balance and shares one for one; a private raise keeps a whitelist.
    Raise { private: bool },
}

impl FundType {
    pub open spec fn is_raise_spec(self) -> bool {
        self is Raise
    }

    pub fn is_raise(&self) -> (r: bool)
        ensures
            r == self.is_raise_spec(),
    {
        match self {
            FundType::FundMe => false,
            FundType::Raise { .. } => true,
        }
    }

    pub fn is_private_raise(&self) -> (r: bool)
        ensures
            r == (*self == FundType::Raise { private: true }),
    {
        match self {
            FundType::FundMe => false,
            FundType::Raise { private } => *private,
        }
    }
}

impl Default for FundType {
    fn default() -> (r: FundType)
        ensures
            r == FundType::FundMe,
    {
        FundType::FundMe
    }
}

/// One payback round: the total paid back and the amount per share.
#[derive(Clone, Copy, Debug, PartialEq, Eq, Structural)]
pub struct Payback {
    pub total: u64,
    pub per_share: u64,
}

impl Payback {
    pub fn new(total: u64, per_share: u64) -> (r: Payback)
        ensures
            r == (Payback { total, per_share }),
    {
        Payback { total, per_share }
    }

    pub fn add_total(&mut self, amount: u64)
        requires
            old(self).total + amount <= u64::MAX,
        ensures
            final(self).total == old(self).total + amount,
            final(self).per_share == old(self).per_share,
    {
        self.total = self.total + amount;
    }

    pub fn add_payback_per_share(&mut self, amount: u64)
        requires
            old(self).per_share + amount <= u64::MAX,
        ensures
            final(self).per_share == old(self).per_share + amount,
            final(self).total == old(self).total,
    {
        self.per_share = self.per_share + amount;
    }
}

/// The persisted state of one fund. The owner may withdraw all or some of it.
#[derive(Debug)]
pub struct Fund {
    /// Set by the one successful initialization.
    pub initialized: bool,
    /// Whether deposits and withdrawals are permitted.
    pub open: bool,
    pub fund_type: FundType,
    /// Holds the ultimate withdrawal rights.
    pub owner: Key,
    /// The operating signer.
    pub authority: Key,
    /// Configured cap, stored but not enforced on deposits.
    pub max_balance: u64,
    /// Amount currently held in the vault.
    pub balance: u64,
    /// Seed byte from which the vault authority is derived.
    pub nonce: u8,
    pub mint: Key,
    /// The token account holding the pooled tokens.
    pub vault: Key,
    /// Grows with deposits into a raise; never shrinks on withdrawal.
    pub shares: u64,
    pub nft_account: Key,
    pub nft_mint: Key,
    /// The allow-list account of a private raise.
    pub whitelist: Key,
    /// Distribution history, appended one round at a time.
    pub paybacks: Vec<Payback>,
    /// Number of completed payback rounds.
    pub round: u32,
}

/// The mathematical model of a `Fund`.
pub ghost struct FundModel {
    pub initialized: bool,
    pub open: bool,
    pub fund_type: FundType,
    pub owner: Seq<u8>,
    pub authority: Seq<u8>,
    pub max_balance: u64,
    pub balance: u64,
    pub nonce: u8,
    pub mint: Seq<u8>,
    pub vault: Seq<u8>,
    pub shares: u64,
    pub nft_account: Seq<u8>,
    pub nft_mint: Seq<u8>,
    pub whitelist: Seq<u8>,
    pub paybacks: Seq<Payback>,
    pub round: u32,
}

impl View for Fund {
    type V = FundModel;

    open spec fn view(&self) -> FundModel {
        FundModel {
            initialized: self.initialized,
            open: self.open,
            fund_type: self.fund_type,
            owner: self.owner@,
            authority: self.authority@,
            max_balance: self.max_balance,
            balance: self.balance,
            nonce: self.nonce,
            mint: self.mint@,
            vault: self.vault@,
            shares: self.shares,
            nft_account: self.nft_account@,
            nft_mint: self.nft_mint@,
            whitelist: self.whitelist@,
            paybacks: self.paybacks@,
            round: self.round,
        }
    }
}

impl FundModel {
    /// Every payback round is recorded exactly once.
    pub open spec fn wf(self) -> bool {
        self.round as nat == self.paybacks.len()
    }

    /// A deposit credits the balance, and the shares of a raise.
    pub open spec fn deposited(self, amount: u64) -> FundModel {
        FundModel {
            balance: (self.balance + amount) as u64,
            shares: if self.fund_type is Raise { (self.shares + amount) as u64 } else { self.shares },
            ..self
        }
    }

    /// Whether `deposited(amount)` fits in the record's integers.
    pub open spec fn can_deposit(self, amount: u64) -> bool {
        self.balance + amount <= u64::MAX
            && (self.fund_type is Raise ==> self.shares + amount <= u64::MAX)
    }

    /// A deduction on an empty balance leaves it empty.
    pub open spec fn deducted(self, amount: u64) -> FundModel {
        if self.balance > 0 {
            FundModel { balance: (self.balance - amount) as u64, ..self }
        } else {
            self
        }
    }

    pub open spec fn closed(self) -> FundModel {
        FundModel { open: false, ..self }
    }

    pub open spec fn with_payback(self, total: u64, per_share: u64) -> FundModel {
        FundModel {
            paybacks: self.paybacks.push(Payback { total, per_share }),
            round: (self.round + 1) as u32,
            ..self
        }
    }
}

impl Fund {
    pub fn deduct(&mut self, amount: u64)
        requires
            old(self).balance == 0 || amount <= old(self).balance,
        ensures
            final(self)@ == old(self)@.deducted(amount),
    {
        if self.balance > 0 {
            self.balance = self.balance - amount;
        }
    }

    /// Adds the deposited amount to the balance, and to the shares of a raise.
    pub fn add(&mut self, amount: u64)
        requires
            old(self)@.can_deposit(amount),
        ensures
            final(self)@ == old(self)@.deposited(amount),
    {
        self.balance = self.balance + amount;
        if self.fund_type.is_raise() {
            self.shares = self.shares + amount;
        }
    }

    /// Called when the owner starts the withdrawal process.
    pub fn close_fund(&mut self)
        ensures
            final(self)@ == old(self)@.closed(),
    {
        if self.open {
            self.open = false;
        }
    }

    pub fn add_new_payback(&mut self, total: u64, per_share: u64)
        requires
            old(self).round < u32::MAX,
        ensures
            final(self)@ == old(self)@.with_payback(total, per_share),
    {
        let pb = Payback::new(total, per_share);
        self.paybacks.push(pb);
        self.round = self.round + 1;
    }
}

impl Default for Fund {
    fn default() -> (r: Fund)
        ensures
            !r.initialized,
            !r.open,
            r.fund_type == FundType::FundMe,
            r.max_balance == 0,
            r.balance == 0,
            r.nonce == 0,
            r.shares == 0,
            r.paybacks@.len() == 0,
            r.round == 0,
    {
        let zero = Key::new([0u8; 32]);
        Fund {
            initialized: false,
            open: false,
            fund_type: FundType::FundMe,
            owner: zero,
            authority: zero,
            max_balance: 0,
            balance: 0,
            nonce: 0,
            mint: zero,
            vault: zero,
            shares: 0,
            nft_account: zero,
            nft_mint: zero,
            whitelist: zero,
            paybacks: Vec::new(),
            round: 0,
        }
    }
}

/// A deposit of `amount` raises the balance by exactly `amount`; it raises the
/// shares by the same amount on a raise of either visibility, and leaves them
/// alone on a FundMe fund.
pub proof fn lemma_deposit_credits(m: FundModel, amount: u64)
    requires
        m.can_deposit(amount),
    ensures
        m.deposited(amount).balance == m.balance + amount,
        m.fund_type == FundType::FundMe ==> m.deposited(amount).shares == m.shares,
        m.fund_type is Raise ==> m.deposited(amount).shares == m.shares + amount,
        m.deposited(amount).wf() == m.wf(),
{
}

/// Deducting any amount from an empty balance leaves it empty.
pub proof fn lemma_deduct_empty(m: FundModel, amount: u64)
    requires
        m.balance == 0,
    ensures
        m.deducted(amount).balance == 0,
        m.deducted(amount) == m,
{
}

/// Each payback round adds one to `round` and exactly one entry, the new one,
/// and keeps `round` equal to the number of entries.
pub proof fn lemma_payback_round(m: FundModel, total: u64, per_share: u64)
    requires
        m.wf(),
        m.round < u32::MAX,
    ensures
        m.with_payback(total, per_share).round == m.round + 1,
        m.with_payback(total, per_share).paybacks.len() == m.paybacks.len() + 1,
        m.with_payback(total, per_share).paybacks.last() == (Payback { total, per_share }),
        m.with_payback(total, per_share).paybacks.drop_last() == m.paybacks,
        m.with_payback(total, per_share).wf(),
{
    assert(m.with_payback(total, per_share).paybacks.drop_last() =~= m.paybacks);
}

/// Closing is idempotent: a second close leaves the fund closed and unchanged.
pub proof fn lemma_close_idempotent(m: FundModel)
    ensures
        !m.closed().open,
        m.closed().closed() == m.closed(),
{
}

} // verus!
