use vstd::prelude::*;
use vstd::arithmetic::power::{lemma1_pow, pow};
use crate::constants::{MAX_CONTRIBUTION_PERCENTAGE, PERCENTAGE_SCALER, SECONDS_TO_DAYS};
use crate::errors::{is_runtime_fault, FundraiserError, ProgramFault};
use crate::state::{Contributor, Fundraiser};
use anchor_lang::solana_program::clock::Clock;
use anchor_lang::solana_program::sysvar::Sysvar;

verus! {

/// What the logic reads of a mint.
#[derive(Clone, Copy, Debug, PartialEq, Eq, Structural)]
pub struct Mint {
    pub decimals: u8,
}

/// What the logic reads of a token account.
#[derive(Clone, Copy, Debug, PartialEq, Eq, Structural)]
pub struct TokenAccount {
    pub amount: u64,
}

/// A token account that a handler's transfer runs between.
#[derive(Clone, Copy, Debug, PartialEq, Eq, Structural)]
pub enum TokenHolder {
    /// The contributor's associated token account.
    ContributorTokenAccount,
    /// The vault, the fundraiser's associated token account.
    Vault,
    /// The admin's associated token account.
    AdminTokenAccount,
}

/// A token transfer that a handler asks for: `amount` from `from` to `to`.
/// With `signer_bump`, the vault's authority, the fundraiser's program
/// address, signs with the seeds `fundraiser`, the admin's address and that
/// bump; without, the contributor signs.
#[derive(Clone, Copy, Debug, PartialEq, Eq, Structural)]
pub struct TokenTransfer {
    pub from: TokenHolder,
    pub to: TokenHolder,
    pub amount: u64,
    pub signer_bump: Option<u8>,
}

/// The transfer of a contribution into the vault, signed by the contributor.
pub open spec fn contribution_transfer(amount: u64) -> TokenTransfer {
    TokenTransfer {
        from: TokenHolder::ContributorTokenAccount,
        to: TokenHolder::Vault,
        amount,
        signer_bump: None,
    }
}

/// The transfer of the vault's balance to the admin, signed by the fundraiser.
pub open spec fn collection_transfer(fundraiser: Fundraiser, amount: u64) -> TokenTransfer {
    TokenTransfer {
        from: TokenHolder::Vault,
        to: TokenHolder::AdminTokenAccount,
        amount,
        signer_bump: Some(fundraiser.bump),
    }
}

/// The transfer of a refund back to the contributor, signed by the fundraiser.
pub open spec fn refund_transfer(fundraiser: Fundraiser, amount: u64) -> TokenTransfer {
    TokenTransfer {
        from: TokenHolder::Vault,
        to: TokenHolder::ContributorTokenAccount,
        amount,
        signer_bump: Some(fundraiser.bump),
    }
}

/// The bumps of the program addresses that `Init` creates.
#[derive(Clone, Copy, Debug, PartialEq, Eq, Structural)]
pub struct InitBumps {
    pub fundraiser: u8,
}

/// The accounts of `Init`: the admin's address, the mint's address, and the
/// fundraiser account that it fills in.
#[derive(Clone, Copy, Debug)]
pub struct Init {
    pub admin: [u8; 32],
    pub which_mint: [u8; 32],
    pub fundraiser: Fundraiser,
}

/// The accounts of `Contribute` that its rules read and change.
#[derive(Clone, Copy, Debug)]
pub struct Contribute {
    pub which_mint: Mint,
    pub fundraiser: Fundraiser,
    pub contributor_acc: Contributor,
}

/// The accounts of `Done` that its rules read.
#[derive(Clone, Copy, Debug)]
pub struct Done {
    pub fundraiser: Fundraiser,
    pub vault: TokenAccount,
}

/// The accounts of `Refund` that its rules read and change.
#[derive(Clone, Copy, Debug)]
pub struct Refund {
    pub fundraiser: Fundraiser,
    pub contributor_acc: Contributor,
    pub vault: TokenAccount,
}

/// Rust's `/` on integers: the quotient rounded toward zero.
pub open spec fn div_toward_zero(n: int, d: int) -> int {
    if n >= 0 {
        n / d
    } else {
        -((-n) / d)
    }
}

/// Whole days from `started` to `now`, as the rules count them: the
/// difference in seconds divided by `SECONDS_TO_DAYS` (rounded toward zero)
/// and kept to its lowest 8 bits.
pub open spec fn days_elapsed(now: i64, started: i64) -> u8 {
    div_toward_zero(now - started, SECONDS_TO_DAYS as int) as u8
}

/// Whether counting the days from `started` to `now` overflows an `i64`.
pub open spec fn days_overflow(now: i64, started: i64) -> bool {
    now - started < i64::MIN || now - started > i64::MAX
}

/// The most that one contributor may give to a fundraiser with target `target`.
pub open spec fn max_contribution(target: u64) -> int {
    (target * MAX_CONTRIBUTION_PERCENTAGE) / (PERCENTAGE_SCALER as int)
}

/// `u8::pow` of std.
///
/// Trusted: the result is `base` raised to `exp`; the requirement leaves out
/// the overflow, on which `pow` panics in builds with overflow checks.
#[verifier::external_body]
fn u8_pow(base: u8, exp: u32) -> (r: u8)
    requires
        pow(base as int, exp as nat) <= u8::MAX,
    ensures
        r == pow(base as int, exp as nat),
{
    base.pow(exp)
}

/// `Clock::get` of `anchor_lang`: the runtime's clock sysvar.
///
/// Trusted: the result is the unix time that the runtime reports, or the
/// error that the read failed with, as a `Runtime` fault carrying the
/// builtin code; which time, and whether the read fails, is not stated.
#[verifier::external_body]
fn clock_unix_timestamp() -> (clock: Result<i64, ProgramFault>)
    ensures
        is_runtime_fault(clock),
{
    match Clock::get() {
        Ok(clock) => Ok(clock.unix_timestamp),
        Err(e) => Err(ProgramFault::Runtime(u64::from(e))),
    }
}

/// Counts the whole days from `started` to `now`.
fn count_days(now: i64, started: i64) -> (days: u8)
    requires
        !days_overflow(now, started),
    ensures
        days == days_elapsed(now, started),
{
    ((now - started) / SECONDS_TO_DAYS) as u8
}

/// Whether counting the days from `started` to `now` would overflow.
fn count_days_overflows(now: i64, started: i64) -> (r: bool)
    ensures
        r == days_overflow(now, started),
{
    now.checked_sub(started).is_none()
}

/// The per-contributor cap, computed as the rules compute it.
fn contribution_cap(target: u64) -> (cap: u64)
    requires
        target * MAX_CONTRIBUTION_PERCENTAGE <= u64::MAX,
    ensures
        cap == max_contribution(target),
{
    (target * MAX_CONTRIBUTION_PERCENTAGE) / PERCENTAGE_SCALER
}

impl Init {
    /// The fundraiser that `initialize` writes, when the clock reads `now`.
    pub open spec fn initialized(self, amount: u64, duration: u8, bumps: InitBumps, now: i64) -> Fundraiser {
        Fundraiser {
            admin: self.admin,
            which_mint: self.which_mint,
            amount_of_mint: amount,
            current_amount: 0,
            time_started: now,
            end_time: duration,
            bump: bumps.fundraiser,
        }
    }

    /// What `initialize_with_clock` does when the clock gives `clock`.
    pub open spec fn initialize_step(
        self,
        amount: u64,
        duration: u8,
        bumps: InitBumps,
        clock: Result<i64, ProgramFault>,
        res: Result<(), ProgramFault>,
        after: Init,
    ) -> bool {
        match clock {
            Err(e) => res == Err::<(), ProgramFault>(e) && after == self,
            Ok(now) => res is Ok && after == (Init {
                fundraiser: self.initialized(amount, duration, bumps, now),
                ..self
            }),
        }
    }

    /// Starts a fundraiser: the admin raises `amount` of the mint over
    /// `duration` days from the time that the clock reads. A failed clock
    /// read fails the instruction and changes nothing.
    pub fn initialize_with_clock(
        &mut self,
        amount: u64,
        duration: u8,
        bumps: InitBumps,
        clock: Result<i64, ProgramFault>,
    ) -> (res: Result<(), ProgramFault>)
        ensures
            old(self).initialize_step(amount, duration, bumps, clock, res, *final(self)),
    {
        let now = match clock {
            Ok(t) => t,
            Err(e) => return Err(e),
        };
        self.fundraiser = Fundraiser {
            admin: self.admin,
            which_mint: self.which_mint,
            amount_of_mint: amount,
            current_amount: 0,
            time_started: now,
            end_time: duration,
            bump: bumps.fundraiser,
        };
        Ok(())
    }

    /// Starts a fundraiser at the time that the runtime's clock reports.
    pub fn initialize(&mut self, amount: u64, duration: u8, bumps: InitBumps) -> (res: Result<
        (),
        ProgramFault,
    >)
        ensures
            exists|clock: Result<i64, ProgramFault>|
                is_runtime_fault(clock) && #[trigger] old(self).initialize_step(
                    amount,
                    duration,
                    bumps,
                    clock,
                    res,
                    *final(self),
                ),
    {
        let clock = clock_unix_timestamp();
        let res = self.initialize_with_clock(amount, duration, bumps, clock);
        res
    }
}

impl Contribute {
    /// `contribute` aborts on an arithmetic overflow: of the cap, or of the
    /// count of days.
    pub open spec fn contribute_aborts(self, amount: u64, clock: Result<i64, ProgramFault>) -> bool {
        let target = self.fundraiser.amount_of_mint;
        let cap = max_contribution(target);
        ||| amount > 1 && target * MAX_CONTRIBUTION_PERCENTAGE > u64::MAX
        ||| amount > 1 && amount <= cap && clock is Ok && days_overflow(
            clock->Ok_0,
            self.fundraiser.time_started,
        )
    }

    /// Whether `contribute_with_clock` would abort on these inputs; a caller
    /// that cannot be checked tests this first and aborts in its place.
    pub fn contribute_would_abort(&self, amount: u64, clock: Result<i64, ProgramFault>) -> (r: bool)
        ensures
            r == self.contribute_aborts(amount, clock),
    {
        if !(amount > 1) {
            return false;
        }
        let target = self.fundraiser.amount_of_mint;
        if target > u64::MAX / MAX_CONTRIBUTION_PERCENTAGE {
            return true;
        }
        let cap = contribution_cap(target);
        if !(amount <= cap) {
            return false;
        }
        match clock {
            Ok(now) => count_days_overflows(now, self.fundraiser.time_started),
            Err(_) => false,
        }
    }

    /// What `contribute` answers: the amount to move from the contributor's
    /// token account into the vault, or why it refuses. The smallest
    /// contribution is one unit raised to the mint's decimals, which is 1
    /// whatever the decimals.
    pub open spec fn contribute_outcome(self, amount: u64, clock: Result<i64, ProgramFault>) -> Result<
        u64,
        ProgramFault,
    > {
        let cap = max_contribution(self.fundraiser.amount_of_mint);
        let given = self.contributor_acc.amount;
        if !(amount > 1) {
            Err(ProgramFault::Fundraiser(FundraiserError::ContributionTooSmall))
        } else if !(amount <= cap) {
            Err(ProgramFault::Fundraiser(FundraiserError::ContributionTooBig))
        } else if clock is Err {
            Err(clock->Err_0)
        } else if !(self.fundraiser.end_time <= days_elapsed(
            clock->Ok_0,
            self.fundraiser.time_started,
        )) {
            Err(ProgramFault::Fundraiser(FundraiserError::FundraiserEnded))
        } else if !(given <= cap && given + amount <= cap) {
            Err(ProgramFault::Fundraiser(FundraiserError::MaximumContributionsReached))
        } else {
            Ok(amount)
        }
    }

    /// What `contribute` answers: the transfer of the contribution into the
    /// vault, or why it refuses.
    pub open spec fn contribute_answer(self, amount: u64, clock: Result<i64, ProgramFault>) -> Result<
        TokenTransfer,
        ProgramFault,
    > {
        match self.contribute_outcome(amount, clock) {
            Ok(a) => Ok(contribution_transfer(a)),
            Err(e) => Err(e),
        }
    }

    /// The accounts after `amount` is recorded as contributed.
    pub open spec fn contributed(self, amount: u64) -> Contribute {
        Contribute {
            fundraiser: Fundraiser {
                current_amount: (self.fundraiser.current_amount + amount) as u64,
                ..self.fundraiser
            },
            contributor_acc: Contributor { amount: (self.contributor_acc.amount + amount) as u64 },
            ..self
        }
    }

    /// The checks of a contribution of `amount` at the time that the clock
    /// reads. On success the answer is the transfer of the contribution into
    /// the vault; once it has moved, `record_contribution` adds it to the
    /// totals. Nothing changes here.
    pub fn contribute_with_clock(&mut self, amount: u64, clock: Result<i64, ProgramFault>) -> (res: Result<
        TokenTransfer,
        ProgramFault,
    >)
        requires
            !old(self).contribute_aborts(amount, clock),
        ensures
            res == old(self).contribute_answer(amount, clock),
            *final(self) == *old(self),
    {
        proof {
            lemma1_pow(self.which_mint.decimals as nat);
        }
        let minimum = u8_pow(1, self.which_mint.decimals as u32) as u64;
        if !(amount > minimum) {
            return Err(ProgramFault::Fundraiser(FundraiserError::ContributionTooSmall));
        }
        let cap = contribution_cap(self.fundraiser.amount_of_mint);
        if !(amount <= cap) {
            return Err(ProgramFault::Fundraiser(FundraiserError::ContributionTooBig));
        }
        let now = match clock {
            Ok(t) => t,
            Err(e) => return Err(e),
        };
        if !(self.fundraiser.end_time <= count_days(now, self.fundraiser.time_started)) {
            return Err(ProgramFault::Fundraiser(FundraiserError::FundraiserEnded));
        }
        if !(self.contributor_acc.amount <= cap && self.contributor_acc.amount + amount <= cap) {
            return Err(ProgramFault::Fundraiser(FundraiserError::MaximumContributionsReached));
        }
        Ok(
            TokenTransfer {
                from: TokenHolder::ContributorTokenAccount,
                to: TokenHolder::Vault,
                amount,
                signer_bump: None,
            },
        )
    }

    /// What `contribute_with_clock` answers when the clock gives `clock`,
    /// with an abort answered as `ArithmeticOverflow`.
    pub open spec fn contribute_step(
        self,
        amount: u64,
        clock: Result<i64, ProgramFault>,
        res: Result<TokenTransfer, ProgramFault>,
    ) -> bool {
        if self.contribute_aborts(amount, clock) {
            res == Err::<TokenTransfer, ProgramFault>(ProgramFault::ArithmeticOverflow)
        } else {
            res == self.contribute_answer(amount, clock)
        }
    }

    /// The checks of a contribution of `amount` at the time that the
    /// runtime's clock reports. Where they would overflow, the answer is
    /// `ArithmeticOverflow`. Nothing changes here.
    pub fn contribute(&mut self, amount: u64) -> (res: Result<TokenTransfer, ProgramFault>)
        ensures
            exists|clock: Result<i64, ProgramFault>|
                is_runtime_fault(clock) && #[trigger] old(self).contribute_step(amount, clock, res),
            *final(self) == *old(self),
    {
        let clock = clock_unix_timestamp();
        if self.contribute_would_abort(amount, clock) {
            assert(old(self).contribute_step(amount, clock, Err(ProgramFault::ArithmeticOverflow)));
            return Err(ProgramFault::ArithmeticOverflow);
        }
        let res = self.contribute_with_clock(amount, clock);
        assert(old(self).contribute_step(amount, clock, res));
        res
    }

    /// Whether `record_contribution` would overflow.
    pub fn record_contribution_would_overflow(&self, amount: u64) -> (r: bool)
        ensures
            r == (self.fundraiser.current_amount + amount > u64::MAX
                || self.contributor_acc.amount + amount > u64::MAX),
    {
        self.fundraiser.current_amount > u64::MAX - amount || self.contributor_acc.amount > u64::MAX
            - amount
    }

    /// After the transfer of an accepted contribution: both the fundraiser's
    /// current amount and the contributor's total grow by `amount`.
    pub fn record_contribution(&mut self, amount: u64)
        requires
            old(self).fundraiser.current_amount + amount <= u64::MAX,
            old(self).contributor_acc.amount + amount <= u64::MAX,
        ensures
            *final(self) == old(self).contributed(amount),
    {
        self.fundraiser.current_amount = self.fundraiser.current_amount + amount;
        self.contributor_acc.amount = self.contributor_acc.amount + amount;
    }
}

impl Done {
    /// What `done` answers: the whole balance of the vault, to move to the
    /// admin, once the vault holds the target.
    pub open spec fn done_outcome(self) -> Result<u64, ProgramFault> {
        if self.vault.amount >= self.fundraiser.amount_of_mint {
            Ok(self.vault.amount)
        } else {
            Err(ProgramFault::Fundraiser(FundraiserError::TargetNotMet))
        }
    }

    /// What `done` answers: the transfer of the whole vault to the admin, or
    /// why it refuses.
    pub open spec fn done_answer(self) -> Result<TokenTransfer, ProgramFault> {
        match self.done_outcome() {
            Ok(a) => Ok(collection_transfer(self.fundraiser, a)),
            Err(e) => Err(e),
        }
    }

    /// The admin collects the vault once it holds the target: the answer is
    /// the transfer of the whole vault to the admin, signed by the
    /// fundraiser. Nothing changes.
    pub fn done(&mut self) -> (res: Result<TokenTransfer, ProgramFault>)
        ensures
            res == old(self).done_answer(),
            *final(self) == *old(self),
    {
        if !(self.vault.amount >= self.fundraiser.amount_of_mint) {
            return Err(ProgramFault::Fundraiser(FundraiserError::TargetNotMet));
        }
        Ok(
            TokenTransfer {
                from: TokenHolder::Vault,
                to: TokenHolder::AdminTokenAccount,
                amount: self.vault.amount,
                signer_bump: Some(self.fundraiser.bump),
            },
        )
    }
}

impl Refund {
    /// `refund` aborts on an overflow of the count of days.
    pub open spec fn refund_aborts(self, clock: Result<i64, ProgramFault>) -> bool {
        clock is Ok && days_overflow(clock->Ok_0, self.fundraiser.time_started)
    }

    /// Whether `refund_with_clock` would abort on these inputs; a caller that
    /// cannot be checked tests this first and aborts in its place.
    pub fn refund_would_abort(&self, clock: Result<i64, ProgramFault>) -> (r: bool)
        ensures
            r == self.refund_aborts(clock),
    {
        match clock {
            Ok(now) => count_days_overflows(now, self.fundraiser.time_started),
            Err(_) => false,
        }
    }

    /// What `refund` answers: the contributor's total, to move from the vault
    /// back to the contributor, while the fundraising period admits it and
    /// the vault holds less than the target.
    pub open spec fn refund_outcome(self, clock: Result<i64, ProgramFault>) -> Result<u64, ProgramFault> {
        if clock is Err {
            Err(clock->Err_0)
        } else if !(self.fundraiser.end_time >= days_elapsed(
            clock->Ok_0,
            self.fundraiser.time_started,
        )) {
            Err(ProgramFault::Fundraiser(FundraiserError::FundraiserNotEnded))
        } else if !(self.vault.amount < self.fundraiser.amount_of_mint) {
            Err(ProgramFault::Fundraiser(FundraiserError::TargetMet))
        } else {
            Ok(self.contributor_acc.amount)
        }
    }

    /// What `refund` answers: the transfer of the contributor's total back
    /// from the vault, or why it refuses.
    pub open spec fn refund_answer(self, clock: Result<i64, ProgramFault>) -> Result<
        TokenTransfer,
        ProgramFault,
    > {
        match self.refund_outcome(clock) {
            Ok(a) => Ok(refund_transfer(self.fundraiser, a)),
            Err(e) => Err(e),
        }
    }

    /// The accounts after the contributor's total is taken off the fundraiser.
    pub open spec fn refunded(self) -> Refund {
        Refund {
            fundraiser: Fundraiser {
                current_amount: (self.fundraiser.current_amount - self.contributor_acc.amount) as u64,
                ..self.fundraiser
            },
            ..self
        }
    }

    /// The checks of a refund at the time that the clock reads. On success
    /// the answer is the contributor's total, to move back from the vault;
    /// once it has moved, `record_refund` takes it off the fundraiser.
    /// Nothing changes here.
    pub fn refund_with_clock(&mut self, clock: Result<i64, ProgramFault>) -> (res: Result<
        TokenTransfer,
        ProgramFault,
    >)
        requires
            !old(self).refund_aborts(clock),
        ensures
            res == old(self).refund_answer(clock),
            *final(self) == *old(self),
    {
        let now = match clock {
            Ok(t) => t,
            Err(e) => return Err(e),
        };
        if !(self.fundraiser.end_time >= count_days(now, self.fundraiser.time_started)) {
            return Err(ProgramFault::Fundraiser(FundraiserError::FundraiserNotEnded));
        }
        if !(self.vault.amount < self.fundraiser.amount_of_mint) {
            return Err(ProgramFault::Fundraiser(FundraiserError::TargetMet));
        }
        Ok(
            TokenTransfer {
                from: TokenHolder::Vault,
                to: TokenHolder::ContributorTokenAccount,
                amount: self.contributor_acc.amount,
                signer_bump: Some(self.fundraiser.bump),
            },
        )
    }

    /// What `refund_with_clock` answers when the clock gives `clock`, with an
    /// abort answered as `ArithmeticOverflow`.
    pub open spec fn refund_step(
        self,
        clock: Result<i64, ProgramFault>,
        res: Result<TokenTransfer, ProgramFault>,
    ) -> bool {
        if self.refund_aborts(clock) {
            res == Err::<TokenTransfer, ProgramFault>(ProgramFault::ArithmeticOverflow)
        } else {
            res == self.refund_answer(clock)
        }
    }

    /// The checks of a refund at the time that the runtime's clock reports.
    /// Where they would overflow, the answer is `ArithmeticOverflow`.
    /// Nothing changes here.
    pub fn refund(&mut self) -> (res: Result<TokenTransfer, ProgramFault>)
        ensures
            exists|clock: Result<i64, ProgramFault>|
                is_runtime_fault(clock) && #[trigger] old(self).refund_step(clock, res),
            *final(self) == *old(self),
    {
        let clock = clock_unix_timestamp();
        if self.refund_would_abort(clock) {
            assert(old(self).refund_step(clock, Err(ProgramFault::ArithmeticOverflow)));
            return Err(ProgramFault::ArithmeticOverflow);
        }
        let res = self.refund_with_clock(clock);
        assert(old(self).refund_step(clock, res));
        res
    }

    /// Whether `record_refund` would underflow: the contributor's total
    /// exceeds the fundraiser's current amount.
    pub fn record_refund_would_underflow(&self) -> (r: bool)
        ensures
            r == (self.fundraiser.current_amount < self.contributor_acc.amount),
    {
        self.fundraiser.current_amount < self.contributor_acc.amount
    }

    /// After the transfer of an accepted refund: the contributor's total is
    /// taken off the fundraiser's current amount.
    pub fn record_refund(&mut self)
        requires
            old(self).fundraiser.current_amount >= old(self).contributor_acc.amount,
        ensures
            *final(self) == old(self).refunded(),
    {
        self.fundraiser.current_amount = self.fundraiser.current_amount - self.contributor_acc.amount;
    }
}

} // verus!
