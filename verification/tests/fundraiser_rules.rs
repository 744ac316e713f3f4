use fundraiser::errors::{FundraiserError, ProgramFault};
use fundraiser::handlers::{
    Contribute, Done, Init, InitBumps, Mint, Refund, TokenAccount, TokenHolder, TokenTransfer,
};
use fundraiser::state::{Contributor, Fundraiser};

const DAY: i64 = 86_400;
const START: i64 = 1_700_000_000;

fn fundraiser(target: u64, current: u64, days: u8) -> Fundraiser {
    Fundraiser {
        admin: [1u8; 32],
        which_mint: [2u8; 32],
        amount_of_mint: target,
        current_amount: current,
        time_started: START,
        end_time: days,
        bump: 254,
    }
}

fn into_vault(amount: u64) -> TokenTransfer {
    TokenTransfer {
        from: TokenHolder::ContributorTokenAccount,
        to: TokenHolder::Vault,
        amount,
        signer_bump: None,
    }
}

fn back_to_contributor(amount: u64) -> TokenTransfer {
    TokenTransfer {
        from: TokenHolder::Vault,
        to: TokenHolder::ContributorTokenAccount,
        amount,
        signer_bump: Some(254),
    }
}

fn rule(e: FundraiserError) -> ProgramFault {
    ProgramFault::Fundraiser(e)
}

#[test]
fn initialize_fills_in_the_fundraiser() {
    let blank = Fundraiser {
        admin: [0u8; 32],
        which_mint: [0u8; 32],
        amount_of_mint: 0,
        current_amount: 0,
        time_started: 0,
        end_time: 0,
        bump: 0,
    };
    let mut init = Init { admin: [5u8; 32], which_mint: [6u8; 32], fundraiser: blank };
    assert_eq!(init.initialize_with_clock(30_000, 10, InitBumps { fundraiser: 251 }, Ok(START)), Ok(()));
    assert_eq!(
        init.fundraiser,
        Fundraiser {
            admin: [5u8; 32],
            which_mint: [6u8; 32],
            amount_of_mint: 30_000,
            current_amount: 0,
            time_started: START,
            end_time: 10,
            bump: 251,
        }
    );
}

#[test]
fn initialize_fails_when_the_clock_cannot_be_read() {
    let f = fundraiser(1, 1, 1);
    let mut init = Init { admin: [5u8; 32], which_mint: [6u8; 32], fundraiser: f };
    assert_eq!(
        init.initialize_with_clock(30_000, 10, InitBumps { fundraiser: 251 }, Err(ProgramFault::Runtime(17 << 32))),
        Err(ProgramFault::Runtime(17 << 32))
    );
    assert_eq!(init.fundraiser, f);
}

fn contribute_accounts(decimals: u8, given: u64, days: u8) -> Contribute {
    Contribute {
        which_mint: Mint { decimals },
        fundraiser: fundraiser(10_000, 2_000, days),
        contributor_acc: Contributor { amount: given },
    }
}

#[test]
fn contribute_adds_to_both_totals() {
    // cap is 10% of 10_000 = 1_000; duration 0 days is reached at once
    let mut c = contribute_accounts(6, 100, 0);
    let before = (c.fundraiser, c.contributor_acc);
    assert_eq!(c.contribute_with_clock(400, Ok(START + 5)), Ok(into_vault(400)));
    // the checks change nothing; the totals grow once the transfer is done
    assert_eq!((c.fundraiser, c.contributor_acc), before);
    assert!(!c.record_contribution_would_overflow(400));
    c.record_contribution(400);
    assert_eq!(c.fundraiser.current_amount, 2_400);
    assert_eq!(c.contributor_acc.amount, 500);
}

#[test]
fn contribute_may_reach_the_cap_exactly() {
    let mut c = contribute_accounts(0, 600, 2);
    assert_eq!(c.contribute_with_clock(400, Ok(START + 2 * DAY)), Ok(into_vault(400)));
    c.record_contribution(400);
    assert_eq!(c.contributor_acc.amount, 1_000);
}

#[test]
fn smallest_contribution_is_two_whatever_the_decimals() {
    for decimals in [0u8, 6, 9, 255] {
        let mut c = contribute_accounts(decimals, 0, 0);
        assert_eq!(c.contribute_with_clock(1, Ok(START)), Err(rule(FundraiserError::ContributionTooSmall)));
        assert_eq!(c.contribute_with_clock(0, Ok(START)), Err(rule(FundraiserError::ContributionTooSmall)));
        let mut c = contribute_accounts(decimals, 0, 0);
        assert_eq!(c.contribute_with_clock(2, Ok(START)), Ok(into_vault(2)));
    }
}

#[test]
fn contribute_refusals_come_in_order() {
    let c0 = contribute_accounts(6, 0, 3);
    let mut c = c0;
    assert_eq!(c.contribute_with_clock(1_001, Err(ProgramFault::Runtime(1))), Err(rule(FundraiserError::ContributionTooBig)));
    assert_eq!(c.contribute_with_clock(50, Err(ProgramFault::Runtime(1))), Err(ProgramFault::Runtime(1)));
    // three days are not reached after two days and a bit
    assert_eq!(c.contribute_with_clock(50, Ok(START + 2 * DAY + 100)), Err(rule(FundraiserError::FundraiserEnded)));
    let mut full = contribute_accounts(6, 950, 3);
    assert_eq!(full.contribute_with_clock(51, Ok(START + 3 * DAY)), Err(rule(FundraiserError::MaximumContributionsReached)));
    let mut over = contribute_accounts(6, 1_001, 3);
    assert_eq!(over.contribute_with_clock(2, Ok(START + 3 * DAY)), Err(rule(FundraiserError::MaximumContributionsReached)));
    assert_eq!(c.fundraiser, c0.fundraiser);
    assert_eq!(c.contributor_acc, c0.contributor_acc);
}

#[test]
fn days_count_toward_zero_and_keep_eight_bits() {
    // a clock before the start counts -0 days: duration 0 is reached
    let mut early = contribute_accounts(6, 0, 0);
    assert_eq!(early.contribute_with_clock(10, Ok(START - DAY + 1)), Ok(into_vault(10)));
    // 256 days wrap to 0, so a duration of 1 day is not reached
    let mut late = contribute_accounts(6, 0, 1);
    assert_eq!(late.contribute_with_clock(10, Ok(START + 256 * DAY)), Err(rule(FundraiserError::FundraiserEnded)));
}

#[test]
fn done_hands_out_the_vault_once_the_target_is_met() {
    let mut d = Done { fundraiser: fundraiser(10_000, 10_000, 3), vault: TokenAccount { amount: 10_500 } };
    assert_eq!(
        d.done(),
        Ok(TokenTransfer {
            from: TokenHolder::Vault,
            to: TokenHolder::AdminTokenAccount,
            amount: 10_500,
            signer_bump: Some(254),
        })
    );
    let mut short = Done { fundraiser: fundraiser(10_000, 9_999, 3), vault: TokenAccount { amount: 9_999 } };
    assert_eq!(short.done(), Err(rule(FundraiserError::TargetNotMet)));
    assert_eq!(short.vault.amount, 9_999);
}

#[test]
fn refund_returns_the_total_and_lowers_the_fundraiser() {
    let mut r = Refund {
        fundraiser: fundraiser(10_000, 3_000, 5),
        contributor_acc: Contributor { amount: 700 },
        vault: TokenAccount { amount: 3_000 },
    };
    assert_eq!(r.refund_with_clock(Ok(START + DAY)), Ok(back_to_contributor(700)));
    assert_eq!(r.fundraiser.current_amount, 3_000);
    assert!(!r.record_refund_would_underflow());
    r.record_refund();
    assert_eq!(r.fundraiser.current_amount, 2_300);
}

#[test]
fn refund_refusals_come_in_order() {
    let r0 = Refund {
        fundraiser: fundraiser(10_000, 3_000, 5),
        contributor_acc: Contributor { amount: 700 },
        vault: TokenAccount { amount: 3_000 },
    };
    let mut r = r0;
    assert_eq!(r.refund_with_clock(Err(ProgramFault::Runtime(7))), Err(ProgramFault::Runtime(7)));
    assert_eq!(r.refund_with_clock(Ok(START + 6 * DAY)), Err(rule(FundraiserError::FundraiserNotEnded)));
    let mut met = Refund { vault: TokenAccount { amount: 10_000 }, ..r0 };
    assert_eq!(met.refund_with_clock(Ok(START + DAY)), Err(rule(FundraiserError::TargetMet)));
    assert_eq!(r.fundraiser, r0.fundraiser);
}

#[test]
fn done_and_refund_never_both_succeed() {
    for vault in [0u64, 9_999, 10_000, 20_000] {
        let f = fundraiser(10_000, 5_000, 5);
        let mut d = Done { fundraiser: f, vault: TokenAccount { amount: vault } };
        let mut r = Refund { fundraiser: f, contributor_acc: Contributor { amount: 10 }, vault: TokenAccount { amount: vault } };
        assert!(!(d.done().is_ok() && r.refund_with_clock(Ok(START)).is_ok()));
    }
}

#[test]
fn refund_undoes_a_first_contribution() {
    let mut c = contribute_accounts(6, 0, 0);
    let before = c.fundraiser;
    assert_eq!(c.contribute_with_clock(300, Ok(START + DAY)), Ok(into_vault(300)));
    c.record_contribution(300);
    let mut r = Refund { fundraiser: c.fundraiser, contributor_acc: c.contributor_acc, vault: TokenAccount { amount: 2_300 } };
    assert_eq!(r.refund_with_clock(Ok(START)), Ok(back_to_contributor(300)));
    r.record_refund();
    assert_eq!(r.fundraiser, before);
}

#[test]
fn contribute_would_abort_on_overflow_only() {
    let c = contribute_accounts(6, 0, 0);
    assert!(!c.contribute_would_abort(400, Ok(START)));
    assert!(!c.contribute_would_abort(1, Ok(START)));
    let huge_target = Contribute {
        fundraiser: Fundraiser { amount_of_mint: u64::MAX, ..c.fundraiser },
        ..c
    };
    assert!(huge_target.contribute_would_abort(2, Ok(START)));
    assert!(!huge_target.contribute_would_abort(1, Ok(START)));
    assert!(c.contribute_would_abort(2, Ok(i64::MIN)));
    assert!(!c.contribute_would_abort(2, Err(ProgramFault::Runtime(1))));
}

#[test]
fn record_contribution_would_overflow_near_the_top() {
    let c = contribute_accounts(6, 0, 0);
    let nearly_full = Contribute {
        fundraiser: Fundraiser { current_amount: u64::MAX - 1, ..c.fundraiser },
        ..c
    };
    assert!(nearly_full.record_contribution_would_overflow(2));
    assert!(!nearly_full.record_contribution_would_overflow(1));
}

#[test]
fn refund_guards() {
    let r = Refund {
        fundraiser: fundraiser(10_000, 100, 5),
        contributor_acc: Contributor { amount: 700 },
        vault: TokenAccount { amount: 100 },
    };
    assert!(!r.refund_would_abort(Ok(START)));
    assert!(!r.refund_would_abort(Err(ProgramFault::Runtime(1))));
    assert!(r.refund_would_abort(Ok(i64::MIN)));
    assert!(r.record_refund_would_underflow());
    let fine = Refund { contributor_acc: Contributor { amount: 100 }, ..r };
    assert!(!fine.record_refund_would_underflow());
}

// Off-chain the runtime's clock sysvar is not available: the read fails
// with the runtime's `UnsupportedSysvar` code, which the rules pass on.
const UNSUPPORTED_SYSVAR: u64 = 17 << 32;

#[test]
fn clock_reading_entry_points_pass_on_a_failed_clock_read() {
    let mut c = contribute_accounts(6, 0, 0);
    assert_eq!(c.contribute(1), Err(rule(FundraiserError::ContributionTooSmall)));
    assert_eq!(c.contribute(5_000), Err(rule(FundraiserError::ContributionTooBig)));
    assert_eq!(c.contribute(5), Err(ProgramFault::Runtime(UNSUPPORTED_SYSVAR)));
    assert_eq!(c.contributor_acc.amount, 0);

    let mut r = Refund {
        fundraiser: fundraiser(10_000, 3_000, 5),
        contributor_acc: Contributor { amount: 700 },
        vault: TokenAccount { amount: 3_000 },
    };
    assert_eq!(r.refund(), Err(ProgramFault::Runtime(UNSUPPORTED_SYSVAR)));

    let f = fundraiser(1, 1, 1);
    let mut init = Init { admin: [5u8; 32], which_mint: [6u8; 32], fundraiser: f };
    assert_eq!(
        init.initialize(30_000, 10, InitBumps { fundraiser: 251 }),
        Err(ProgramFault::Runtime(UNSUPPORTED_SYSVAR))
    );
    assert_eq!(init.fundraiser, f);
}

#[test]
fn contribute_answers_an_overflow_as_arithmetic_overflow() {
    let c = contribute_accounts(6, 0, 0);
    let mut huge = Contribute { fundraiser: Fundraiser { amount_of_mint: u64::MAX, ..c.fundraiser }, ..c };
    assert_eq!(huge.contribute(2), Err(ProgramFault::ArithmeticOverflow));
}

#[test]
fn contributions_and_refunds_keep_the_total_of_open_records() {
    // two contributors; the fundraiser's total is the sum of their records
    let mut records = vec![Contributor { amount: 0 }, Contributor { amount: 0 }];
    let mut f = fundraiser(10_000, 0, 0);
    let mut vault = 0u64;
    for (who, amount) in [(0usize, 300u64), (1, 200), (0, 100)] {
        let mut c = Contribute { which_mint: Mint { decimals: 6 }, fundraiser: f, contributor_acc: records[who] };
        let moved = c.contribute_with_clock(amount, Ok(START)).unwrap();
        vault += moved.amount;
        c.record_contribution(moved.amount);
        f = c.fundraiser;
        records[who] = c.contributor_acc;
        assert_eq!(f.current_amount, records.iter().map(|r| r.amount).sum::<u64>());
    }
    assert_eq!(vault - f.current_amount, 0);
    let mut r = Refund { fundraiser: f, contributor_acc: records[0], vault: TokenAccount { amount: vault } };
    let moved = r.refund_with_clock(Ok(START)).unwrap();
    assert!(!r.record_refund_would_underflow());
    r.record_refund();
    records.remove(0);
    assert_eq!(r.fundraiser.current_amount, records.iter().map(|r| r.amount).sum::<u64>());
    assert_eq!(vault - moved.amount, r.fundraiser.current_amount);
}
