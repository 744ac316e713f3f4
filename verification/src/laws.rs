use vstd::prelude::*;
use crate::errors::ProgramFault;
use crate::handlers::{
    max_contribution, Contribute, Done, Init, InitBumps, Refund, TokenAccount, TokenHolder, TokenTransfer,
};
use crate::errors::FundraiserError;
use crate::layout::{lemma_u64_read_after_write, u64_at, with_u64_at};
use crate::processor::{
    checkers_outcome, contribution_transfer, initialize_outcome, record_account_creation,
    refund_outcome, AccountSnapshot, Action, ContributorSeeds, FundraiserSeeds,
};
use crate::state::{
    lemma_contribute_written_into, Contribute as ContributeRecord, Contributor, Fundraiser,
    CONTRIBUTE_LEN, FUNDRAISER_LEN,
};

verus! {

/// The admin's collection and a contributor's refund never both succeed on
/// the same fundraiser and vault: collection needs the vault to hold the
/// target, a refund needs it to hold less.
pub proof fn done_and_refund_exclude_each_other(
    fundraiser: Fundraiser,
    vault: TokenAccount,
    contributor_acc: Contributor,
    clock: Result<i64, ProgramFault>,
)
    ensures
        !((Done { fundraiser, vault }).done_outcome() is Ok && (Refund {
            fundraiser,
            contributor_acc,
            vault,
        }).refund_outcome(clock) is Ok),
{
}

/// An accepted contribution moves exactly the amount asked for, and once it
/// is recorded the contributor's total is within the per-contributor cap
/// (its addition cannot overflow).
pub proof fn contribution_stays_within_cap(
    accounts: Contribute,
    amount: u64,
    clock: Result<i64, ProgramFault>,
)
    requires
        accounts.contribute_outcome(amount, clock) is Ok,
    ensures
        accounts.contribute_outcome(amount, clock) == Ok::<u64, ProgramFault>(amount),
        accounts.contributor_acc.amount + amount <= u64::MAX,
        accounts.contributed(amount).contributor_acc.amount <= max_contribution(
            accounts.fundraiser.amount_of_mint,
        ),
{
}

/// A contributor who had given nothing, makes one accepted and recorded
/// contribution and then an accepted refund, gets back exactly the
/// contribution, and once the refund is recorded the fundraiser is as it
/// was before the contribution.
pub proof fn refund_undoes_a_first_contribution(
    accounts: Contribute,
    amount: u64,
    clock_at_contribution: Result<i64, ProgramFault>,
    vault: TokenAccount,
    clock_at_refund: Result<i64, ProgramFault>,
)
    requires
        accounts.contributor_acc.amount == 0,
        accounts.contribute_outcome(amount, clock_at_contribution) is Ok,
        accounts.fundraiser.current_amount + amount <= u64::MAX,
        (Refund {
            fundraiser: accounts.contributed(amount).fundraiser,
            contributor_acc: accounts.contributed(amount).contributor_acc,
            vault,
        }).refund_outcome(clock_at_refund) is Ok,
    ensures
        ({
            let refund = Refund {
                fundraiser: accounts.contributed(amount).fundraiser,
                contributor_acc: accounts.contributed(amount).contributor_acc,
                vault,
            };
            &&& refund.refund_outcome(clock_at_refund) == Ok::<u64, ProgramFault>(amount)
            &&& refund.fundraiser.current_amount >= refund.contributor_acc.amount
            &&& refund.refunded().fundraiser == accounts.fundraiser
        }),
{
}

/// A refund asks for what the contributor's record holds. After the parts
/// of `Contribute` have set the record to a contribution of `amount` and
/// then added `amount` to it, an accepted refund asks for twice `amount`.
pub proof fn refund_after_contribute_returns_the_record(
    accounts: Seq<AccountSnapshot>,
    fundraiser_data: Seq<u8>,
    record_before: Seq<u8>,
    amount: u64,
)
    requires
        record_before.len() == CONTRIBUTE_LEN,
        amount + amount <= u64::MAX,
        refund_outcome(
            accounts,
            fundraiser_data,
            with_u64_at(
                (ContributeRecord { is_initialized: true, amount }).written_into(record_before),
                8,
                (amount + amount) as u64,
            ),
        ) is Ok,
    ensures
        refund_outcome(
            accounts,
            fundraiser_data,
            with_u64_at(
                (ContributeRecord { is_initialized: true, amount }).written_into(record_before),
                8,
                (amount + amount) as u64,
            ),
        )->Ok_0[0]->amount == amount + amount,
{
    let record = ContributeRecord { is_initialized: true, amount };
    lemma_contribute_written_into(record, record_before);
    lemma_u64_read_after_write(record.written_into(record_before), 8, (amount + amount) as u64);
}

/// The maker's collection asks for the fundraiser's total as the last
/// contribution left it: after `record_contribution` has added `amount` to a
/// total of `before`, an accepted `Checks` transfers `before + amount`.
pub proof fn checkers_collect_the_total_after_a_contribution(
    accounts: Seq<AccountSnapshot>,
    fundraiser_before: Seq<u8>,
    amount: u64,
)
    requires
        fundraiser_before.len() == FUNDRAISER_LEN,
        u64_at(fundraiser_before, 80) + amount <= u64::MAX,
        checkers_outcome(
            accounts,
            with_u64_at(fundraiser_before, 80, (u64_at(fundraiser_before, 80) + amount) as u64),
        ) is Ok,
    ensures
        checkers_outcome(
            accounts,
            with_u64_at(fundraiser_before, 80, (u64_at(fundraiser_before, 80) + amount) as u64),
        )->Ok_0[0]->amount == u64_at(fundraiser_before, 80) + amount,
{
    lemma_u64_read_after_write(
        fundraiser_before,
        80,
        (u64_at(fundraiser_before, 80) + amount) as u64,
    );
}

/// The total of the amounts that a fundraiser's open contributor records hold.
pub open spec fn total_contributed(records: Seq<Contributor>) -> int
    decreases records.len(),
{
    if records.len() == 0 {
        0
    } else {
        total_contributed(records.drop_last()) + records.last().amount
    }
}

/// No total is negative.
pub proof fn lemma_total_nonnegative(records: Seq<Contributor>)
    ensures
        total_contributed(records) >= 0,
    decreases records.len(),
{
    if records.len() > 0 {
        lemma_total_nonnegative(records.drop_last());
    }
}

/// Changing one record changes the total by the change of its amount.
pub proof fn lemma_total_update(records: Seq<Contributor>, i: int, record: Contributor)
    requires
        0 <= i < records.len(),
    ensures
        total_contributed(records.update(i, record)) == total_contributed(records)
            - records[i].amount + record.amount,
    decreases records.len(),
{
    let updated = records.update(i, record);
    if i == records.len() - 1 {
        assert(updated.drop_last() =~= records.drop_last());
    } else {
        assert(updated.drop_last() =~= records.drop_last().update(i, record));
        lemma_total_update(records.drop_last(), i, record);
    }
}

/// Closing one record takes its amount off the total.
pub proof fn lemma_total_remove(records: Seq<Contributor>, i: int)
    requires
        0 <= i < records.len(),
    ensures
        total_contributed(records.remove(i)) == total_contributed(records) - records[i].amount,
    decreases records.len(),
{
    if i == records.len() - 1 {
        assert(records.remove(i) =~= records.drop_last());
    } else {
        assert(records.remove(i).drop_last() =~= records.drop_last().remove(i));
        lemma_total_remove(records.drop_last(), i);
    }
}

/// A fundraiser just started holds the total of no records: nothing.
pub proof fn a_new_fundraiser_holds_the_total_of_no_records(
    init: Init,
    amount: u64,
    duration: u8,
    bumps: InitBumps,
    now: i64,
)
    ensures
        init.initialized(amount, duration, bumps, now).current_amount == total_contributed(
            Seq::<Contributor>::empty(),
        ),
{
}

/// Opening a new record, which holds nothing, keeps the total.
pub proof fn opening_a_record_keeps_the_total(records: Seq<Contributor>)
    ensures
        total_contributed(records.push(Contributor { amount: 0 })) == total_contributed(records),
{
    assert(records.push(Contributor { amount: 0 }).drop_last() =~= records);
}

/// While a fundraiser's current amount is the total of its open records, an
/// accepted contribution from one of them, once recorded, keeps it so, and
/// the vault, which receives the transfer, stays ahead of the current amount
/// by as much as before. (A refused contribution changes nothing.)
pub proof fn contribution_keeps_the_total(
    accounts: Contribute,
    records: Seq<Contributor>,
    i: int,
    amount: u64,
    clock: Result<i64, ProgramFault>,
    vault: TokenAccount,
)
    requires
        0 <= i < records.len(),
        records[i] == accounts.contributor_acc,
        accounts.fundraiser.current_amount == total_contributed(records),
        accounts.contribute_answer(amount, clock) is Ok,
        accounts.fundraiser.current_amount + amount <= u64::MAX,
    ensures
        ({
            let after = accounts.contributed(amount);
            let moved = accounts.contribute_answer(amount, clock)->Ok_0.amount;
            &&& after.fundraiser.current_amount == total_contributed(
                records.update(i, after.contributor_acc),
            )
            &&& (vault.amount + moved) - after.fundraiser.current_amount == vault.amount
                - accounts.fundraiser.current_amount
        }),
{
    let after = accounts.contributed(amount);
    lemma_total_update(records, i, after.contributor_acc);
}

/// While a fundraiser's current amount is the total of its open records, an
/// accepted refund to one of them, once recorded (and the record closed),
/// keeps it so: recording it never underflows, and the vault, which pays the
/// transfer, stays ahead of the current amount by as much as before. (A
/// refused refund changes nothing.)
pub proof fn refund_keeps_the_total(
    refund: Refund,
    records: Seq<Contributor>,
    i: int,
    clock: Result<i64, ProgramFault>,
)
    requires
        0 <= i < records.len(),
        records[i] == refund.contributor_acc,
        refund.fundraiser.current_amount == total_contributed(records),
        refund.refund_answer(clock) is Ok,
    ensures
        ({
            let moved = refund.refund_answer(clock)->Ok_0.amount;
            &&& refund.fundraiser.current_amount >= refund.contributor_acc.amount
            &&& refund.refunded().fundraiser.current_amount == total_contributed(records.remove(i))
            &&& (refund.vault.amount - moved) - refund.refunded().fundraiser.current_amount
                == refund.vault.amount - refund.fundraiser.current_amount
        }),
{
    lemma_total_remove(records, i);
    lemma_total_nonnegative(records.remove(i));
}

// ------------------------------------------------------------------
// When each handler owes an answer, stated over its inputs.

/// A contribution is owed: when it is above 1, within a tenth of the target
/// (and the contributor's total with it stays within that tenth), and the
/// clock reads at least `end_time` whole days (and fewer than 256) after
/// the start, the contribution is accepted and moves from the contributor's
/// token account into the vault, signed by the contributor, whatever the
/// fundraiser has collected so far.
pub proof fn a_contribution_within_the_rules_is_accepted(
    accounts: Contribute,
    amount: u64,
    now: i64,
)
    requires
        amount > 1,
        accounts.fundraiser.amount_of_mint * 10 <= u64::MAX,
        amount <= accounts.fundraiser.amount_of_mint * 10 / 100,
        accounts.contributor_acc.amount + amount <= accounts.fundraiser.amount_of_mint * 10 / 100,
        accounts.fundraiser.end_time * 86400 <= now - accounts.fundraiser.time_started,
        now - accounts.fundraiser.time_started < 256 * 86400,
    ensures
        !accounts.contribute_aborts(amount, Ok(now)),
        accounts.contribute_answer(amount, Ok(now)) == Ok::<TokenTransfer, ProgramFault>(
            TokenTransfer {
                from: TokenHolder::ContributorTokenAccount,
                to: TokenHolder::Vault,
                amount,
                signer_bump: None,
            },
        ),
{
    let d = now - accounts.fundraiser.time_started;
    assert(d / 86400 >= accounts.fundraiser.end_time) by (nonlinear_arith)
        requires
            accounts.fundraiser.end_time * 86400 <= d,
            0 <= accounts.fundraiser.end_time,
    ;
    assert(d / 86400 < 256) by (nonlinear_arith)
        requires
            d < 256 * 86400,
            0 <= d,
    ;
}

/// The refusals of a contribution by its size: 0 or 1 is too small, more
/// than a tenth of the target is too big, whatever the clock reads.
pub proof fn a_contribution_out_of_size_is_refused(
    accounts: Contribute,
    amount: u64,
    clock: Result<i64, ProgramFault>,
)
    ensures
        amount <= 1 ==> accounts.contribute_answer(amount, clock) == Err::<
            TokenTransfer,
            ProgramFault,
        >(ProgramFault::Fundraiser(FundraiserError::ContributionTooSmall)),
        amount > 1 && amount > accounts.fundraiser.amount_of_mint * 10 / 100
            ==> accounts.contribute_answer(amount, clock) == Err::<TokenTransfer, ProgramFault>(
            ProgramFault::Fundraiser(FundraiserError::ContributionTooBig),
        ),
{
}

/// The admin's collection is owed exactly when the vault holds at least
/// the target: then the whole vault moves to the admin's token account,
/// signed by the fundraiser with its bump; otherwise the target is not met.
pub proof fn collection_is_owed_once_the_target_is_met(fundraiser: Fundraiser, vault: TokenAccount)
    ensures
        vault.amount >= fundraiser.amount_of_mint ==> (Done { fundraiser, vault }).done_answer()
            == Ok::<TokenTransfer, ProgramFault>(
            TokenTransfer {
                from: TokenHolder::Vault,
                to: TokenHolder::AdminTokenAccount,
                amount: vault.amount,
                signer_bump: Some(fundraiser.bump),
            },
        ),
        vault.amount < fundraiser.amount_of_mint ==> (Done { fundraiser, vault }).done_answer()
            == Err::<TokenTransfer, ProgramFault>(
            ProgramFault::Fundraiser(FundraiserError::TargetNotMet),
        ),
{
}

/// The vault's balance decides between collection and refund: for every
/// fundraiser and vault, exactly one of the two passes its target check.
pub proof fn exactly_one_of_collection_and_refund_passes_the_target_check(
    fundraiser: Fundraiser,
    vault: TokenAccount,
    contributor_acc: Contributor,
    now: i64,
)
    requires
        0 <= now - fundraiser.time_started < 86400,
    ensures
        (Done { fundraiser, vault }).done_answer() is Ok != ((Refund {
            fundraiser,
            contributor_acc,
            vault,
        }).refund_answer(Ok(now)) is Ok),
{
    let d = now - fundraiser.time_started;
    assert(d / 86400 == 0) by (nonlinear_arith)
        requires
            0 <= d < 86400,
    ;
}

/// A refund is owed while the clock reads no more than `end_time` whole
/// days after the start and the vault holds less than the target: the
/// contributor's whole total moves from the vault back to the contributor's
/// token account, signed by the fundraiser with its bump. Past `end_time`
/// days (and fewer than 256) it is refused as not ended; with the target
/// met it is refused as met.
pub proof fn a_refund_is_owed_within_the_period_below_the_target(refund: Refund, now: i64)
    requires
        0 <= now - refund.fundraiser.time_started < 256 * 86400,
    ensures
        now - refund.fundraiser.time_started < (refund.fundraiser.end_time + 1) * 86400
            && refund.vault.amount < refund.fundraiser.amount_of_mint ==> refund.refund_answer(
            Ok(now),
        ) == Ok::<TokenTransfer, ProgramFault>(
            TokenTransfer {
                from: TokenHolder::Vault,
                to: TokenHolder::ContributorTokenAccount,
                amount: refund.contributor_acc.amount,
                signer_bump: Some(refund.fundraiser.bump),
            },
        ),
        now - refund.fundraiser.time_started < (refund.fundraiser.end_time + 1) * 86400
            && refund.vault.amount >= refund.fundraiser.amount_of_mint ==> refund.refund_answer(
            Ok(now),
        ) == Err::<TokenTransfer, ProgramFault>(
            ProgramFault::Fundraiser(FundraiserError::TargetMet),
        ),
        now - refund.fundraiser.time_started >= (refund.fundraiser.end_time + 1) * 86400
            ==> refund.refund_answer(Ok(now)) == Err::<TokenTransfer, ProgramFault>(
            ProgramFault::Fundraiser(FundraiserError::FundraiserNotEnded),
        ),
        !refund.refund_aborts(Ok(now)),
{
    let d = now - refund.fundraiser.time_started;
    let e = refund.fundraiser.end_time as int;
    assert(d < (e + 1) * 86400 ==> d / 86400 <= e) by (nonlinear_arith)
        requires
            0 <= d,
            0 <= e,
    ;
    assert(d >= (e + 1) * 86400 ==> d / 86400 > e) by (nonlinear_arith)
        requires
            0 <= d,
            0 <= e,
    ;
    assert(d / 86400 < 256) by (nonlinear_arith)
        requires
            0 <= d < 256 * 86400,
    ;
}

/// The fundraiser that a start writes: the admin's and the mint's
/// addresses, the target, nothing collected, the start time read from the
/// clock, the duration and the bump.
pub proof fn a_start_records_the_time_read(
    init: Init,
    amount: u64,
    duration: u8,
    bumps: InitBumps,
    now: i64,
)
    ensures
        ({
            let f = init.initialized(amount, duration, bumps, now);
            &&& f.admin == init.admin
            &&& f.which_mint == init.which_mint
            &&& f.amount_of_mint == amount
            &&& f.current_amount == 0
            &&& f.time_started == now
            &&& f.end_time == duration
            &&& f.bump == bumps.fundraiser
        }),
{
}

/// The byte-level refund is owed whatever the fundraiser has collected or
/// aims at: for a signing contributor, a readable vault, an initialized
/// fundraiser and record of the right sizes and a readable mint, it asks
/// for the transfer of the recorded amount from the vault back to the
/// contributor's token account, signed by the fundraiser's address (the
/// maker's account and the stored bump), then for the record to close into
/// the contributor.
pub proof fn a_native_refund_transfers_the_record_whatever_the_totals(
    accounts: Seq<AccountSnapshot>,
    fundraiser_data: Seq<u8>,
    contributor_data: Seq<u8>,
)
    requires
        accounts.len() >= 9,
        accounts[0].is_signer,
        accounts[6].token_account_owner is Ok,
        fundraiser_data.len() == FUNDRAISER_LEN,
        fundraiser_data[0] != 0,
        contributor_data.len() == CONTRIBUTE_LEN,
        contributor_data[0] != 0,
        accounts[2].mint_decimals is Ok,
    ensures
        refund_outcome(accounts, fundraiser_data, contributor_data) == Ok::<
            Seq<Action>,
            ProgramFault,
        >(
            seq![
                Action::TransferChecked {
                    from: 6,
                    mint: 2,
                    to: 5,
                    authority: 3,
                    amount: u64_at(contributor_data, 8),
                    decimals: accounts[2].mint_decimals->Ok_0,
                    signer: Some(FundraiserSeeds { maker: 1, bump: fundraiser_data[97] }),
                },
                Action::CloseInto { closed: 4, receiver: 0 },
            ],
        ),
{
}

/// The byte-level collection is owed to a maker who does not sign, on an
/// initialized fundraiser of the right size and a readable mint: it asks
/// for the transfer of the fundraiser's current amount from the vault to
/// the maker's token account, then for the vault and the fundraiser to
/// close into the maker, the token steps signed by the fundraiser's address.
pub proof fn a_native_collection_moves_the_current_amount(
    accounts: Seq<AccountSnapshot>,
    fundraiser_data: Seq<u8>,
)
    requires
        accounts.len() >= 7,
        !accounts[0].is_signer,
        fundraiser_data.len() == FUNDRAISER_LEN,
        fundraiser_data[0] != 0,
        accounts[2].mint_decimals is Ok,
    ensures
        checkers_outcome(accounts, fundraiser_data) == Ok::<Seq<Action>, ProgramFault>(
            seq![
                Action::TransferChecked {
                    from: 4,
                    mint: 2,
                    to: 1,
                    authority: 3,
                    amount: u64_at(fundraiser_data, 80),
                    decimals: accounts[2].mint_decimals->Ok_0,
                    signer: Some(FundraiserSeeds { maker: 0, bump: fundraiser_data[97] }),
                },
                Action::CloseTokenAccount {
                    account: 4,
                    destination: 0,
                    authority: 3,
                    signer: FundraiserSeeds { maker: 0, bump: fundraiser_data[97] },
                },
                Action::CloseInto { closed: 3, receiver: 0 },
            ],
        ),
{
}

/// The byte-level start is owed to a signing maker whose account and the
/// fundraiser's are empty, with a readable vault, a readable rent sysvar and
/// instruction data of the right size.
pub proof fn a_native_start_is_accepted(
    accounts: Seq<AccountSnapshot>,
    instruction_data: Seq<u8>,
)
    requires
        accounts.len() >= 6,
        accounts[0].is_signer,
        accounts[0].data_len == 0,
        accounts[2].data_len == 0,
        accounts[3].token_account_owner is Ok,
        instruction_data.len() == 16,
    ensures
        initialize_outcome(accounts, instruction_data, Ok(())) == Ok::<(), ProgramFault>(()),
{
}

/// The steps of a byte-level contribution: the record's account, when
/// missing, is created by the contributor with the record's size, owned by
/// the program and signed with the seeds of the fundraiser, the contributor
/// and the bump given; the contribution moves from the contributor's token
/// account into the vault, signed by the contributor.
pub proof fn native_contribution_steps(program_id: [u8; 32], bump: u8, amount: u64, decimals: u8)
    ensures
        record_account_creation(program_id, bump) == (Action::CreateAccount {
            from: 0,
            to: 3,
            space: 16,
            owner: program_id,
            signer: ContributorSeeds { fundraiser: 2, contributor: 0, bump },
        }),
        contribution_transfer(amount, decimals) == (Action::TransferChecked {
            from: 4,
            mint: 1,
            to: 5,
            authority: 0,
            amount,
            decimals,
            signer: None,
        }),
{
}

} // verus!
