use vstd::prelude::*;
use crate::errors::ProgramFault;
use crate::instruction::{ContributeInstructionData, InitializeInstructionData, INSTRUCTION_DATA_LEN};
use crate::layout::{same_address, u64_at};
use crate::errors::is_runtime_fault;
use crate::layout::{read_u64, with_u64_at, write_u64};
use crate::state::{Contribute, Fundraiser, CONTRIBUTE_LEN, FUNDRAISER_LEN};
use pinocchio::sysvars::rent::Rent;
use pinocchio::sysvars::Sysvar;

verus! {

/// What an instruction sees of one of its accounts: its address, its owner,
/// whether it signed, the length of its data, and what reading it as a token
/// account (its owner) and as a mint (its decimals) gave.
#[derive(Clone, Copy, Debug)]
pub struct AccountSnapshot {
    pub key: [u8; 32],
    pub owner: [u8; 32],
    pub is_signer: bool,
    pub data_len: usize,
    pub token_account_owner: Result<[u8; 32], ProgramFault>,
    pub mint_decimals: Result<u8, ProgramFault>,
}

/// The seeds with which the fundraiser's program address signs: the word
/// `fundraiser`, the address of the maker's account (by its place in the
/// instruction's account list), and the bump.
#[derive(Clone, Copy, Debug, PartialEq, Eq, Structural)]
pub struct FundraiserSeeds {
    pub maker: usize,
    pub bump: u8,
}

/// The seeds with which the contributor's record address signs its own
/// creation: the word `contributor`, the addresses of the fundraiser's and
/// the contributor's accounts (by their places in the account list), and the
/// bump.
#[derive(Clone, Copy, Debug, PartialEq, Eq, Structural)]
pub struct ContributorSeeds {
    pub fundraiser: usize,
    pub contributor: usize,
    pub bump: u8,
}

/// One step that an accepted instruction asks the runtime for, accounts
/// named by their places in the instruction's account list. The steps of an
/// instruction run in order; the first that fails fails the instruction.
#[derive(Clone, Copy, Debug, PartialEq, Eq)]
pub enum Action {
    /// The token program's checked transfer of `amount` (of a mint with
    /// `decimals`) from token account `from` to token account `to`,
    /// authorized by `authority`; with `signer`, the authority is the
    /// fundraiser's program address, signing with those seeds.
    TransferChecked {
        from: usize,
        mint: usize,
        to: usize,
        authority: usize,
        amount: u64,
        decimals: u8,
        signer: Option<FundraiserSeeds>,
    },
    /// The token program's closing of token account `account` into
    /// `destination`, authorized by `authority`, the fundraiser's program
    /// address, signing with `signer`.
    CloseTokenAccount { account: usize, destination: usize, authority: usize, signer: FundraiserSeeds },
    /// The system program's creation of account `to`, funded by `from` with
    /// the rent-exempt balance for `space` bytes, with `space` bytes of data
    /// and owned by `owner`; `to` is a program address that signs with
    /// `signer`.
    CreateAccount { from: usize, to: usize, space: u64, owner: [u8; 32], signer: ContributorSeeds },
    /// The whole balance of account `closed` moves to account `receiver`
    /// (see `move_lamports`), and `closed` is closed.
    CloseInto { closed: usize, receiver: usize },
}

/// The transfer that an accepted `Contribute` asks for: the contribution,
/// from the contributor's token account to the vault, signed by the
/// contributor. Accounts as `process_contribute` lists them.
pub open spec fn contribution_transfer(amount: u64, decimals: u8) -> Action {
    Action::TransferChecked { from: 4, mint: 1, to: 5, authority: 0, amount, decimals, signer: None }
}

/// The creation of the contributor's record account that `Contribute` asks
/// for when the record is missing: `CONTRIBUTE_LEN` bytes owned by the
/// program, funded by the contributor, signed with the record's seeds.
/// Accounts as `process_contribute` lists them.
pub open spec fn record_account_creation(program_id: [u8; 32], bump: u8) -> Action {
    Action::CreateAccount {
        from: 0,
        to: 3,
        space: CONTRIBUTE_LEN as u64,
        owner: program_id,
        signer: ContributorSeeds { fundraiser: 2, contributor: 0, bump },
    }
}

/// What the first part of `Contribute` decided: the instruction data, and
/// the creation of the contributor's record account, when it must be
/// created before the second part runs.
#[derive(Clone, Copy, Debug, PartialEq, Eq)]
pub struct ContributeStart {
    pub instruction: ContributeInstructionData,
    pub create_contributor_account: Option<Action>,
}

/// Whether a token-account reading gave an owner other than `expected`.
pub open spec fn token_owner_differs(read: Result<[u8; 32], ProgramFault>, expected: [u8; 32]) -> bool {
    read matches Ok(owner) && owner@ != expected@
}

// ---------------------------------------------------------------- Initialize

/// `Initialize` aborts: the vault is a token account that the fundraiser does not own.
pub open spec fn initialize_aborts(accounts: Seq<AccountSnapshot>) -> bool {
    &&& accounts.len() >= 6
    &&& accounts[0].is_signer
    &&& accounts[0].data_len == 0
    &&& accounts[2].data_len == 0
    &&& token_owner_differs(accounts[3].token_account_owner, accounts[2].key)
}

/// Whether `process_initialize` would abort on these accounts; a caller that
/// cannot be checked tests this first and aborts in its place.
pub fn initialize_would_abort(accounts: &[AccountSnapshot]) -> (r: bool)
    ensures
        r == initialize_aborts(accounts@),
{
    accounts.len() >= 6 && accounts[0].is_signer && accounts[0].data_len == 0
        && accounts[2].data_len == 0 && token_owner_mismatch(
        &accounts[3].token_account_owner,
        &accounts[2].key,
    )
}

/// Whether a token-account reading gave an owner other than `expected`.
pub fn token_owner_mismatch(read: &Result<[u8; 32], ProgramFault>, expected: &[u8; 32]) -> (r: bool)
    ensures
        r == token_owner_differs(*read, *expected),
{
    match read {
        Ok(owner) => !same_address(owner, expected),
        Err(_) => false,
    }
}

/// What `Initialize` answers. Accounts: maker, mint, fundraiser, vault,
/// system program, token program.
pub open spec fn initialize_outcome(
    accounts: Seq<AccountSnapshot>,
    instruction_data: Seq<u8>,
    rent: Result<(), ProgramFault>,
) -> Result<(), ProgramFault> {
    if accounts.len() < 6 {
        Err(ProgramFault::InvalidAccountData)
    } else if !accounts[0].is_signer {
        Err(ProgramFault::MissingRequiredSignature)
    } else if accounts[0].data_len != 0 || accounts[2].data_len != 0 {
        Err(ProgramFault::AccountAlreadyInitialized)
    } else if accounts[3].token_account_owner is Err {
        Err(accounts[3].token_account_owner->Err_0)
    } else if rent is Err {
        Err(rent->Err_0)
    } else if instruction_data.len() != INSTRUCTION_DATA_LEN {
        Err(ProgramFault::InvalidInstructionData)
    } else {
        Ok(())
    }
}

/// `Rent::get` of `pinocchio`: reads the runtime's rent sysvar.
///
/// Trusted: the result is whether the read succeeded, or the error that it
/// failed with, as a `Runtime` fault carrying the builtin code; which of the
/// two comes back is not stated. The rent itself is not handed on.
#[verifier::external_body]
fn read_rent_sysvar() -> (res: Result<(), ProgramFault>)
    ensures
        is_runtime_fault(res),
{
    match Rent::get() {
        Ok(_) => Ok(()),
        Err(e) => Err(ProgramFault::Runtime(u64::from(e))),
    }
}

/// The `Initialize` instruction, reading the rent sysvar from the runtime;
/// see `process_initialize_with_rent`.
pub fn process_initialize(accounts: &[AccountSnapshot], instruction_data: &[u8]) -> (res: Result<
    (),
    ProgramFault,
>)
    requires
        !initialize_aborts(accounts@),
    ensures
        exists|rent: Result<(), ProgramFault>|
            is_runtime_fault(rent) && res == #[trigger] initialize_outcome(
                accounts@,
                instruction_data@,
                rent,
            ),
{
    let rent = read_rent_sysvar();
    process_initialize_with_rent(accounts, instruction_data, rent)
}

/// The `Initialize` instruction: checks the maker's signature, that the
/// maker's and the fundraiser's accounts are empty, that the vault is a token
/// account owned by the fundraiser, that the rent sysvar can be read, and the
/// length of the instruction data. It changes no account.
pub fn process_initialize_with_rent(
    accounts: &[AccountSnapshot],
    instruction_data: &[u8],
    rent: Result<(), ProgramFault>,
) -> (res: Result<(), ProgramFault>)
    requires
        !initialize_aborts(accounts@),
    ensures
        res == initialize_outcome(accounts@, instruction_data@, rent),
{
    if accounts.len() < 6 {
        return Err(ProgramFault::InvalidAccountData);
    }
    let maker = &accounts[0];
    let fundraiser = &accounts[2];
    let vault = &accounts[3];
    if !maker.is_signer {
        return Err(ProgramFault::MissingRequiredSignature);
    }
    if maker.data_len != 0 {
        return Err(ProgramFault::AccountAlreadyInitialized);
    }
    if fundraiser.data_len != 0 {
        return Err(ProgramFault::AccountAlreadyInitialized);
    }
    let vault_owner = match &vault.token_account_owner {
        Ok(owner) => owner,
        Err(e) => return Err(*e),
    };
    assert(vault_owner@ == fundraiser.key@);
    match rent {
        Ok(()) => {},
        Err(e) => return Err(e),
    }
    let _ix = InitializeInstructionData::load(instruction_data)?;
    Ok(())
}

// ---------------------------------------------------------------- Contribute

/// The first part of `Contribute` aborts: the vault is not owned by the
/// fundraiser, or the contributor's token account not by the contributor.
pub open spec fn contribute_aborts(accounts: Seq<AccountSnapshot>) -> bool {
    &&& accounts.len() >= 8
    &&& accounts[0].is_signer
    &&& {
        ||| token_owner_differs(accounts[5].token_account_owner, accounts[2].key)
        ||| accounts[5].token_account_owner is Ok && token_owner_differs(
            accounts[4].token_account_owner,
            accounts[0].key,
        )
    }
}

/// Whether `process_contribute` would abort on these accounts; a caller
/// that cannot be checked tests this first and aborts in its place.
pub fn contribute_would_abort(accounts: &[AccountSnapshot]) -> (r: bool)
    ensures
        r == contribute_aborts(accounts@),
{
    accounts.len() >= 8 && accounts[0].is_signer && (token_owner_mismatch(
        &accounts[5].token_account_owner,
        &accounts[2].key,
    ) || (accounts[5].token_account_owner.is_ok() && token_owner_mismatch(
        &accounts[4].token_account_owner,
        &accounts[0].key,
    )))
}

/// Whether the contributor's record account must be created: it is empty or
/// the program does not own it.
pub open spec fn needs_contributor_account(program_id: [u8; 32], record: AccountSnapshot) -> bool {
    record.data_len == 0 || record.owner@ != program_id@
}

/// The first part of `Contribute`. Accounts: contributor, mint, fundraiser,
/// contributor's record, contributor's token account, vault, token program,
/// system program. It checks the signature and the owners of the two token
/// accounts, reads the instruction data, and, when the record account is
/// missing, answers its creation (`record_account_creation`)
/// before `complete_contribute` runs.
pub fn process_contribute(
    program_id: &[u8; 32],
    accounts: &[AccountSnapshot],
    instruction_data: &[u8],
) -> (res: Result<ContributeStart, ProgramFault>)
    requires
        !contribute_aborts(accounts@),
    ensures
        accounts@.len() < 8 ==> res == Err::<ContributeStart, ProgramFault>(
            ProgramFault::InvalidAccountData,
        ),
        accounts@.len() >= 8 ==> {
            let a = accounts@;
            if !a[0].is_signer {
                res == Err::<ContributeStart, ProgramFault>(ProgramFault::MissingRequiredSignature)
            } else if a[5].token_account_owner is Err {
                res == Err::<ContributeStart, ProgramFault>(a[5].token_account_owner->Err_0)
            } else if a[4].token_account_owner is Err {
                res == Err::<ContributeStart, ProgramFault>(a[4].token_account_owner->Err_0)
            } else if instruction_data@.len() != INSTRUCTION_DATA_LEN {
                res == Err::<ContributeStart, ProgramFault>(ProgramFault::InvalidInstructionData)
            } else {
                res matches Ok(start) && start.instruction.is_encoded_in(instruction_data@)
                    && start.create_contributor_account == if needs_contributor_account(
                    *program_id,
                    a[3],
                ) {
                    Some(record_account_creation(*program_id, start.instruction.contributor_bump))
                } else {
                    None
                }
            }
        },
{
    if accounts.len() < 8 {
        return Err(ProgramFault::InvalidAccountData);
    }
    let contributor = &accounts[0];
    let fundraiser = &accounts[2];
    let contributor_acc = &accounts[3];
    let contributor_ata = &accounts[4];
    let vault = &accounts[5];
    if !contributor.is_signer {
        return Err(ProgramFault::MissingRequiredSignature);
    }
    let vault_owner = match &vault.token_account_owner {
        Ok(owner) => owner,
        Err(e) => return Err(*e),
    };
    assert(vault_owner@ == fundraiser.key@);
    let ata_owner = match &contributor_ata.token_account_owner {
        Ok(owner) => owner,
        Err(e) => return Err(*e),
    };
    assert(ata_owner@ == contributor.key@);
    let instruction = ContributeInstructionData::load(instruction_data)?;
    let owned = same_address(&contributor_acc.owner, program_id);
    let create_contributor_account = if contributor_acc.data_len == 0 || !owned {
        Some(
            Action::CreateAccount {
                from: 0,
                to: 3,
                space: CONTRIBUTE_LEN as u64,
                owner: *program_id,
                signer: ContributorSeeds {
                    fundraiser: 2,
                    contributor: 0,
                    bump: instruction.contributor_bump,
                },
            },
        )
    } else {
        None
    };
    Ok(ContributeStart { instruction, create_contributor_account })
}

/// The second part of `Contribute`, once the record account exists. It
/// reads the mint's decimals, the contributor's record and the fundraiser
/// (both whatever their flags), sets the record to initialized with the
/// contribution, and asks for the transfer of the contribution into the
/// vault. After the transfer, `record_contribution` adds it to both totals.
pub fn complete_contribute(
    start: &ContributeStart,
    mint_decimals: Result<u8, ProgramFault>,
    contributor_data: &mut [u8],
    fundraiser_data: &[u8],
) -> (res: Result<Action, ProgramFault>)
    ensures
        mint_decimals is Err ==> res == Err::<Action, ProgramFault>(mint_decimals->Err_0),
        mint_decimals is Ok && old(contributor_data)@.len() != CONTRIBUTE_LEN ==> res == Err::<
            Action,
            ProgramFault,
        >(ProgramFault::InvalidAccountData),
        mint_decimals is Ok && old(contributor_data)@.len() == CONTRIBUTE_LEN
            && fundraiser_data@.len() != FUNDRAISER_LEN ==> res == Err::<Action, ProgramFault>(
            ProgramFault::InvalidAccountData,
        ),
        res is Ok <==> (mint_decimals is Ok && old(contributor_data)@.len() == CONTRIBUTE_LEN
            && fundraiser_data@.len() == FUNDRAISER_LEN),
        res is Err ==> final(contributor_data)@ == old(contributor_data)@,
        res matches Ok(action) ==> {
            &&& action == contribution_transfer(start.instruction.amount, mint_decimals->Ok_0)
            &&& final(contributor_data)@ == (Contribute {
                is_initialized: true,
                amount: start.instruction.amount,
            }).written_into(old(contributor_data)@)
        },
{
    let decimals = match mint_decimals {
        Ok(d) => d,
        Err(e) => return Err(e),
    };
    let mut record = Contribute::load_unchecked(contributor_data)?;
    let _fundraiser = Fundraiser::load_unchecked(fundraiser_data)?;
    let amount = start.instruction.amount;
    record.initialize(amount);
    record.store(contributor_data);
    Ok(Action::TransferChecked { from: 4, mint: 1, to: 5, authority: 0, amount, decimals, signer: None })
}

/// `record_contribution` aborts: adding the contribution overflows the
/// record's amount or the fundraiser's current amount (or the data no
/// longer have their lengths).
pub open spec fn record_contribution_aborts(
    start: ContributeStart,
    contributor_data: Seq<u8>,
    fundraiser_data: Seq<u8>,
) -> bool {
    ||| contributor_data.len() != CONTRIBUTE_LEN
    ||| fundraiser_data.len() != FUNDRAISER_LEN
    ||| u64_at(contributor_data, 8) + start.instruction.amount > u64::MAX
    ||| u64_at(fundraiser_data, 80) + start.instruction.amount > u64::MAX
}

/// Whether `record_contribution` would abort on these inputs; a caller that
/// cannot be checked tests this first and aborts in its place.
pub fn record_contribution_would_abort(
    start: &ContributeStart,
    contributor_data: &[u8],
    fundraiser_data: &[u8],
) -> (r: bool)
    ensures
        r == record_contribution_aborts(*start, contributor_data@, fundraiser_data@),
{
    if contributor_data.len() != CONTRIBUTE_LEN || fundraiser_data.len() != FUNDRAISER_LEN {
        return true;
    }
    let amount = start.instruction.amount;
    read_u64(contributor_data, 8) > u64::MAX - amount || read_u64(fundraiser_data, 80) > u64::MAX
        - amount
}

/// The last part of `Contribute`, after the transfer: the contribution is
/// added to the record's amount and to the fundraiser's current amount; no
/// other byte changes.
pub fn record_contribution(
    start: &ContributeStart,
    contributor_data: &mut [u8],
    fundraiser_data: &mut [u8],
)
    requires
        !record_contribution_aborts(*start, old(contributor_data)@, old(fundraiser_data)@),
    ensures
        final(contributor_data)@ == with_u64_at(
            old(contributor_data)@,
            8,
            (u64_at(old(contributor_data)@, 8) + start.instruction.amount) as u64,
        ),
        final(fundraiser_data)@ == with_u64_at(
            old(fundraiser_data)@,
            80,
            (u64_at(old(fundraiser_data)@, 80) + start.instruction.amount) as u64,
        ),
{
    let amount = start.instruction.amount;
    let recorded = read_u64(contributor_data, 8);
    write_u64(contributor_data, 8, recorded + amount);
    let current = read_u64(fundraiser_data, 80);
    write_u64(fundraiser_data, 80, current + amount);
}

// ---------------------------------------------------------------- Checks

/// What the `Checks` instruction answers. Accounts: maker, maker's token
/// account, mint, fundraiser, vault, token program, system program. When it
/// accepts, it asks for the transfer of the fundraiser's current amount from
/// the vault to the maker's token account, then for the closing of the
/// vault into the maker, both signed by the fundraiser's program address,
/// then for the fundraiser's balance to move to the maker and the
/// fundraiser's account to close.
pub open spec fn checkers_outcome(
    accounts: Seq<AccountSnapshot>,
    fundraiser_data: Seq<u8>,
) -> Result<Seq<Action>, ProgramFault> {
    if accounts.len() < 7 {
        Err(ProgramFault::InvalidAccountData)
    } else if accounts[0].is_signer {
        Err(ProgramFault::MissingRequiredSignature)
    } else if fundraiser_data.len() != FUNDRAISER_LEN {
        Err(ProgramFault::InvalidAccountData)
    } else if fundraiser_data[0] == 0 {
        Err(ProgramFault::UninitializedAccount)
    } else if accounts[2].mint_decimals is Err {
        Err(accounts[2].mint_decimals->Err_0)
    } else {
        let seeds = FundraiserSeeds { maker: 0, bump: fundraiser_data[97] };
        Ok(
            seq![
                Action::TransferChecked {
                    from: 4,
                    mint: 2,
                    to: 1,
                    authority: 3,
                    amount: u64_at(fundraiser_data, 80),
                    decimals: accounts[2].mint_decimals->Ok_0,
                    signer: Some(seeds),
                },
                Action::CloseTokenAccount { account: 4, destination: 0, authority: 3, signer: seeds },
                Action::CloseInto { closed: 3, receiver: 0 },
            ],
        )
    }
}

/// The `Checks` instruction: it refuses a signing maker, reads the
/// fundraiser (which must be initialized) and the mint's decimals, and
/// answers the steps that `checkers_outcome` lists.
pub fn process_checkers(accounts: &[AccountSnapshot], fundraiser_data: &[u8]) -> (res: Result<
    [Action; 3],
    ProgramFault,
>)
    ensures
        match checkers_outcome(accounts@, fundraiser_data@) {
            Ok(steps) => res matches Ok(actions) && actions@ == steps,
            Err(e) => res == Err::<[Action; 3], ProgramFault>(e),
        },
{
    if accounts.len() < 7 {
        return Err(ProgramFault::InvalidAccountData);
    }
    let maker = &accounts[0];
    let mint = &accounts[2];
    if maker.is_signer {
        return Err(ProgramFault::MissingRequiredSignature);
    }
    let fundraiser = Fundraiser::load(fundraiser_data)?;
    let decimals = match mint.mint_decimals {
        Ok(d) => d,
        Err(e) => return Err(e),
    };
    let seeds = FundraiserSeeds { maker: 0, bump: fundraiser.bump };
    let actions = [
        Action::TransferChecked {
            from: 4,
            mint: 2,
            to: 1,
            authority: 3,
            amount: fundraiser.current_amount,
            decimals,
            signer: Some(seeds),
        },
        Action::CloseTokenAccount { account: 4, destination: 0, authority: 3, signer: seeds },
        Action::CloseInto { closed: 3, receiver: 0 },
    ];
    assert(actions@ =~= checkers_outcome(accounts@, fundraiser_data@)->Ok_0);
    Ok(actions)
}

// ---------------------------------------------------------------- Refund

/// `Refund` aborts: the vault is not owned by the fundraiser.
pub open spec fn refund_aborts(accounts: Seq<AccountSnapshot>) -> bool {
    &&& accounts.len() >= 9
    &&& accounts[0].is_signer
    &&& token_owner_differs(accounts[6].token_account_owner, accounts[3].key)
}

/// Whether `process_refund` would abort on these accounts; a caller that
/// cannot be checked tests this first and aborts in its place.
pub fn refund_would_abort(accounts: &[AccountSnapshot]) -> (r: bool)
    ensures
        r == refund_aborts(accounts@),
{
    accounts.len() >= 9 && accounts[0].is_signer && token_owner_mismatch(
        &accounts[6].token_account_owner,
        &accounts[3].key,
    )
}

/// What the `Refund` instruction answers. Accounts: contributor, maker, mint,
/// fundraiser, contributor's record, contributor's token account, vault,
/// token program, system program. When it accepts, it asks for the transfer
/// of the recorded amount from the vault back to the contributor's token
/// account, signed by the fundraiser's program address, then for the
/// record's balance to move to the contributor and the record's account to
/// close. The fundraiser is left as it was.
pub open spec fn refund_outcome(
    accounts: Seq<AccountSnapshot>,
    fundraiser_data: Seq<u8>,
    contributor_data: Seq<u8>,
) -> Result<Seq<Action>, ProgramFault> {
    if accounts.len() < 9 {
        Err(ProgramFault::InvalidAccountData)
    } else if !accounts[0].is_signer {
        Err(ProgramFault::MissingRequiredSignature)
    } else if accounts[6].token_account_owner is Err {
        Err(accounts[6].token_account_owner->Err_0)
    } else if fundraiser_data.len() != FUNDRAISER_LEN {
        Err(ProgramFault::InvalidAccountData)
    } else if fundraiser_data[0] == 0 {
        Err(ProgramFault::UninitializedAccount)
    } else if contributor_data.len() != CONTRIBUTE_LEN {
        Err(ProgramFault::InvalidAccountData)
    } else if contributor_data[0] == 0 {
        Err(ProgramFault::UninitializedAccount)
    } else if accounts[2].mint_decimals is Err {
        Err(accounts[2].mint_decimals->Err_0)
    } else {
        Ok(
            seq![
                Action::TransferChecked {
                    from: 6,
                    mint: 2,
                    to: 5,
                    authority: 3,
                    amount: u64_at(contributor_data, 8),
                    decimals: accounts[2].mint_decimals->Ok_0,
                    signer: Some(FundraiserSeeds { maker: 1, bump: fundraiser_data[97] }),
                },
                Action::CloseInto { closed: 4, receiver: 0 },
            ],
        )
    }
}

/// The `Refund` instruction: it checks the contributor's signature and the
/// vault's owner, reads the fundraiser and the contributor's record (both
/// must be initialized) and the mint's decimals, and answers the steps that
/// `refund_outcome` lists.
pub fn process_refund(
    accounts: &[AccountSnapshot],
    fundraiser_data: &[u8],
    contributor_data: &[u8],
) -> (res: Result<[Action; 2], ProgramFault>)
    requires
        !refund_aborts(accounts@),
    ensures
        match refund_outcome(accounts@, fundraiser_data@, contributor_data@) {
            Ok(steps) => res matches Ok(actions) && actions@ == steps,
            Err(e) => res == Err::<[Action; 2], ProgramFault>(e),
        },
{
    if accounts.len() < 9 {
        return Err(ProgramFault::InvalidAccountData);
    }
    let contributor = &accounts[0];
    let mint = &accounts[2];
    let fundraiser_acc = &accounts[3];
    let vault = &accounts[6];
    if !contributor.is_signer {
        return Err(ProgramFault::MissingRequiredSignature);
    }
    let vault_owner = match &vault.token_account_owner {
        Ok(owner) => owner,
        Err(e) => return Err(*e),
    };
    assert(vault_owner@ == fundraiser_acc.key@);
    let fundraiser = Fundraiser::load(fundraiser_data)?;
    let record = Contribute::load(contributor_data)?;
    let decimals = match mint.mint_decimals {
        Ok(d) => d,
        Err(e) => return Err(e),
    };
    let actions = [
        Action::TransferChecked {
            from: 6,
            mint: 2,
            to: 5,
            authority: 3,
            amount: record.amount,
            decimals,
            signer: Some(FundraiserSeeds { maker: 1, bump: fundraiser.bump }),
        },
        Action::CloseInto { closed: 4, receiver: 0 },
    ];
    assert(actions@ =~= refund_outcome(accounts@, fundraiser_data@, contributor_data@)->Ok_0);
    Ok(actions)
}

/// The lamport move of `Action::CloseInto`: the receiver gets the whole
/// balance of the account being closed, which is left with none.
pub fn move_lamports(receiver: &mut u64, closed: &mut u64)
    requires
        *old(receiver) + *old(closed) <= u64::MAX,
    ensures
        *final(receiver) == *old(receiver) + *old(closed),
        *final(closed) == 0,
{
    *receiver = *receiver + *closed;
    *closed = 0;
}

} // verus!
