use fundraiser::errors::ProgramFault;
use fundraiser::state::{Contribute, Fundraiser, CONTRIBUTE_LEN, FUNDRAISER_LEN};

fn sample_fundraiser() -> Fundraiser {
    Fundraiser {
        admin: [7u8; 32],
        which_mint: [9u8; 32],
        amount_of_mint: 5_000,
        current_amount: 1_234,
        time_started: -86_401,
        end_time: 14,
        bump: 253,
    }
}

#[test]
fn fundraiser_reads_back_what_was_written() {
    let f = sample_fundraiser();
    let mut data = vec![0xAAu8; FUNDRAISER_LEN];
    f.store(&mut data);
    assert_eq!(Fundraiser::load(&data), Ok(f));
    // the flag and the padding are kept
    assert_eq!(data[0], 0xAA);
    assert_eq!(&data[65..72], &[0xAAu8; 7][..]);
    assert_eq!(&data[98..104], &[0xAAu8; 6][..]);
}

#[test]
fn fundraiser_layout_places_each_field() {
    let f = sample_fundraiser();
    let mut data = vec![0u8; FUNDRAISER_LEN];
    f.store(&mut data);
    assert_eq!(data[0], 0);
    assert_eq!(&data[1..33], &[7u8; 32][..]);
    assert_eq!(&data[33..65], &[9u8; 32][..]);
    assert_eq!(&data[72..80], &5_000u64.to_le_bytes()[..]);
    assert_eq!(&data[80..88], &1_234u64.to_le_bytes()[..]);
    assert_eq!(&data[88..96], &(-86_401i64).to_le_bytes()[..]);
    assert_eq!(data[96], 14);
    assert_eq!(data[97], 253);
}

#[test]
fn uninitialized_fundraiser_is_refused_by_checked_load_only() {
    let f = sample_fundraiser();
    let mut data = vec![0u8; FUNDRAISER_LEN];
    f.store(&mut data);
    assert_eq!(Fundraiser::load(&data), Err(ProgramFault::UninitializedAccount));
    assert_eq!(Fundraiser::load_unchecked(&data), Ok(f));
    data[0] = 1;
    assert_eq!(Fundraiser::load(&data), Ok(f));
}

#[test]
fn fundraiser_of_another_length_is_invalid_account_data() {
    assert_eq!(Fundraiser::load(&[1u8; 103]), Err(ProgramFault::InvalidAccountData));
    assert_eq!(Fundraiser::load(&[1u8; 105]), Err(ProgramFault::InvalidAccountData));
    assert_eq!(Fundraiser::load_unchecked(&[1u8; 96]), Err(ProgramFault::InvalidAccountData));
    assert_eq!(Fundraiser::load(&[]), Err(ProgramFault::InvalidAccountData));
}

#[test]
fn contribute_record_reads_back_what_was_written() {
    let c = Contribute { is_initialized: true, amount: 77 };
    let mut data = vec![0x55u8; CONTRIBUTE_LEN];
    c.store(&mut data);
    assert_eq!(data[0], 1);
    assert_eq!(&data[1..8], &[0x55u8; 7][..]);
    assert_eq!(&data[8..16], &77u64.to_le_bytes()[..]);
    assert_eq!(Contribute::load(&data), Ok(c));
    assert_eq!(Contribute::load_unchecked(&data), Ok(c));
}

#[test]
fn contribute_record_flag_reads_any_nonzero_byte_as_set() {
    let mut data = vec![0u8; CONTRIBUTE_LEN];
    data[0] = 7;
    data[8] = 3;
    assert_eq!(Contribute::load(&data), Ok(Contribute { is_initialized: true, amount: 3 }));
}

#[test]
fn uninitialized_record_is_refused_by_checked_load_only() {
    let mut data = vec![0u8; CONTRIBUTE_LEN];
    data[8] = 9;
    assert_eq!(Contribute::load(&data), Err(ProgramFault::UninitializedAccount));
    assert_eq!(
        Contribute::load_unchecked(&data),
        Ok(Contribute { is_initialized: false, amount: 9 })
    );
    assert_eq!(Contribute::load(&data[..15]), Err(ProgramFault::InvalidAccountData));
    assert_eq!(Contribute::load_unchecked(&[0u8; 17]), Err(ProgramFault::InvalidAccountData));
}

#[test]
fn initialize_sets_flag_and_amount() {
    let mut c = Contribute { is_initialized: false, amount: 500 };
    assert!(!c.is_initialized());
    c.initialize(42);
    assert!(c.is_initialized());
    assert_eq!(c.amount, 42);
}

#[test]
fn cleared_flag_is_written_as_zero() {
    let c = Contribute { is_initialized: false, amount: 1 };
    let mut data = vec![9u8; CONTRIBUTE_LEN];
    c.store(&mut data);
    assert_eq!(data[0], 0);
    assert_eq!(Contribute::load(&data), Err(ProgramFault::UninitializedAccount));
}

#[test]
fn default_record_is_not_initialized() {
    let mut c = Contribute::default();
    assert!(!c.is_initialized());
    assert_eq!(c.amount, 0);
    c.initialize(3);
    assert!(c.is_initialized());
}
