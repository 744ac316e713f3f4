use fundraiser::errors::ProgramFault;
use fundraiser::instruction::{
    split_instruction, ContributeInstructionData, FundraiserInstruction, InitializeInstructionData,
    INSTRUCTION_DATA_LEN,
};

fn data_bytes(amount: u64, a: u8, b: u8) -> Vec<u8> {
    let mut v = amount.to_le_bytes().to_vec();
    v.push(a);
    v.push(b);
    v.extend_from_slice(&[0u8; 6]);
    v
}

#[test]
fn discriminators_name_the_instructions_in_order() {
    assert_eq!(FundraiserInstruction::try_from(&0u8), Ok(FundraiserInstruction::Initialize));
    assert_eq!(FundraiserInstruction::try_from(&1u8), Ok(FundraiserInstruction::Contribute));
    assert_eq!(FundraiserInstruction::try_from(&2u8), Ok(FundraiserInstruction::Checks));
    assert_eq!(FundraiserInstruction::try_from(&3u8), Ok(FundraiserInstruction::Refund));
}

#[test]
fn unknown_discriminators_are_invalid_instruction_data() {
    assert_eq!(FundraiserInstruction::try_from(&4u8), Err(ProgramFault::InvalidInstructionData));
    assert_eq!(FundraiserInstruction::try_from(&255u8), Err(ProgramFault::InvalidInstructionData));
}

#[test]
fn split_instruction_takes_the_first_byte() {
    let data = [1u8, 10, 20, 30];
    let (ix, rest) = split_instruction(&data).unwrap();
    assert_eq!(ix, FundraiserInstruction::Contribute);
    assert_eq!(rest, &[10u8, 20, 30][..]);

    let only = [3u8];
    let (ix, rest) = split_instruction(&only).unwrap();
    assert_eq!(ix, FundraiserInstruction::Refund);
    assert!(rest.is_empty());
}

#[test]
fn split_instruction_refuses_empty_and_unknown_data() {
    assert_eq!(split_instruction(&[]).err(), Some(ProgramFault::InvalidInstructionData));
    assert_eq!(split_instruction(&[7u8, 1, 2]).err(), Some(ProgramFault::InvalidInstructionData));
}

#[test]
fn initialize_data_reads_its_fields() {
    let bytes = data_bytes(1_000_000, 30, 254);
    assert_eq!(bytes.len(), INSTRUCTION_DATA_LEN);
    let d = InitializeInstructionData::load(&bytes).unwrap();
    assert_eq!(d, InitializeInstructionData { amount: 1_000_000, duration: 30, bump: 254 });
}

#[test]
fn contribute_data_reads_its_fields() {
    let bytes = data_bytes(0x0102_0304_0506_0708, 251, 252);
    let d = ContributeInstructionData::load(&bytes).unwrap();
    assert_eq!(d.amount, 0x0102_0304_0506_0708);
    assert_eq!(d.fundraiser_bump, 251);
    assert_eq!(d.contributor_bump, 252);
}

#[test]
fn instruction_data_of_another_length_is_refused() {
    let bytes = data_bytes(5, 1, 2);
    assert_eq!(
        InitializeInstructionData::load(&bytes[..15]),
        Err(ProgramFault::InvalidInstructionData)
    );
    let mut longer = bytes.clone();
    longer.push(0);
    assert_eq!(
        ContributeInstructionData::load(&longer),
        Err(ProgramFault::InvalidInstructionData)
    );
    assert_eq!(ContributeInstructionData::load(&[]), Err(ProgramFault::InvalidInstructionData));
}
