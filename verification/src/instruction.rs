use vstd::prelude::*;
use vstd::std_specs::convert::TryFromSpecImpl;
use vstd::slice::slice_subrange;
use crate::errors::ProgramFault;
use crate::layout::{read_u64, u64_at};

verus! {

/// Size of the instruction data of `Initialize` and of `Contribute` (their C layout).
pub const INSTRUCTION_DATA_LEN: usize = 16;

/// The instructions of the fundraiser program, told apart by the first byte
/// of the instruction data: 0, 1, 2 and 3 in declaration order.
#[derive(Clone, Copy, Debug, PartialEq, Eq, Structural)]
pub enum FundraiserInstruction {
    Initialize,
    Contribute,
    Checks,
    Refund,
}

/// The instruction that a discriminator byte names, if any.
pub open spec fn instruction_of(value: u8) -> Option<FundraiserInstruction> {
    if value == 0 {
        Some(FundraiserInstruction::Initialize)
    } else if value == 1 {
        Some(FundraiserInstruction::Contribute)
    } else if value == 2 {
        Some(FundraiserInstruction::Checks)
    } else if value == 3 {
        Some(FundraiserInstruction::Refund)
    } else {
        None
    }
}

/// What decoding a discriminator byte gives: the instruction it names, or
/// `InvalidInstructionData`.
pub open spec fn decode_discriminator(value: u8) -> Result<FundraiserInstruction, ProgramFault> {
    match instruction_of(value) {
        Some(ix) => Ok(ix),
        None => Err(ProgramFault::InvalidInstructionData),
    }
}

impl TryFrom<&u8> for FundraiserInstruction {
    type Error = ProgramFault;

    fn try_from(value: &u8) -> (res: Result<FundraiserInstruction, ProgramFault>) {
        match *value {
            0 => Ok(FundraiserInstruction::Initialize),
            1 => Ok(FundraiserInstruction::Contribute),
            2 => Ok(FundraiserInstruction::Checks),
            3 => Ok(FundraiserInstruction::Refund),
            _ => Err(ProgramFault::InvalidInstructionData),
        }
    }
}

impl TryFromSpecImpl<&u8> for FundraiserInstruction {
    open spec fn obeys_try_from_spec() -> bool {
        true
    }

    open spec fn try_from_spec(value: &u8) -> Result<FundraiserInstruction, ProgramFault> {
        decode_discriminator(*value)
    }
}

/// Splits instruction data into the instruction its first byte names and the
/// rest of the data.
pub fn split_instruction(data: &[u8]) -> (res: Result<(FundraiserInstruction, &[u8]), ProgramFault>)
    ensures
        data@.len() == 0 ==> res == Err::<(FundraiserInstruction, &[u8]), ProgramFault>(
            ProgramFault::InvalidInstructionData,
        ),
        data@.len() > 0 ==> match decode_discriminator(data@[0]) {
            Ok(ix) => res matches Ok((found, rest)) && found == ix && rest@ == data@.skip(1),
            Err(e) => res == Err::<(FundraiserInstruction, &[u8]), ProgramFault>(e),
        },
{
    if data.len() == 0 {
        return Err(ProgramFault::InvalidInstructionData);
    }
    let ix = FundraiserInstruction::try_from(&data[0])?;
    let rest = slice_subrange(data, 1, data.len());
    assert(rest@ =~= data@.skip(1));
    Ok((ix, rest))
}

/// The data of an `Initialize` instruction.
///
/// Layout (`INSTRUCTION_DATA_LEN` bytes): little-endian `amount` at 0,
/// `duration` at 8, `bump` at 9, padding at 10 to 15.
#[derive(Clone, Copy, Debug, PartialEq, Eq, Structural)]
pub struct InitializeInstructionData {
    pub amount: u64,
    pub duration: u8,
    pub bump: u8,
}

/// The data of a `Contribute` instruction.
///
/// Layout (`INSTRUCTION_DATA_LEN` bytes): little-endian `amount` at 0,
/// `fundraiser_bump` at 8, `contributor_bump` at 9, padding at 10 to 15.
#[derive(Clone, Copy, Debug, PartialEq, Eq, Structural)]
pub struct ContributeInstructionData {
    pub amount: u64,
    pub fundraiser_bump: u8,
    pub contributor_bump: u8,
}

impl InitializeInstructionData {
    /// The data whose fields stand at their places in `data`.
    pub open spec fn is_encoded_in(self, data: Seq<u8>) -> bool {
        &&& data.len() == INSTRUCTION_DATA_LEN
        &&& self.amount == u64_at(data, 0)
        &&& self.duration == data[8]
        &&& self.bump == data[9]
    }

    /// Reads the instruction data; it must have exactly `INSTRUCTION_DATA_LEN` bytes.
    pub fn load(data: &[u8]) -> (res: Result<InitializeInstructionData, ProgramFault>)
        ensures
            res is Err <==> data@.len() != INSTRUCTION_DATA_LEN,
            res is Err ==> res == Err::<InitializeInstructionData, ProgramFault>(
                ProgramFault::InvalidInstructionData,
            ),
            res matches Ok(d) ==> d.is_encoded_in(data@),
    {
        if data.len() != INSTRUCTION_DATA_LEN {
            return Err(ProgramFault::InvalidInstructionData);
        }
        Ok(InitializeInstructionData { amount: read_u64(data, 0), duration: data[8], bump: data[9] })
    }
}

impl ContributeInstructionData {
    /// The data whose fields stand at their places in `data`.
    pub open spec fn is_encoded_in(self, data: Seq<u8>) -> bool {
        &&& data.len() == INSTRUCTION_DATA_LEN
        &&& self.amount == u64_at(data, 0)
        &&& self.fundraiser_bump == data[8]
        &&& self.contributor_bump == data[9]
    }

    /// Reads the instruction data; it must have exactly `INSTRUCTION_DATA_LEN` bytes.
    pub fn load(data: &[u8]) -> (res: Result<ContributeInstructionData, ProgramFault>)
        ensures
            res is Err <==> data@.len() != INSTRUCTION_DATA_LEN,
            res is Err ==> res == Err::<ContributeInstructionData, ProgramFault>(
                ProgramFault::InvalidInstructionData,
            ),
            res matches Ok(d) ==> d.is_encoded_in(data@),
    {
        if data.len() != INSTRUCTION_DATA_LEN {
            return Err(ProgramFault::InvalidInstructionData);
        }
        Ok(
            ContributeInstructionData {
                amount: read_u64(data, 0),
                fundraiser_bump: data[8],
                contributor_bump: data[9],
            },
        )
    }
}

} // verus!
