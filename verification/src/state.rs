use vstd::prelude::*;
use crate::errors::ProgramFault;
use vstd::bytes::{lemma_auto_spec_u64_to_from_le_bytes, spec_u64_to_le_bytes};
use crate::layout::{
    address_at, i64_at, lemma_i64_bits_roundtrip, lemma_with_bytes_at, read_address, read_i64, read_u64, u64_at,
    with_bytes_at, with_i64_at, with_u64_at, write_bytes, write_i64, write_u64,
};

verus! {

/// Size of the account data that holds a `Fundraiser` (its C layout with a
/// leading initialized flag, padded to 8).
pub const FUNDRAISER_LEN: usize = 104;

/// Size of the account data that holds a `Contribute` record (its C layout).
pub const CONTRIBUTE_LEN: usize = 16;

/// The state of one fundraiser.
///
/// Byte layout in account data (`FUNDRAISER_LEN` bytes): the initialized
/// flag at 0 (any nonzero byte reads as set), the admin's address at 1, the
/// mint's address at 33, padding at 65 to 71, then little-endian
/// `amount_of_mint` at 72, `current_amount` at 80, `time_started` at 88, then
/// `end_time` at 96 and `bump` at 97; bytes 98 to 103 are padding.
#[derive(Clone, Copy, Debug, PartialEq, Eq)]
pub struct Fundraiser {
    /// The one who started the fundraiser.
    pub admin: [u8; 32],
    /// The mint of the token being raised.
    pub which_mint: [u8; 32],
    /// The target amount.
    pub amount_of_mint: u64,
    /// The amount collected so far.
    pub current_amount: u64,
    /// Unix time at which the fundraiser started.
    pub time_started: i64,
    /// Duration of the fundraiser, in days.
    pub end_time: u8,
    /// Bump of the fundraiser's program address.
    pub bump: u8,
}

/// What one contributor gave to a fundraiser.
#[derive(Clone, Copy, Debug, PartialEq, Eq, Structural)]
pub struct Contributor {
    /// The amount contributed.
    pub amount: u64,
}

/// A contributor's record, kept in its own account.
///
/// Byte layout (`CONTRIBUTE_LEN` bytes): the initialized flag at 0 (any
/// nonzero byte reads as set, a set flag is written as 1), padding at 1 to 7,
/// little-endian `amount` at 8.
#[derive(Clone, Copy, Debug, PartialEq, Eq, Structural)]
pub struct Contribute {
    pub is_initialized: bool,
    pub amount: u64,
}

impl Fundraiser {
    /// The fundraiser whose fields stand at their places in `data`.
    pub open spec fn is_encoded_in(self, data: Seq<u8>) -> bool {
        &&& data.len() == FUNDRAISER_LEN
        &&& self.admin@ == address_at(data, 1)
        &&& self.which_mint@ == address_at(data, 33)
        &&& self.amount_of_mint == u64_at(data, 72)
        &&& self.current_amount == u64_at(data, 80)
        &&& self.time_started == i64_at(data, 88)
        &&& self.end_time == data[96]
        &&& self.bump == data[97]
    }

    /// `data` with every field written at its place; the flag and the
    /// padding are kept.
    pub open spec fn written_into(self, data: Seq<u8>) -> Seq<u8> {
        let d0 = with_bytes_at(data, 1, self.admin@);
        let d1 = with_bytes_at(d0, 33, self.which_mint@);
        let d2 = with_u64_at(d1, 72, self.amount_of_mint);
        let d3 = with_u64_at(d2, 80, self.current_amount);
        let d4 = with_i64_at(d3, 88, self.time_started);
        d4.update(96, self.end_time).update(97, self.bump)
    }

    /// Reads a fundraiser whatever its flag; the data must have exactly
    /// `FUNDRAISER_LEN` bytes.
    pub fn load_unchecked(data: &[u8]) -> (res: Result<Fundraiser, ProgramFault>)
        ensures
            res is Err <==> data@.len() != FUNDRAISER_LEN,
            res is Err ==> res == Err::<Fundraiser, ProgramFault>(ProgramFault::InvalidAccountData),
            res matches Ok(f) ==> f.is_encoded_in(data@),
    {
        if data.len() != FUNDRAISER_LEN {
            return Err(ProgramFault::InvalidAccountData);
        }
        Ok(Fundraiser {
            admin: read_address(data, 1),
            which_mint: read_address(data, 33),
            amount_of_mint: read_u64(data, 72),
            current_amount: read_u64(data, 80),
            time_started: read_i64(data, 88),
            end_time: data[96],
            bump: data[97],
        })
    }

    /// Reads a fundraiser that must be initialized: data of another length
    /// is `InvalidAccountData`, a clear flag is `UninitializedAccount`.
    pub fn load(data: &[u8]) -> (res: Result<Fundraiser, ProgramFault>)
        ensures
            data@.len() != FUNDRAISER_LEN ==> res == Err::<Fundraiser, ProgramFault>(
                ProgramFault::InvalidAccountData,
            ),
            data@.len() == FUNDRAISER_LEN && data@[0] == 0 ==> res == Err::<
                Fundraiser,
                ProgramFault,
            >(ProgramFault::UninitializedAccount),
            res is Ok <==> (data@.len() == FUNDRAISER_LEN && data@[0] != 0),
            res matches Ok(f) ==> f.is_encoded_in(data@),
    {
        let fundraiser = Self::load_unchecked(data)?;
        if data[0] == 0 {
            return Err(ProgramFault::UninitializedAccount);
        }
        Ok(fundraiser)
    }

    /// Writes every field of the fundraiser at its place in the account data;
    /// the flag and the padding are left as they are.
    pub fn store(&self, data: &mut [u8])
        requires
            old(data)@.len() == FUNDRAISER_LEN,
        ensures
            final(data)@ == self.written_into(old(data)@),
            self.is_encoded_in(final(data)@),
            final(data)@[0] == old(data)@[0],
            final(data)@.subrange(65, 72) == old(data)@.subrange(65, 72),
            final(data)@.subrange(98, 104) == old(data)@.subrange(98, 104),
    {
        write_bytes(data, 1, self.admin.as_slice());
        write_bytes(data, 33, self.which_mint.as_slice());
        write_u64(data, 72, self.amount_of_mint);
        write_u64(data, 80, self.current_amount);
        write_i64(data, 88, self.time_started);
        data[96] = self.end_time;
        data[97] = self.bump;
        proof {
            lemma_fundraiser_written_into(*self, old(data)@);
        }
    }
}

/// A fundraiser written into account data reads back as itself, and the
/// flag and the padding are left as they were.
pub proof fn lemma_fundraiser_written_into(f: Fundraiser, data: Seq<u8>)
    requires
        data.len() == FUNDRAISER_LEN,
    ensures
        f.is_encoded_in(f.written_into(data)),
        f.written_into(data)[0] == data[0],
        f.written_into(data).subrange(65, 72) == data.subrange(65, 72),
        f.written_into(data).subrange(98, 104) == data.subrange(98, 104),
{
    lemma_auto_spec_u64_to_from_le_bytes();
    let e2 = spec_u64_to_le_bytes(f.amount_of_mint);
    let e3 = spec_u64_to_le_bytes(f.current_amount);
    let e4 = spec_u64_to_le_bytes(f.time_started as u64);
    let d0 = with_bytes_at(data, 1, f.admin@);
    let d1 = with_bytes_at(d0, 33, f.which_mint@);
    let d2 = with_bytes_at(d1, 72, e2);
    let d3 = with_bytes_at(d2, 80, e3);
    let d4 = with_bytes_at(d3, 88, e4);
    let d5 = d4.update(96, f.end_time).update(97, f.bump);
    assert(d5 == f.written_into(data));
    lemma_with_bytes_at(data, 1, f.admin@);
    lemma_with_bytes_at(d0, 33, f.which_mint@);
    lemma_with_bytes_at(d1, 72, e2);
    lemma_with_bytes_at(d2, 80, e3);
    lemma_with_bytes_at(d3, 88, e4);
    assert(address_at(d5, 1) =~= f.admin@);
    assert(address_at(d5, 33) =~= f.which_mint@);
    assert(d5.subrange(72, 80) =~= e2);
    assert(d5.subrange(80, 88) =~= e3);
    assert(d5.subrange(88, 96) =~= e4);
    lemma_i64_bits_roundtrip(f.time_started);
    assert(d5.subrange(65, 72) =~= data.subrange(65, 72));
    assert(d5.subrange(98, 104) =~= data.subrange(98, 104));
}

impl Default for Contribute {
    /// A record that is not initialized and holds nothing.
    fn default() -> (c: Contribute)
        ensures
            !c.is_initialized,
            c.amount == 0,
    {
        Contribute { is_initialized: false, amount: 0 }
    }
}

impl Contribute {
    /// The record whose fields stand at their places in `data`.
    pub open spec fn is_encoded_in(self, data: Seq<u8>) -> bool {
        &&& data.len() == CONTRIBUTE_LEN
        &&& self.is_initialized == (data[0] != 0)
        &&& self.amount == u64_at(data, 8)
    }

    /// `data` with the flag written at 0 and the amount at 8; the padding is kept.
    pub open spec fn written_into(self, data: Seq<u8>) -> Seq<u8> {
        with_u64_at(data.update(0, if self.is_initialized { 1u8 } else { 0u8 }), 8, self.amount)
    }

    /// Whether the record is initialized.
    pub fn is_initialized(&self) -> (r: bool)
        ensures
            r == self.is_initialized,
    {
        self.is_initialized
    }

    /// Marks the record initialized and sets its amount.
    pub fn initialize(&mut self, amount: u64)
        ensures
            final(self).is_initialized,
            final(self).amount == amount,
    {
        self.is_initialized = true;
        self.amount = amount;
    }

    /// Reads a record whatever its flag; the data must have exactly
    /// `CONTRIBUTE_LEN` bytes.
    pub fn load_unchecked(data: &[u8]) -> (res: Result<Contribute, ProgramFault>)
        ensures
            res is Err <==> data@.len() != CONTRIBUTE_LEN,
            res is Err ==> res == Err::<Contribute, ProgramFault>(ProgramFault::InvalidAccountData),
            res matches Ok(c) ==> c.is_encoded_in(data@),
    {
        if data.len() != CONTRIBUTE_LEN {
            return Err(ProgramFault::InvalidAccountData);
        }
        Ok(Contribute { is_initialized: data[0] != 0, amount: read_u64(data, 8) })
    }

    /// Reads a record that must be initialized: data of another length is
    /// `InvalidAccountData`, a clear flag is `UninitializedAccount`.
    pub fn load(data: &[u8]) -> (res: Result<Contribute, ProgramFault>)
        ensures
            data@.len() != CONTRIBUTE_LEN ==> res == Err::<Contribute, ProgramFault>(
                ProgramFault::InvalidAccountData,
            ),
            data@.len() == CONTRIBUTE_LEN && data@[0] == 0 ==> res == Err::<
                Contribute,
                ProgramFault,
            >(ProgramFault::UninitializedAccount),
            res is Ok <==> (data@.len() == CONTRIBUTE_LEN && data@[0] != 0),
            res matches Ok(c) ==> c.is_encoded_in(data@) && c.is_initialized,
    {
        let record = Self::load_unchecked(data)?;
        if !record.is_initialized() {
            return Err(ProgramFault::UninitializedAccount);
        }
        Ok(record)
    }

    /// Writes the record at its place in the account data.
    pub fn store(&self, data: &mut [u8])
        requires
            old(data)@.len() == CONTRIBUTE_LEN,
        ensures
            final(data)@ == self.written_into(old(data)@),
            self.is_encoded_in(final(data)@),
            final(data)@.subrange(1, 8) == old(data)@.subrange(1, 8),
    {
        data[0] = if self.is_initialized { 1u8 } else { 0u8 };
        write_u64(data, 8, self.amount);
        proof {
            lemma_contribute_written_into(*self, old(data)@);
        }
    }
}

/// A record written into account data reads back as itself, and the padding
/// is left as it was.
pub proof fn lemma_contribute_written_into(c: Contribute, data: Seq<u8>)
    requires
        data.len() == CONTRIBUTE_LEN,
    ensures
        c.is_encoded_in(c.written_into(data)),
        c.written_into(data).subrange(1, 8) == data.subrange(1, 8),
{
    lemma_auto_spec_u64_to_from_le_bytes();
    let d0 = data.update(0, if c.is_initialized { 1u8 } else { 0u8 });
    let e = spec_u64_to_le_bytes(c.amount);
    lemma_with_bytes_at(d0, 8, e);
    let d1 = with_bytes_at(d0, 8, e);
    assert(d1.subrange(8, 16) =~= e);
    assert(d1.subrange(1, 8) =~= data.subrange(1, 8));
}

} // verus!
