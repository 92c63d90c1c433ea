//! The sound bank: a raw memory image plus the instrument and sequence
//! tables parsed out of it.
//!
//! The image header holds two big-endian longs: the offset of the sequence
//! table (at 0) and of the instrument table (at 4). The sequence table is a
//! row of 32-bit entry-point offsets; the instrument table is a row of
//! 14-byte records. Neither count is stored in the image, so the caller
//! supplies both.

use vstd::prelude::*;

verus! {

/// Big-endian 16-bit word at `addr`.
pub open spec fn spec_word(data: Seq<u8>, addr: int) -> u16
    recommends
        0 <= addr,
        addr + 2 <= data.len(),
{
    (data[addr] * 0x100 + data[addr + 1]) as u16
}

/// Big-endian 32-bit long at `addr`.
pub open spec fn spec_long(data: Seq<u8>, addr: int) -> u32
    recommends
        0 <= addr,
        addr + 4 <= data.len(),
{
    (data[addr] * 0x1000000 + data[addr + 1] * 0x10000 + data[addr + 2] * 0x100
        + data[addr + 3]) as u32
}

pub fn word(data: &Vec<u8>, addr: usize) -> (r: u16)
    requires
        addr + 2 <= data.len(),
    ensures
        r == spec_word(data@, addr as int),
{
    (data[addr] as u16) * 0x100 + (data[addr + 1] as u16)
}

pub fn long(data: &Vec<u8>, addr: usize) -> (r: u32)
    requires
        addr + 4 <= data.len(),
    ensures
        r == spec_long(data@, addr as int),
{
    (data[addr] as u32) * 0x1000000 + (data[addr + 1] as u32) * 0x10000
        + (data[addr + 2] as u32) * 0x100 + (data[addr + 3] as u32)
}

/// One sampled waveform plus its playback metadata, decoded from a 14-byte
/// big-endian record: word 0 is the one-shot flag (equal to 1 means
/// one-shot), word 1 the loop offset, word 2 the sample length in 16-bit
/// words, long at 6 the absolute byte offset of the sample data, long at 10
/// the base octave.
#[derive(Clone, Copy, Debug, Eq, PartialEq, Structural)]
pub struct Instrument {
    pub is_one_shot: bool,
    pub loop_offset: u16,
    pub sample_len: u16,
    pub sample_addr: usize,
    pub base_octave: usize,
}

/// The instrument record that starts at byte `at` of the image.
pub open spec fn spec_instrument(data: Seq<u8>, at: int) -> Instrument
    recommends
        0 <= at,
        at + 14 <= data.len(),
{
    Instrument {
        is_one_shot: spec_word(data, at) == 1,
        loop_offset: spec_word(data, at + 2),
        sample_len: spec_word(data, at + 4),
        sample_addr: spec_long(data, at + 6) as usize,
        base_octave: spec_long(data, at + 10) as usize,
    }
}

impl Instrument {
    /// Size in bytes of one instrument record.
    pub const SIZE: usize = 14;

    fn new(data: &Vec<u8>, at: usize) -> (r: Instrument)
        requires
            at + 14 <= data.len(),
        ensures
            r == spec_instrument(data@, at as int),
    {
        Instrument {
            is_one_shot: word(data, at) == 1,
            loop_offset: word(data, at + 2),
            sample_len: word(data, at + 4),
            sample_addr: long(data, at + 6) as usize,
            base_octave: long(data, at + 10) as usize,
        }
    }
}

/// The parsed sound bank: the raw image, the decoded instruments, and the
/// sequence entry points. Immutable once built; every address an opcode or
/// an instrument carries indexes into `data`.
pub struct SoundBank {
    /// Raw memory image.
    pub data: Vec<u8>,
    /// Instrument records scraped into structs.
    pub instruments: Vec<Instrument>,
    /// Sequences carry no length, so only entry points are kept.
    pub sequences: Vec<usize>,
}

/// Offset of the sequence table, read from the image header.
pub open spec fn spec_sequence_table_offset(data: Seq<u8>) -> int
    recommends
        data.len() >= 8,
{
    spec_long(data, 0) as int
}

/// Offset of the instrument table, read from the image header.
pub open spec fn spec_instrument_table_offset(data: Seq<u8>) -> int
    recommends
        data.len() >= 8,
{
    spec_long(data, 4) as int
}

/// Both tables lie inside the image for the given counts.
pub open spec fn spec_bank_parses(data: Seq<u8>, num_sequences: int, num_instruments: int) -> bool {
    &&& data.len() >= 8
    &&& spec_sequence_table_offset(data) + 4 * num_sequences <= data.len()
    &&& spec_instrument_table_offset(data) + 14 * num_instruments <= data.len()
}

/// Entry point of sequence `k`: the big-endian long at slot `k` of the
/// sequence table.
pub open spec fn spec_sequence_entry(data: Seq<u8>, k: int) -> usize
    recommends
        spec_sequence_table_offset(data) + 4 * k + 4 <= data.len(),
{
    spec_long(data, spec_sequence_table_offset(data) + 4 * k) as usize
}

impl SoundBank {
    /// The bank is exactly what parsing its own image again would give.
    pub open spec fn wf(self) -> bool {
        &&& spec_bank_parses(self.data@, self.sequences@.len() as int, self.instruments@.len() as int)
        &&& forall|k: int|
            0 <= k < self.sequences@.len() ==> self.sequences@[k] == spec_sequence_entry(
                self.data@,
                k,
            )
        &&& forall|k: int|
            0 <= k < self.instruments@.len() ==> self.instruments@[k] == spec_instrument(
                self.data@,
                spec_instrument_table_offset(self.data@) + 14 * k,
            )
    }

    /// Parse an image. Returns `None` exactly when the header or one of the
    /// two tables would fall outside the image.
    pub fn new(data: Vec<u8>, num_sequences: usize, num_instruments: usize) -> (r: Option<
        SoundBank,
    >)
        ensures
            r is Some <==> spec_bank_parses(data@, num_sequences as int, num_instruments as int),
            r matches Some(bank) ==> {
                &&& bank.wf()
                &&& bank.data@ == data@
                &&& bank.sequences@.len() == num_sequences
                &&& bank.instruments@.len() == num_instruments
            },
    {
        if data.len() < 8 {
            return None;
        }
        let sequence_table_offset = long(&data, 0) as usize;
        let instrument_table_offset = long(&data, 4) as usize;

        let seq_words = match num_sequences.checked_mul(4) {
            Some(n) => n,
            None => {
                return None;
            },
        };
        let seq_end = match sequence_table_offset.checked_add(seq_words) {
            Some(n) => n,
            None => {
                return None;
            },
        };
        if seq_end > data.len() {
            return None;
        }

        let instr_bytes = match num_instruments.checked_mul(14) {
            Some(n) => n,
            None => {
                return None;
            },
        };
        let instr_end = match instrument_table_offset.checked_add(instr_bytes) {
            Some(n) => n,
            None => {
                return None;
            },
        };
        if instr_end > data.len() {
            return None;
        }

        let mut sequences: Vec<usize> = Vec::new();
        let mut idx: usize = 0;
        while idx < num_sequences
            invariant
                idx <= num_sequences,
                sequence_table_offset + 4 * num_sequences <= data.len(),
                sequence_table_offset == spec_sequence_table_offset(data@),
                data@.len() >= 8,
                sequences@.len() == idx,
                forall|k: int| 0 <= k < idx ==> sequences@[k] == spec_sequence_entry(data@, k),
            decreases num_sequences - idx,
        {
            let entry = long(&data, sequence_table_offset + idx * 4) as usize;
            sequences.push(entry);
            idx = idx + 1;
        }

        let mut instruments: Vec<Instrument> = Vec::new();
        let mut idx: usize = 0;
        while idx < num_instruments
            invariant
                idx <= num_instruments,
                instrument_table_offset + 14 * num_instruments <= data.len(),
                instrument_table_offset == spec_instrument_table_offset(data@),
                data@.len() >= 8,
                instruments@.len() == idx,
                forall|k: int|
                    0 <= k < idx ==> instruments@[k] == spec_instrument(
                        data@,
                        spec_instrument_table_offset(data@) + 14 * k,
                    ),
            decreases num_instruments - idx,
        {
            let record = Instrument::new(&data, instrument_table_offset + idx * 14);
            instruments.push(record);
            idx = idx + 1;
        }

        Some(SoundBank { data, instruments, sequences })
    }
}

} // verus!
