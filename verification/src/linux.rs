//! Model-specific registers as Linux offers them to a process: one device
//! file for each CPU, in which the register with number `n` stands at
//! offset `n` and is read and written as eight bytes, lowest byte first.
//!
//! Opening, seeking, reading and writing the file is done outside this
//! crate. Here a register value is turned into the bytes that are written
//! and the bytes that were read are turned into the value.

use byteorder::{LittleEndian, ReadBytesExt, WriteBytesExt};
use vstd::bytes::{
    lemma_auto_spec_u64_to_from_le_bytes, spec_u64_from_le_bytes, spec_u64_to_le_bytes,
};
use vstd::prelude::*;

verus! {

/// The number of bytes that a register takes in the device file.
pub const MSR_BYTES: usize = 8;

/// `WriteBytesExt::write_u64` of the crate byteorder, for `LittleEndian`
/// and a vector as the writer: it lays the value out in eight bytes, lowest
/// byte first, and hands them to the vector's `write_all`, which appends
/// them. Nothing is said of the vector where the write reports an error.
#[verifier::external_body]
fn write_u64_le(contents: &mut Vec<u8>, value: u64) -> (written: bool)
    ensures
        written ==> final(contents)@ == old(contents)@ + spec_u64_to_le_bytes(value),
{
    contents.write_u64::<LittleEndian>(value).is_ok()
}

/// `ReadBytesExt::read_u64` of the crate byteorder, for `LittleEndian` and
/// a slice as the reader: it takes the first eight bytes with `read_exact`
/// and reads them as a number, lowest byte first. A slice of fewer than
/// eight bytes ends too early for `read_exact`, which is an error.
#[verifier::external_body]
fn read_u64_le(raw: &[u8]) -> (r: Option<u64>)
    ensures
        raw@.len() >= 8 ==> r == Some(spec_u64_from_le_bytes(raw@.take(8))),
        raw@.len() < 8 ==> r is None,
{
    let mut reader: &[u8] = raw;
    reader.read_u64::<LittleEndian>().ok()
}

/// The offset in the device file at which the register `msr` stands.
pub fn msr_offset(msr: u32) -> (offset: u64)
    ensures
        offset == msr,
{
    msr as u64
}

/// The bytes that are written to the device file to set a register to
/// `value`: its eight bytes, lowest first. There are none if the bytes
/// could not be laid out.
pub fn msr_to_bytes(value: u64) -> (r: Option<Vec<u8>>)
    ensures
        r matches Some(bytes) ==> bytes@ == spec_u64_to_le_bytes(value) && bytes@.len()
            == MSR_BYTES,
{
    let mut contents: Vec<u8> = Vec::new();
    let written: bool = write_u64_le(&mut contents, value);
    let ghost laid_out = contents@;
    proof {
        lemma_auto_spec_u64_to_from_le_bytes();
        if written {
            assert(laid_out =~= spec_u64_to_le_bytes(value));
        }
    }
    checked_image(contents, written)
}

/// Accepts what was laid out for a register if the layout succeeded and
/// gave exactly the eight bytes of a register.
pub fn checked_image(contents: Vec<u8>, written: bool) -> (r: Option<Vec<u8>>)
    ensures
        written && contents@.len() == MSR_BYTES ==> r == Some(contents),
        !(written && contents@.len() == MSR_BYTES) ==> r is None,
{
    if written && contents.len() == MSR_BYTES {
        Some(contents)
    } else {
        None
    }
}

/// The value of a register from the bytes that were read from the device
/// file: the number that the first eight bytes make, lowest byte first.
/// Fewer than eight bytes make no value.
pub fn msr_from_bytes(raw: &[u8]) -> (r: Option<u64>)
    ensures
        raw@.len() >= MSR_BYTES ==> r == Some(spec_u64_from_le_bytes(raw@.take(8))),
        raw@.len() < MSR_BYTES ==> r is None,
{
    read_u64_le(raw)
}

/// A value that was written comes back when its bytes are read: the bytes
/// of a value are eight, and the number they make is the value.
pub proof fn lemma_written_value_reads_back(value: u64)
    ensures
        spec_u64_to_le_bytes(value).len() == MSR_BYTES,
        spec_u64_from_le_bytes(spec_u64_to_le_bytes(value).take(8)) == value,
{
    lemma_auto_spec_u64_to_from_le_bytes();
    assert(spec_u64_to_le_bytes(value).take(8) =~= spec_u64_to_le_bytes(value));
}

} // verus!
