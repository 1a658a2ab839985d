//! The highscore as it is stored: a record of eight bytes, the least
//! significant first.

use vstd::prelude::*;

verus! {

/// The length of a stored highscore, in bytes.
pub const RECORD_LEN: usize = 8;

/// Byte `i` of `highscore`, counted from the least significant.
pub open spec fn byte_of(highscore: u64, i: int) -> u8 {
    ((highscore >> ((8 * i) as u64)) & 0xff) as u8
}

/// The record that holds `highscore`.
pub open spec fn record_of(highscore: u64) -> Seq<u8> {
    Seq::new(RECORD_LEN as nat, |i: int| byte_of(highscore, i))
}

/// The highscore that the eight bytes of `record` hold.
pub open spec fn highscore_in(record: Seq<u8>) -> u64 {
    (record[0] as u64)
        | (record[1] as u64) << 8
        | (record[2] as u64) << 16
        | (record[3] as u64) << 24
        | (record[4] as u64) << 32
        | (record[5] as u64) << 40
        | (record[6] as u64) << 48
        | (record[7] as u64) << 56
}

/// Reading the record of a highscore gives the highscore back.
pub proof fn record_holds_its_highscore(highscore: u64)
    ensures
        record_of(highscore).len() == RECORD_LEN,
        highscore_in(record_of(highscore)) == highscore,
{
    let h = highscore;
    assert(h == (((h >> 0) & 0xff) as u8 as u64)
        | (((h >> 8) & 0xff) as u8 as u64) << 8
        | (((h >> 16) & 0xff) as u8 as u64) << 16
        | (((h >> 24) & 0xff) as u8 as u64) << 24
        | (((h >> 32) & 0xff) as u8 as u64) << 32
        | (((h >> 40) & 0xff) as u8 as u64) << 40
        | (((h >> 48) & 0xff) as u8 as u64) << 48
        | (((h >> 56) & 0xff) as u8 as u64) << 56) by (bit_vector);
}

/// Every record of eight bytes is the record of the highscore it holds, and
/// of no other.
pub proof fn highscore_fills_its_record(record: Seq<u8>)
    requires
        record.len() == RECORD_LEN,
    ensures
        record_of(highscore_in(record)) == record,
{
    let b0 = record[0];
    let b1 = record[1];
    let b2 = record[2];
    let b3 = record[3];
    let b4 = record[4];
    let b5 = record[5];
    let b6 = record[6];
    let b7 = record[7];
    let h = highscore_in(record);
    assert(((h >> 0) & 0xff) as u8 == b0
        && ((h >> 8) & 0xff) as u8 == b1
        && ((h >> 16) & 0xff) as u8 == b2
        && ((h >> 24) & 0xff) as u8 == b3
        && ((h >> 32) & 0xff) as u8 == b4
        && ((h >> 40) & 0xff) as u8 == b5
        && ((h >> 48) & 0xff) as u8 == b6
        && ((h >> 56) & 0xff) as u8 == b7) by (bit_vector)
        requires
            h == (b0 as u64)
                | (b1 as u64) << 8
                | (b2 as u64) << 16
                | (b3 as u64) << 24
                | (b4 as u64) << 32
                | (b5 as u64) << 40
                | (b6 as u64) << 48
                | (b7 as u64) << 56,
    ;
    assert(record_of(h) =~= record);
}

/// The record that holds `highscore`.
pub fn encode(highscore: u64) -> (record: Vec<u8>)
    ensures
        record@ == record_of(highscore),
{
    let mut record: Vec<u8> = Vec::new();
    let mut i: usize = 0;
    while i < RECORD_LEN
        invariant
            i <= RECORD_LEN,
            record@.len() == i,
            forall|j: int| 0 <= j < i ==> record@[j] == byte_of(highscore, j),
        decreases RECORD_LEN - i,
    {
        let shift: u64 = 8 * (i as u64);
        record.push(((highscore >> shift) & 0xff) as u8);
        i += 1;
    }
    assert(record@ =~= record_of(highscore));
    record
}

/// The highscore that `bytes` hold, where they are a record: eight bytes,
/// no more and no fewer.
pub fn decode(bytes: &[u8]) -> (highscore: Option<u64>)
    ensures
        highscore is Some <==> bytes@.len() == RECORD_LEN,
        highscore matches Some(h) ==> h == highscore_in(bytes@) && record_of(h) == bytes@,
{
    if bytes.len() != RECORD_LEN {
        return None;
    }
    proof {
        highscore_fills_its_record(bytes@);
    }
    let h = (bytes[0] as u64)
        | (bytes[1] as u64) << 8
        | (bytes[2] as u64) << 16
        | (bytes[3] as u64) << 24
        | (bytes[4] as u64) << 32
        | (bytes[5] as u64) << 40
        | (bytes[6] as u64) << 48
        | (bytes[7] as u64) << 56;
    Some(h)
}

} // verus!
