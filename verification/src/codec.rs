//! Byte-level primitives of the canonical fixed-layout record encoding: a
//! boolean is one byte (0 or 1), a 64-bit counter is eight little-endian
//! bytes, an address is its 32 bytes.

use vstd::prelude::*;
use vstd::bytes::spec_u64_from_le_bytes;
use vstd::bytes::spec_u64_to_le_bytes;
use vstd::bytes::u64_from_le_bytes;
use vstd::bytes::u64_to_le_bytes;
use vstd::slice::slice_subrange;
use crate::state::PublicKey;
use crate::state::spec_key_of;

verus! {

/// The one-byte encoding of a boolean.
pub open spec fn spec_bool_byte(b: bool) -> u8 {
    if b {
        1u8
    } else {
        0u8
    }
}

/// Appends the one-byte encoding of a boolean.
pub fn put_bool(out: &mut Vec<u8>, b: bool)
    ensures
        final(out)@ == old(out)@ + seq![spec_bool_byte(b)],
{
    out.push(if b { 1u8 } else { 0u8 });
    proof {
        assert(out@ =~= old(out)@ + seq![spec_bool_byte(b)]);
    }
}

/// Appends the eight-byte little-endian encoding of a counter.
pub fn put_u64(out: &mut Vec<u8>, x: u64)
    ensures
        final(out)@ == old(out)@ + spec_u64_to_le_bytes(x),
{
    let mut b = u64_to_le_bytes(x);
    out.append(&mut b);
}

/// Reads the counter encoded at offset `off`.
pub fn read_u64(d: &Vec<u8>, off: usize) -> (x: u64)
    requires
        off + 8 <= d@.len(),
    ensures
        x == spec_u64_from_le_bytes(d@.subrange(off as int, off + 8)),
{
    proof {
        assert(d.len() >= off + 8);
    }
    u64_from_le_bytes(slice_subrange(d.as_slice(), off, off + 8))
}

/// Appends the 32-byte encoding of an address.
pub fn put_key(out: &mut Vec<u8>, k: &PublicKey)
    ensures
        final(out)@ == old(out)@ + k@,
{
    let mut b0 = u64_to_le_bytes(k.w0);
    out.append(&mut b0);
    let mut b1 = u64_to_le_bytes(k.w1);
    out.append(&mut b1);
    let mut b2 = u64_to_le_bytes(k.w2);
    out.append(&mut b2);
    let mut b3 = u64_to_le_bytes(k.w3);
    out.append(&mut b3);
    proof {
        assert(out@ =~= old(out)@ + k@);
    }
}

/// Reads the address encoded at offset `off`.
pub fn read_key(d: &Vec<u8>, off: usize) -> (k: PublicKey)
    requires
        off + 32 <= d@.len(),
    ensures
        k == spec_key_of(d@.subrange(off as int, off + 32)),
{
    proof {
        assert(d.len() >= off + 32);
    }
    let k = PublicKey {
        w0: u64_from_le_bytes(slice_subrange(d.as_slice(), off, off + 8)),
        w1: u64_from_le_bytes(slice_subrange(d.as_slice(), off + 8, off + 16)),
        w2: u64_from_le_bytes(slice_subrange(d.as_slice(), off + 16, off + 24)),
        w3: u64_from_le_bytes(slice_subrange(d.as_slice(), off + 24, off + 32)),
    };
    proof {
        let s = d@.subrange(off as int, off + 32);
        assert(s.subrange(0, 8) =~= d@.subrange(off as int, off + 8));
        assert(s.subrange(8, 16) =~= d@.subrange(off + 8, off + 16));
        assert(s.subrange(16, 24) =~= d@.subrange(off + 16, off + 24));
        assert(s.subrange(24, 32) =~= d@.subrange(off + 24, off + 32));
    }
    k
}

} // verus!
