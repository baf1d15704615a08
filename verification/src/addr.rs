use vstd::prelude::*;

verus! {

/// A 32-byte on-chain account address.
///
/// The four 64-bit words hold the address bytes in big-endian word order
/// (`w0` covers bytes 0..8, and within a word the most significant byte is
/// the first address byte).  With that layout, comparing the word tuples
/// numerically agrees with byte-wise lexicographic comparison of the
/// underlying 32 bytes, which is the order the whitelist validation uses.
#[derive(Clone, Copy, PartialEq, Eq, Structural, Debug)]
pub struct Address {
    pub w0: u64,
    pub w1: u64,
    pub w2: u64,
    pub w3: u64,
}

impl Address {
    /// The all-zero address (the system program's id, and the value used
    /// to mark "no key").
    pub open spec fn spec_zero() -> Address {
        Address { w0: 0, w1: 0, w2: 0, w3: 0 }
    }

    pub fn zero() -> (r: Address)
        ensures
            r == Address::spec_zero(),
    {
        Address { w0: 0, w1: 0, w2: 0, w3: 0 }
    }

    pub open spec fn is_zero(self) -> bool {
        self == Address::spec_zero()
    }
}

/// Strict byte-lexicographic order on addresses.
pub open spec fn spec_addr_lt(a: Address, b: Address) -> bool {
    ||| a.w0 < b.w0
    ||| (a.w0 == b.w0 && a.w1 < b.w1)
    ||| (a.w0 == b.w0 && a.w1 == b.w1 && a.w2 < b.w2)
    ||| (a.w0 == b.w0 && a.w1 == b.w1 && a.w2 == b.w2 && a.w3 < b.w3)
}

pub fn addr_lt(a: &Address, b: &Address) -> (r: bool)
    ensures
        r == spec_addr_lt(*a, *b),
{
    if a.w0 != b.w0 {
        a.w0 < b.w0
    } else if a.w1 != b.w1 {
        a.w1 < b.w1
    } else if a.w2 != b.w2 {
        a.w2 < b.w2
    } else {
        a.w3 < b.w3
    }
}

/// The eight bytes of a 64-bit word, most significant first.
pub open spec fn spec_u64_be_bytes(w: u64) -> Seq<u8> {
    seq![
        ((w >> 56) & 0xff) as u8,
        ((w >> 48) & 0xff) as u8,
        ((w >> 40) & 0xff) as u8,
        ((w >> 32) & 0xff) as u8,
        ((w >> 24) & 0xff) as u8,
        ((w >> 16) & 0xff) as u8,
        ((w >> 8) & 0xff) as u8,
        (w & 0xff) as u8,
    ]
}

/// The eight bytes of a 64-bit word, least significant first.
pub open spec fn spec_u64_le_bytes(w: u64) -> Seq<u8> {
    spec_u64_be_bytes(w).reverse()
}

/// The 32 bytes of an address, in on-chain order.
pub open spec fn spec_address_bytes(a: Address) -> Seq<u8> {
    spec_u64_be_bytes(a.w0) + spec_u64_be_bytes(a.w1) + spec_u64_be_bytes(a.w2)
        + spec_u64_be_bytes(a.w3)
}

fn push_u64_be(out: &mut Vec<u8>, w: u64)
    ensures
        final(out)@ == old(out)@ + spec_u64_be_bytes(w),
{
    out.push(((w >> 56) & 0xff) as u8);
    out.push(((w >> 48) & 0xff) as u8);
    out.push(((w >> 40) & 0xff) as u8);
    out.push(((w >> 32) & 0xff) as u8);
    out.push(((w >> 24) & 0xff) as u8);
    out.push(((w >> 16) & 0xff) as u8);
    out.push(((w >> 8) & 0xff) as u8);
    out.push((w & 0xff) as u8);

}

pub fn address_bytes(a: &Address) -> (r: Vec<u8>)
    ensures
        r@ == spec_address_bytes(*a),
{
    let mut out: Vec<u8> = Vec::new();
    push_u64_be(&mut out, a.w0);
    push_u64_be(&mut out, a.w1);
    push_u64_be(&mut out, a.w2);
    push_u64_be(&mut out, a.w3);
    assert(out@ =~= spec_address_bytes(*a));
    out
}

/// The eight bytes of a 64-bit integer in little-endian order, the layout
/// used for integer seed components of derived addresses.
pub fn u64_le_bytes(w: u64) -> (r: Vec<u8>)
    ensures
        r@ == spec_u64_le_bytes(w),
{
    let mut out: Vec<u8> = Vec::new();
    out.push((w & 0xff) as u8);
    out.push(((w >> 8) & 0xff) as u8);
    out.push(((w >> 16) & 0xff) as u8);
    out.push(((w >> 24) & 0xff) as u8);
    out.push(((w >> 32) & 0xff) as u8);
    out.push(((w >> 40) & 0xff) as u8);
    out.push(((w >> 48) & 0xff) as u8);
    out.push(((w >> 56) & 0xff) as u8);
    assert(out@ =~= spec_u64_le_bytes(w));
    out
}

} // verus!
