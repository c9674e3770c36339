//! IPv6 network prefixes in canonical (truncated) form.

use vstd::prelude::*;

verus! {

/// An IPv6 network prefix: a 128-bit address together with a prefix length.
/// A canonical prefix keeps only its first `len` address bits; everything
/// beyond the prefix length is zero.
#[derive(Clone, Copy, PartialEq, Eq, Structural, Debug)]
pub struct NetworkPrefix {
    pub addr: u128,
    pub len: u8,
}

/// The mask that keeps the first `len` bits of a 128-bit address.
pub open spec fn spec_mask(len: u8) -> u128 {
    if len == 0 {
        0u128
    } else if len >= 128 {
        u128::MAX
    } else {
        (u128::MAX << ((128 - len) as u128)) as u128
    }
}

/// An address truncated to its first `len` bits.
pub open spec fn spec_truncate(addr: u128, len: u8) -> u128 {
    addr & spec_mask(len)
}

/// The canonical prefix built from an address and a prefix length.
pub open spec fn spec_canonical(addr: u128, len: u8) -> NetworkPrefix {
    NetworkPrefix { addr: spec_truncate(addr, len), len }
}

impl NetworkPrefix {
    /// A well-formed prefix has a length of at most 128 bits and carries
    /// no address bits beyond that length.
    pub open spec fn wf(self) -> bool {
        &&& self.len <= 128
        &&& self.addr == spec_truncate(self.addr, self.len)
    }

    /// Builds the canonical prefix for `addr`/`len`, or `None` when the
    /// prefix length exceeds 128 bits.
    pub fn new(addr: u128, len: u8) -> (r: Option<NetworkPrefix>)
        ensures
            len <= 128 ==> r == Some(spec_canonical(addr, len)),
            len > 128 ==> r is None,
            r matches Some(p) ==> p.wf(),
    {
        if len > 128 {
            None
        } else {
            let p = NetworkPrefix { addr: truncate_addr(addr, len), len };
            proof {
                lemma_truncate_idempotent(addr, len);
            }
            Some(p)
        }
    }

    /// Returns this value in canonical form, with address bits beyond the
    /// prefix length masked to zero.
    pub fn trunc(&self) -> (r: NetworkPrefix)
        requires
            self.len <= 128,
        ensures
            r == spec_canonical(self.addr, self.len),
            r.wf(),
    {
        let r = NetworkPrefix { addr: truncate_addr(self.addr, self.len), len: self.len };
        proof {
            lemma_truncate_idempotent(self.addr, self.len);
        }
        r
    }
}

/// Truncates `addr` to its first `len` bits.
pub fn truncate_addr(addr: u128, len: u8) -> (r: u128)
    requires
        len <= 128,
    ensures
        r == spec_truncate(addr, len),
{
    if len == 0 {
        proof {
            assert(addr & 0u128 == 0) by (bit_vector);
        }
        0
    } else if len == 128 {
        proof {
            assert(addr & u128::MAX == addr) by (bit_vector);
        }
        addr
    } else {
        let sh: u128 = (128 - len) as u128;
        let mask: u128 = u128::MAX << sh;
        addr & mask
    }
}

/// Truncation is idempotent: truncating a truncated address changes nothing.
pub proof fn lemma_truncate_idempotent(addr: u128, len: u8)
    ensures
        spec_truncate(spec_truncate(addr, len), len) == spec_truncate(addr, len),
{
    let m = spec_mask(len);
    assert((addr & m) & m == addr & m) by (bit_vector);
}

/// A truncated address carries no bits beyond the prefix length: masking
/// with the complement of the prefix mask leaves nothing.
pub proof fn lemma_truncate_clears_host_bits(addr: u128, len: u8)
    ensures
        spec_truncate(addr, len) & !spec_mask(len) == 0,
{
    let m = spec_mask(len);
    assert((addr & m) & !m == 0) by (bit_vector);
}

} // verus!
