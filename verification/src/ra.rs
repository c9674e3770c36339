//! Just enough ICMPv6 to recognize Router Advertisements and read the
//! prefixes they advertise.
//!
//! A Router Advertisement is ICMPv6 type 134: a 16-byte fixed header
//! followed by options, each carrying its type byte and its length in
//! units of 8 bytes. A Prefix Information option (type 3, length 4)
//! advertises one prefix: its length in bits and its 16 address bytes.
//! Extraction walks the options and stops at the first malformed one;
//! a malformed message never yields more than the prefixes read so far.

use vstd::prelude::*;
use crate::prefix::{NetworkPrefix, spec_canonical, truncate_addr, lemma_truncate_idempotent};

verus! {

/// ICMPv6 message type of a Router Advertisement.
pub const ICMPV6_TYPE_RA: u8 = 134;

/// Length in bytes of the fixed Router Advertisement header.
pub const RA_HEADER_LEN: usize = 16;

/// Option type of a Prefix Information option.
pub const OPT_PREFIX_INFORMATION: u8 = 3;

/// Offset of an option's prefix-length byte.
pub const OPT_PREFIX_LEN_OFFSET: usize = 2;

/// Offset of an option's 16 prefix address bytes.
pub const OPT_PREFIX_ADDR_OFFSET: usize = 16;

/// A message is a Router Advertisement when it can hold the fixed header
/// and its ICMPv6 type byte says so.
pub open spec fn spec_is_ra(msg: Seq<u8>) -> bool {
    msg.len() >= 16 && msg[0] == 134
}

/// The big-endian value of a byte sequence.
pub open spec fn spec_be_val(s: Seq<u8>) -> int
    decreases s.len(),
{
    if s.len() == 0 {
        0
    } else {
        spec_be_val(s.drop_last()) * 256 + s.last()
    }
}

/// 256 to the power `n`.
pub open spec fn pow256(n: nat) -> int
    decreases n,
{
    if n == 0 {
        1
    } else {
        256 * pow256((n - 1) as nat)
    }
}

pub proof fn lemma_pow256_pos(n: nat)
    ensures
        pow256(n) >= 1,
    decreases n,
{
    if n > 0 {
        lemma_pow256_pos((n - 1) as nat);
    }
}

pub proof fn lemma_pow256_mono(a: nat, b: nat)
    requires
        a <= b,
    ensures
        pow256(a) <= pow256(b),
    decreases b,
{
    if a < b {
        lemma_pow256_mono(a, (b - 1) as nat);
        lemma_pow256_pos((b - 1) as nat);
        assert(pow256(b) == 256 * pow256((b - 1) as nat));
        assert(pow256((b - 1) as nat) <= 256 * pow256((b - 1) as nat)) by (nonlinear_arith)
            requires
                pow256((b - 1) as nat) >= 1,
        ;
    }
}

pub proof fn lemma_pow256_16()
    ensures
        pow256(16) == 0x100000000000000000000000000000000,
{
    reveal_with_fuel(pow256, 17);
}

/// A byte sequence's big-endian value is bounded by 256 to its length.
pub proof fn lemma_be_val_bound(s: Seq<u8>)
    ensures
        0 <= spec_be_val(s) < pow256(s.len() as nat),
    decreases s.len(),
{
    if s.len() == 0 {
    } else {
        lemma_be_val_bound(s.drop_last());
        let v = spec_be_val(s.drop_last());
        let p = pow256((s.len() - 1) as nat);
        assert(v * 256 <= (p - 1) * 256) by (nonlinear_arith)
            requires
                0 <= v <= p - 1,
        ;
        assert(pow256(s.len() as nat) == 256 * p);
    }
}

/// The address carried by the 16 bytes at offset `i`.
pub open spec fn spec_addr_at(msg: Seq<u8>, i: int) -> u128 {
    spec_be_val(msg.subrange(i, i + 16)) as u128
}

/// What a Prefix Information option at offset `i` contributes: one
/// canonical prefix, unless its prefix-length byte exceeds 128 bits.
pub open spec fn spec_option_prefixes(msg: Seq<u8>, i: int) -> Seq<NetworkPrefix> {
    if msg[i + 2] <= 128 {
        seq![spec_canonical(spec_addr_at(msg, i + 16), msg[i + 2])]
    } else {
        Seq::empty()
    }
}

/// The prefixes advertised by the options from offset `i` on. Walking
/// stops at a zero-length option and at an option running past the end
/// of the message.
pub open spec fn spec_prefixes_from(msg: Seq<u8>, i: int) -> Seq<NetworkPrefix>
    decreases msg.len() - i,
{
    if i + 2 > msg.len() {
        Seq::empty()
    } else {
        let t = msg[i];
        let l = msg[i + 1];
        if l == 0 {
            Seq::empty()
        } else if i + 8 * (l as int) > msg.len() {
            Seq::empty()
        } else {
            let rest = spec_prefixes_from(msg, i + 8 * (l as int));
            if t == 3 && l == 4 {
                spec_option_prefixes(msg, i) + rest
            } else {
                rest
            }
        }
    }
}

/// Every prefix a message advertises: nothing unless it is a Router
/// Advertisement, else what its options carry.
pub open spec fn spec_ra_prefixes(msg: Seq<u8>) -> Seq<NetworkPrefix> {
    if spec_is_ra(msg) {
        spec_prefixes_from(msg, 16)
    } else {
        Seq::empty()
    }
}

/// Length of the fixed IPv6 header.
pub const IPV6_HEADER_LEN: usize = 40;

/// Protocol number of ICMPv6 in the IPv6 next-header field.
pub const PROTO_ICMPV6: u8 = 58;

/// The ICMPv6 message inside an IPv6 packet: the bytes after the fixed
/// 40-byte header, provided the header fits and its next-header field
/// says ICMPv6. Packets with extension headers are not unwrapped.
pub open spec fn spec_icmpv6_payload(pkt: Seq<u8>) -> Option<Seq<u8>> {
    if pkt.len() >= 40 && pkt[6] == 58 {
        Some(pkt.skip(40))
    } else {
        None
    }
}

/// Slices the ICMPv6 message out of an IPv6 packet.
pub fn icmpv6_payload(pkt: &Vec<u8>) -> (r: Option<Vec<u8>>)
    ensures
        r matches Some(m) ==> spec_icmpv6_payload(pkt@) == Some(m@),
        r is None <==> spec_icmpv6_payload(pkt@) is None,
{
    let n = pkt.len();
    if n >= IPV6_HEADER_LEN && pkt[6] == PROTO_ICMPV6 {
        let mut out: Vec<u8> = Vec::new();
        let mut i: usize = IPV6_HEADER_LEN;
        while i < n
            invariant
                n == pkt@.len(),
                40 <= i <= n,
                out@ == pkt@.subrange(40, i as int),
            decreases n - i,
        {
            out.push(pkt[i]);
            proof {
                assert(pkt@.subrange(40, i as int + 1) =~= pkt@.subrange(40, i as int).push(
                    pkt@[i as int],
                ));
            }
            i = i + 1;
        }
        proof {
            assert(pkt@.subrange(40, n as int) =~= pkt@.skip(40));
        }
        Some(out)
    } else {
        None
    }
}

/// Checks whether a message is a Router Advertisement.
pub fn is_router_advertisement(msg: &Vec<u8>) -> (r: bool)
    ensures
        r == spec_is_ra(msg@),
{
    msg.len() >= RA_HEADER_LEN && msg[0] == ICMPV6_TYPE_RA
}

/// Reads the big-endian 128-bit value of the 16 bytes at `start`.
fn be_u128(msg: &Vec<u8>, start: usize) -> (r: u128)
    requires
        start + 16 <= msg@.len(),
    ensures
        r as int == spec_be_val(msg@.subrange(start as int, start as int + 16)),
{
    let n = msg.len();
    let mut acc: u128 = 0;
    let mut k: usize = 0;
    while k < 16
        invariant
            n == msg@.len(),
            start + 16 <= n,
            k <= 16,
            acc as int == spec_be_val(msg@.subrange(start as int, start as int + k as int)),
            (acc as int) < pow256(k as nat),
        decreases 16 - k,
    {
        proof {
            lemma_pow256_mono((k + 1) as nat, 16);
            lemma_pow256_16();
            lemma_pow256_pos(k as nat);
            assert(pow256((k + 1) as nat) == 256 * pow256(k as nat));
            assert(acc * 256 + 255 < 256 * pow256(k as nat)) by (nonlinear_arith)
                requires
                    0 <= acc as int,
                    (acc as int) < pow256(k as nat),
                    pow256(k as nat) >= 1,
            ;
        }
        let b = msg[start + k];
        let ghost prior = msg@.subrange(start as int, start as int + k as int);
        acc = acc * 256 + (b as u128);
        proof {
            let ext = msg@.subrange(start as int, start as int + k as int + 1);
            assert(ext.drop_last() =~= prior);
            assert(ext.last() == msg@[start as int + k as int]);
        }
        k = k + 1;
    }
    acc
}

/// Extracts the prefixes a message advertises, in canonical form and in
/// the order they appear. A message that is not a Router Advertisement,
/// and any malformed tail of one, yields nothing: extraction never fails.
pub fn extract_prefixes(msg: &Vec<u8>) -> (r: Vec<NetworkPrefix>)
    ensures
        r@ == spec_ra_prefixes(msg@),
        forall|j: int| 0 <= j < r@.len() ==> (#[trigger] r@[j]).wf(),
{
    let mut out: Vec<NetworkPrefix> = Vec::new();
    if !is_router_advertisement(msg) {
        return out;
    }
    let n = msg.len();
    let mut i: usize = RA_HEADER_LEN;
    while i <= n - 2
        invariant
            spec_is_ra(msg@),
            n == msg@.len(),
            16 <= i <= n,
            spec_ra_prefixes(msg@) == out@ + spec_prefixes_from(msg@, i as int),
            forall|j: int| 0 <= j < out@.len() ==> (#[trigger] out@[j]).wf(),
        decreases n - i,
    {
        let t = msg[i];
        let l = msg[i + 1];
        if l == 0 {
            proof {
                assert(spec_prefixes_from(msg@, i as int) =~= Seq::<NetworkPrefix>::empty());
                assert(spec_prefixes_from(msg@, n as int) =~= Seq::<NetworkPrefix>::empty());
            }
            i = n;
        } else {
            let optlen: usize = 8 * (l as usize);
            if optlen > n - i {
                proof {
                    assert(spec_prefixes_from(msg@, i as int) =~= Seq::<NetworkPrefix>::empty());
                    assert(spec_prefixes_from(msg@, n as int) =~= Seq::<NetworkPrefix>::empty());
                }
                i = n;
            } else {
                let ghost rest = spec_prefixes_from(msg@, i as int + 8 * (l as int));
                if t == OPT_PREFIX_INFORMATION && l == 4 {
                    let plen = msg[i + OPT_PREFIX_LEN_OFFSET];
                    if plen <= 128 {
                        let a = be_u128(msg, i + OPT_PREFIX_ADDR_OFFSET);
                        proof {
                            lemma_be_val_bound(
                                msg@.subrange(i as int + 16, i as int + 32),
                            );
                            lemma_pow256_16();
                            lemma_truncate_idempotent(a, plen);
                        }
                        let p = NetworkPrefix { addr: truncate_addr(a, plen), len: plen };
                        out.push(p);
                        proof {
                            assert(a == spec_addr_at(msg@, i as int + 16));
                            assert(spec_option_prefixes(msg@, i as int) =~= seq![p]);
                            assert(spec_prefixes_from(msg@, i as int) == seq![p] + rest);
                        }
                    } else {
                        proof {
                            assert(spec_option_prefixes(msg@, i as int) =~= Seq::<
                                NetworkPrefix,
                            >::empty());
                            assert(spec_prefixes_from(msg@, i as int) == Seq::<
                                NetworkPrefix,
                            >::empty() + rest);
                        }
                    }
                } else {
                    proof {
                        assert(spec_prefixes_from(msg@, i as int) == rest);
                    }
                }
                proof {
                    assert(out@ + rest =~= (out@ + rest));
                }
                i = i + optlen;
            }
        }
        proof {
            assert(spec_ra_prefixes(msg@) =~= out@ + spec_prefixes_from(msg@, i as int));
        }
    }
    proof {
        assert(spec_prefixes_from(msg@, i as int) =~= Seq::<NetworkPrefix>::empty());
        assert(out@ + Seq::<NetworkPrefix>::empty() =~= out@);
    }
    out
}

} // verus!
