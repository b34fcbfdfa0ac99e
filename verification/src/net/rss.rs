//! The hash types of receive-side scaling, after the Microsoft RSS standard.
//! A hash type says over which fields of the packet the flow id was hashed.

use vstd::prelude::*;

verus! {

/// The type has hash properties.
pub const M_HASHTYPE_HASHPROP: u32 = 0x80;

/// The hash type number `t`, marked as one that has hash properties.
pub open spec fn spec_hashtype_hash(t: u32) -> u32 {
    M_HASHTYPE_HASHPROP | t
}

/// Marks the hash type number `t` as one that has hash properties.
#[verifier::when_used_as_spec(spec_hashtype_hash)]
pub fn hashtype_hash(t: u32) -> (r: u32)
    ensures
        r == spec_hashtype_hash(t),
{
    M_HASHTYPE_HASHPROP | t
}

/// No hashing
pub const M_HASHTYPE_NONE: u32 = 0;

/// IPv4 2-tuple
pub const M_HASHTYPE_RSS_IPV4: u32 = M_HASHTYPE_HASHPROP | 1;

/// TCPv4 4-tuple
pub const M_HASHTYPE_RSS_TCP_IPV4: u32 = M_HASHTYPE_HASHPROP | 2;

/// IPv6 2-tuple
pub const M_HASHTYPE_RSS_IPV6: u32 = M_HASHTYPE_HASHPROP | 3;

/// TCPv6 4-tuple
pub const M_HASHTYPE_RSS_TCP_IPV6: u32 = M_HASHTYPE_HASHPROP | 4;

/// IPv6 2-tuple + ext hdrs
pub const M_HASHTYPE_RSS_IPV6_EX: u32 = M_HASHTYPE_HASHPROP | 5;

/// TCPv6 4-tuple + ext hdrs
pub const M_HASHTYPE_RSS_TCP_IPV6_EX: u32 = M_HASHTYPE_HASHPROP | 6;

/// IPv4 UDP 4-tuple
pub const M_HASHTYPE_RSS_UDP_IPV4: u32 = M_HASHTYPE_HASHPROP | 7;

/// IPv6 UDP 4-tuple
pub const M_HASHTYPE_RSS_UDP_IPV6: u32 = M_HASHTYPE_HASHPROP | 9;

/// IPv6 UDP 4-tuple + ext hdrs
pub const M_HASHTYPE_RSS_UDP_IPV6_EX: u32 = M_HASHTYPE_HASHPROP | 10;

/// ordering, not affinity
pub const M_HASHTYPE_OPAQUE: u32 = 63;

/// ordering+hash, not affinity
pub const M_HASHTYPE_OPAQUE_HASH: u32 = M_HASHTYPE_HASHPROP | M_HASHTYPE_OPAQUE;

/// Whether a hash type has hash properties: whether its flow id is a hash
/// over fields of the packet.
pub open spec fn has_hash_properties(hashtype: u32) -> bool {
    hashtype & M_HASHTYPE_HASHPROP != 0
}

/// Marking a hash type number gives it hash properties and keeps the
/// number, as long as the number lies below the mark.
pub proof fn lemma_hashtype_hash_marks(t: u32)
    ensures
        has_hash_properties(spec_hashtype_hash(t)),
        t < 0x80 ==> spec_hashtype_hash(t) == 0x80 + t,
        t < 0x80 ==> spec_hashtype_hash(t) & 0x7f == t,
{
    assert((0x80u32 | t) & 0x80u32 != 0) by (bit_vector);
    assert(t < 0x80 ==> (0x80u32 | t) == 0x80 + t) by (bit_vector);
    assert(t < 0x80 ==> (0x80u32 | t) & 0x7f == t) by (bit_vector);
}

} // verus!
