//! Flags that say which checksum, segmentation and other offload work is to
//! be done, or was done, by the hardware or by lower layers. Outbound flags
//! are set by the upper layers to ask for the work; inbound flags are set by
//! the driver to report it. The two groups share one word and no bit.
//!
//! `CSUM_INNER_<x>` is the same as `CSUM_<x>` for the inner frame of an
//! encapsulated packet; the `CSUM_ENCAP_<x>` bits name the outer
//! encapsulation.

use vstd::prelude::*;

verus! {

/// IP header checksum offload
pub const CSUM_IP: u32 = 0x00000001;

/// UDP checksum offload
pub const CSUM_IP_UDP: u32 = 0x00000002;

/// TCP checksum offload
pub const CSUM_IP_TCP: u32 = 0x00000004;

/// SCTP checksum offload
pub const CSUM_IP_SCTP: u32 = 0x00000008;

/// TCP segmentation offload
pub const CSUM_IP_TSO: u32 = 0x00000010;

/// iSCSI checksum offload
pub const CSUM_IP_ISCSI: u32 = 0x00000020;

/// UDP checksum offload for an inner IPv6 frame
pub const CSUM_INNER_IP6_UDP: u32 = 0x00000040;

/// TCP checksum offload for an inner IPv6 frame
pub const CSUM_INNER_IP6_TCP: u32 = 0x00000080;

/// TCP segmentation offload for an inner IPv6 frame
pub const CSUM_INNER_IP6_TSO: u32 = 0x00000100;

/// UDP checksum offload over IPv6
pub const CSUM_IP6_UDP: u32 = 0x00000200;

/// TCP checksum offload over IPv6
pub const CSUM_IP6_TCP: u32 = 0x00000400;

/// SCTP checksum offload over IPv6
pub const CSUM_IP6_SCTP: u32 = 0x00000800;

/// TCP segmentation offload over IPv6
pub const CSUM_IP6_TSO: u32 = 0x00001000;

/// iSCSI checksum offload over IPv6
pub const CSUM_IP6_ISCSI: u32 = 0x00002000;

/// IP header checksum offload for an inner frame
pub const CSUM_INNER_IP: u32 = 0x00004000;

/// UDP checksum offload for an inner frame
pub const CSUM_INNER_IP_UDP: u32 = 0x00008000;

/// TCP checksum offload for an inner frame
pub const CSUM_INNER_IP_TCP: u32 = 0x00010000;

/// TCP segmentation offload for an inner frame
pub const CSUM_INNER_IP_TSO: u32 = 0x00020000;

/// VXLAN outer encapsulation
pub const CSUM_ENCAP_VXLAN: u32 = 0x00040000;

/// Reserved for a further outer encapsulation
pub const CSUM_ENCAP_RSVD1: u32 = 0x00080000;

/// The hardware calculated the layer 3 checksum of the inner frame
pub const CSUM_INNER_L3_CALC: u32 = 0x00100000;

/// The layer 3 checksum of the inner frame is correct
pub const CSUM_INNER_L3_VALID: u32 = 0x00200000;

/// The hardware calculated the layer 4 checksum of the inner frame
pub const CSUM_INNER_L4_CALC: u32 = 0x00400000;

/// The layer 4 checksum of the inner frame is correct
pub const CSUM_INNER_L4_VALID: u32 = 0x00800000;

/// The hardware calculated the layer 3 checksum
pub const CSUM_L3_CALC: u32 = 0x01000000;

/// The layer 3 checksum is correct
pub const CSUM_L3_VALID: u32 = 0x02000000;

/// The hardware calculated the layer 4 checksum
pub const CSUM_L4_CALC: u32 = 0x04000000;

/// The layer 4 checksum is correct
pub const CSUM_L4_VALID: u32 = 0x08000000;

/// The hardware calculated the layer 5 checksum
pub const CSUM_L5_CALC: u32 = 0x10000000;

/// The layer 5 checksum is correct
pub const CSUM_L5_VALID: u32 = 0x20000000;

/// The packet holds merged segments
pub const CSUM_COALESCED: u32 = 0x40000000;

/// The packet header has a send tag
pub const CSUM_SND_TAG: u32 = 0x80000000;

/// The IP header checksum was checked
pub const CSUM_IP_CHECKED: u32 = CSUM_L3_CALC;

/// The IP header checksum is valid
pub const CSUM_IP_VALID: u32 = CSUM_L3_VALID;

/// The checksum over the data is valid
pub const CSUM_DATA_VALID: u32 = CSUM_L4_VALID;

/// The checksum takes in the pseudo header
pub const CSUM_PSEUDO_HDR: u32 = CSUM_L4_CALC;

/// The SCTP checksum is valid
pub const CSUM_SCTP_VALID: u32 = CSUM_L4_VALID;

/// The checksum over the data is still to be calculated
pub const CSUM_DELAY_DATA: u32 = CSUM_TCP | CSUM_UDP;

/// The IP header checksum is still to be calculated (IPv4 only)
pub const CSUM_DELAY_IP: u32 = CSUM_IP;

/// The checksum over the data of an IPv6 packet is still to be calculated
pub const CSUM_DELAY_DATA_IPV6: u32 = CSUM_TCP_IPV6 | CSUM_UDP_IPV6;

/// The checksum over the data of an IPv6 packet is valid
pub const CSUM_DATA_VALID_IPV6: u32 = CSUM_DATA_VALID;

/// TCP checksum offload
pub const CSUM_TCP: u32 = CSUM_IP_TCP;

/// UDP checksum offload
pub const CSUM_UDP: u32 = CSUM_IP_UDP;

/// SCTP checksum offload
pub const CSUM_SCTP: u32 = CSUM_IP_SCTP;

/// TCP segmentation offload, over IPv4 or IPv6
pub const CSUM_TSO: u32 = CSUM_IP_TSO | CSUM_IP6_TSO;

/// TCP segmentation offload for an inner frame, IPv4 or IPv6
pub const CSUM_INNER_TSO: u32 = CSUM_INNER_IP_TSO | CSUM_INNER_IP6_TSO;

/// UDP checksum offload over IPv6
pub const CSUM_UDP_IPV6: u32 = CSUM_IP6_UDP;

/// TCP checksum offload over IPv6
pub const CSUM_TCP_IPV6: u32 = CSUM_IP6_TCP;

/// SCTP checksum offload over IPv6
pub const CSUM_SCTP_IPV6: u32 = CSUM_IP6_SCTP;

/// All outbound flags
pub const CSUM_FLAGS_TX: u32 = CSUM_IP | CSUM_IP_UDP | CSUM_IP_TCP | CSUM_IP_SCTP | CSUM_IP_TSO
    | CSUM_IP_ISCSI | CSUM_INNER_IP6_UDP | CSUM_INNER_IP6_TCP | CSUM_INNER_IP6_TSO | CSUM_IP6_UDP
    | CSUM_IP6_TCP | CSUM_IP6_SCTP | CSUM_IP6_TSO | CSUM_IP6_ISCSI | CSUM_INNER_IP
    | CSUM_INNER_IP_UDP | CSUM_INNER_IP_TCP | CSUM_INNER_IP_TSO | CSUM_ENCAP_VXLAN
    | CSUM_ENCAP_RSVD1 | CSUM_SND_TAG;

/// All inbound flags
pub const CSUM_FLAGS_RX: u32 = CSUM_INNER_L3_CALC | CSUM_INNER_L3_VALID | CSUM_INNER_L4_CALC
    | CSUM_INNER_L4_VALID | CSUM_L3_CALC | CSUM_L3_VALID | CSUM_L4_CALC | CSUM_L4_VALID
    | CSUM_L5_CALC | CSUM_L5_VALID | CSUM_COALESCED;

/// Every flag is outbound or inbound and none is both, so a word of flags
/// falls apart into its outbound and its inbound flags.
pub proof fn lemma_directions_part_the_word(flags: u32)
    ensures
        CSUM_FLAGS_TX & CSUM_FLAGS_RX == 0,
        CSUM_FLAGS_TX | CSUM_FLAGS_RX == u32::MAX,
        (flags & CSUM_FLAGS_TX) | (flags & CSUM_FLAGS_RX) == flags,
        (flags & CSUM_FLAGS_TX) & (flags & CSUM_FLAGS_RX) == 0,
{
    assert(CSUM_FLAGS_TX == 0x800f_ffffu32) by (bit_vector);
    assert(CSUM_FLAGS_RX == 0x7ff0_0000u32) by (bit_vector);
    assert((flags & 0x800f_ffffu32) | (flags & 0x7ff0_0000u32) == flags) by (bit_vector);
    assert((flags & 0x800f_ffffu32) & (flags & 0x7ff0_0000u32) == 0) by (bit_vector);
    assert(0x800f_ffffu32 & 0x7ff0_0000u32 == 0) by (bit_vector);
    assert(0x800f_ffffu32 | 0x7ff0_0000u32 == 0xffff_ffffu32) by (bit_vector);
}

} // verus!
