//! Construction of the Wake-on-LAN magic packet.
//!
//! The payload is 6 bytes of `0xFF` followed by the six-byte hardware address
//! repeated 16 times, 102 bytes in all.  Broadcasting the datagram is network
//! I/O and is left to the surrounding application.

use vstd::prelude::*;
use crate::mac::MacAddr;

verus! {

/// The standard magic-packet layout for a six-byte hardware address `mac`:
/// six `0xFF` bytes, then `mac` repeated sixteen times.
pub open spec fn magic_packet_bytes(mac: Seq<u8>) -> Seq<u8>
    recommends
        mac.len() == 6,
{
    Seq::new(102, |i: int| if i < 6 { 0xffu8 } else { mac[(i - 6) % 6] })
}

/// The stateless magic-packet builder.
pub struct WakeOnLan {}

impl WakeOnLan {
    /// Builds the magic packet for `mac`: exactly 102 bytes, six `0xFF`
    /// bytes followed by the address repeated sixteen times.
    pub fn build_magic_packet(mac: &MacAddr) -> (packet: Vec<u8>)
        ensures
            packet@ == magic_packet_bytes(mac@),
            packet@.len() == 102,
    {
        let mut packet: Vec<u8> = Vec::new();
        for i in 0..6usize
            invariant
                packet@.len() == i,
                forall|j: int| 0 <= j < i ==> packet@[j] == 0xffu8,
        {
            packet.push(0xffu8);
        }
        for rep in 0..16usize
            invariant
                packet@.len() == 6 + 6 * rep,
                forall|j: int| 0 <= j < 6 ==> packet@[j] == 0xffu8,
                forall|j: int| 6 <= j < 6 + 6 * rep ==> packet@[j] == mac@[(j - 6) % 6],
        {
            for k in 0..6usize
                invariant
                    packet@.len() == 6 + 6 * rep + k,
                    rep < 16,
                    forall|j: int| 0 <= j < 6 ==> packet@[j] == 0xffu8,
                    forall|j: int| 6 <= j < 6 + 6 * rep + k ==> packet@[j] == mac@[(j - 6) % 6],
            {
                let ghost pos: int = 6 + 6 * rep + k;
                packet.push(mac.bytes[k]);
                proof {
                    assert((pos - 6) % 6 == k) by (nonlinear_arith)
                        requires
                            pos == 6 + 6 * rep + k,
                            0 <= k < 6,
                            0 <= rep,
                    ;
                }
            }
        }
        proof {
            assert(packet@ =~= magic_packet_bytes(mac@));
        }
        packet
    }
}

} // verus!
