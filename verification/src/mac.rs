//! Hardware (MAC) addresses: the six-byte address itself and the parser for
//! its textual form `XX:XX:XX:XX:XX:XX`.

use vstd::prelude::*;

verus! {

/// A six-byte hardware address, the target of a wake request.
#[derive(Clone, Copy)]
pub struct MacAddr {
    pub bytes: [u8; 6],
}

impl View for MacAddr {
    type V = Seq<u8>;

    open spec fn view(&self) -> Seq<u8> {
        self.bytes@
    }
}

impl MacAddr {
    pub fn new(bytes: [u8; 6]) -> (m: MacAddr)
        ensures
            m@ == bytes@,
    {
        MacAddr { bytes }
    }
}

/// Whether `c` is an ASCII hexadecimal digit.
pub open spec fn is_hex_digit(c: char) -> bool {
    ('0' <= c && c <= '9') || ('a' <= c && c <= 'f') || ('A' <= c && c <= 'F')
}

/// The numeric value of a hexadecimal digit.
pub open spec fn hex_val(c: char) -> u8 {
    if '0' <= c && c <= '9' {
        (c as int - '0' as int) as u8
    } else if 'a' <= c && c <= 'f' {
        (c as int - 'a' as int + 10) as u8
    } else if 'A' <= c && c <= 'F' {
        (c as int - 'A' as int + 10) as u8
    } else {
        0
    }
}

/// A well-formed MAC string: six hexadecimal byte pairs separated by colons,
/// seventeen characters in all.
pub open spec fn mac_well_formed(s: Seq<char>) -> bool {
    &&& s.len() == 17
    &&& forall|i: int| 0 <= i < 17 && i % 3 == 2 ==> s[i] == ':'
    &&& forall|i: int| 0 <= i < 17 && i % 3 != 2 ==> is_hex_digit(s[i])
}

/// The six bytes denoted by a well-formed MAC string.
pub open spec fn mac_bytes_of(s: Seq<char>) -> Seq<u8> {
    Seq::new(6, |k: int| (hex_val(s[3 * k]) * 16 + hex_val(s[3 * k + 1])) as u8)
}

/// The value of one hexadecimal digit character, or `None` if `c` is not one.
fn hex_digit_value(c: char) -> (r: Option<u8>)
    ensures
        r is Some <==> is_hex_digit(c),
        r is Some ==> r->0 == hex_val(c) && r->0 <= 15,
{
    if '0' <= c && c <= '9' {
        Some((c as u32 - '0' as u32) as u8)
    } else if 'a' <= c && c <= 'f' {
        Some((c as u32 - 'a' as u32 + 10) as u8)
    } else if 'A' <= c && c <= 'F' {
        Some((c as u32 - 'A' as u32 + 10) as u8)
    } else {
        None
    }
}

/// The byte written at positions `j`, `j + 1` of `s`, or `None` if either
/// character is not a hexadecimal digit.
fn parse_byte_at(s: &str, j: usize) -> (r: Option<u8>)
    requires
        j < 16,
        j + 1 < s@.len(),
    ensures
        r is Some <==> is_hex_digit(s@[j as int]) && is_hex_digit(s@[j + 1]),
        r is Some ==> r->0 == hex_val(s@[j as int]) * 16 + hex_val(s@[j + 1]),
{
    let hi = match hex_digit_value(s.get_char(j)) {
        Some(v) => v,
        None => {
            return None;
        },
    };
    let lo = match hex_digit_value(s.get_char(j + 1)) {
        Some(v) => v,
        None => {
            return None;
        },
    };
    Some(hi * 16 + lo)
}

/// Parses the textual form of a hardware address.  Returns the six bytes
/// exactly when the string is well-formed, and `None` otherwise.
pub fn parse_mac(s: &str) -> (r: Option<MacAddr>)
    ensures
        r is Some <==> mac_well_formed(s@),
        r is Some ==> r->0@ == mac_bytes_of(s@),
{
    let len = s.unicode_len();
    if len != 17 {
        return None;
    }
    if s.get_char(2) != ':' || s.get_char(5) != ':' || s.get_char(8) != ':' || s.get_char(11)
        != ':' || s.get_char(14) != ':' {
        return None;
    }
    let b0 = match parse_byte_at(s, 0) {
        Some(v) => v,
        None => {
            return None;
        },
    };
    let b1 = match parse_byte_at(s, 3) {
        Some(v) => v,
        None => {
            return None;
        },
    };
    let b2 = match parse_byte_at(s, 6) {
        Some(v) => v,
        None => {
            return None;
        },
    };
    let b3 = match parse_byte_at(s, 9) {
        Some(v) => v,
        None => {
            return None;
        },
    };
    let b4 = match parse_byte_at(s, 12) {
        Some(v) => v,
        None => {
            return None;
        },
    };
    let b5 = match parse_byte_at(s, 15) {
        Some(v) => v,
        None => {
            return None;
        },
    };
    let m = MacAddr { bytes: [b0, b1, b2, b3, b4, b5] };
    proof {
        assert forall|i: int| 0 <= i < 17 && i % 3 == 2 implies s@[i] == ':' by {
            assert(i == 2 || i == 5 || i == 8 || i == 11 || i == 14);
        }
        assert forall|i: int| 0 <= i < 17 && i % 3 != 2 implies is_hex_digit(s@[i]) by {
            assert(i == 0 || i == 1 || i == 3 || i == 4 || i == 6 || i == 7 || i == 9 || i == 10
                || i == 12 || i == 13 || i == 15 || i == 16);
        }
        assert(mac_well_formed(s@));
        assert(m@ =~= mac_bytes_of(s@));
    }
    Some(m)
}

} // verus!
