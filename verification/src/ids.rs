//! Textual form of a 128-bit machine identifier: thirty-two lowercase
//! hexadecimal digits in five hyphen-separated groups of 8, 4, 4, 4 and 12,
//! most significant digit first.

use vstd::prelude::*;

verus! {

/// The lowercase hexadecimal digit for a value below sixteen.
pub open spec fn hex_char(n: u8) -> char {
    if n == 0 {
        '0'
    } else if n == 1 {
        '1'
    } else if n == 2 {
        '2'
    } else if n == 3 {
        '3'
    } else if n == 4 {
        '4'
    } else if n == 5 {
        '5'
    } else if n == 6 {
        '6'
    } else if n == 7 {
        '7'
    } else if n == 8 {
        '8'
    } else if n == 9 {
        '9'
    } else if n == 10 {
        'a'
    } else if n == 11 {
        'b'
    } else if n == 12 {
        'c'
    } else if n == 13 {
        'd'
    } else if n == 14 {
        'e'
    } else {
        'f'
    }
}

/// The `i`-th hexadecimal digit of `id`, most significant first.
pub open spec fn nibble(id: u128, i: int) -> u8
    recommends
        0 <= i < 32,
{
    ((id >> (((31 - i) * 4) as u128)) & 0xf) as u8
}

/// Whether position `j` of the textual form holds a hyphen.
pub open spec fn hyphen_pos(j: int) -> bool {
    j == 8 || j == 13 || j == 18 || j == 23
}

/// The digit drawn at a non-hyphen position `j` of the textual form.
pub open spec fn digit_index(j: int) -> int {
    if j < 8 {
        j
    } else if j < 13 {
        j - 1
    } else if j < 18 {
        j - 2
    } else if j < 23 {
        j - 3
    } else {
        j - 4
    }
}

/// The 36-character textual form of `id`.
pub open spec fn id_chars(id: u128) -> Seq<char> {
    Seq::new(
        36,
        |j: int|
            if hyphen_pos(j) {
                '-'
            } else {
                hex_char(nibble(id, digit_index(j)))
            },
    )
}

/// Appends the lowercase hexadecimal digit for `d`.
fn push_hex_digit(r: &mut String, d: u8)
    requires
        d <= 15,
    ensures
        final(r)@ == old(r)@ + seq![hex_char(d)],
{
    proof {
        reveal_strlit("0");
        reveal_strlit("1");
        reveal_strlit("2");
        reveal_strlit("3");
        reveal_strlit("4");
        reveal_strlit("5");
        reveal_strlit("6");
        reveal_strlit("7");
        reveal_strlit("8");
        reveal_strlit("9");
        reveal_strlit("a");
        reveal_strlit("b");
        reveal_strlit("c");
        reveal_strlit("d");
        reveal_strlit("e");
        reveal_strlit("f");
    }
    if d == 0 {
        r.append("0");
    } else if d == 1 {
        r.append("1");
    } else if d == 2 {
        r.append("2");
    } else if d == 3 {
        r.append("3");
    } else if d == 4 {
        r.append("4");
    } else if d == 5 {
        r.append("5");
    } else if d == 6 {
        r.append("6");
    } else if d == 7 {
        r.append("7");
    } else if d == 8 {
        r.append("8");
    } else if d == 9 {
        r.append("9");
    } else if d == 10 {
        r.append("a");
    } else if d == 11 {
        r.append("b");
    } else if d == 12 {
        r.append("c");
    } else if d == 13 {
        r.append("d");
    } else if d == 14 {
        r.append("e");
    } else {
        r.append("f");
    }
    proof {
        assert(r@ =~= old(r)@ + seq![hex_char(d)]);
    }
}

/// The textual form of a machine identifier.
pub fn id_string(id: u128) -> (r: String)
    ensures
        r@ == id_chars(id),
        r@.len() == 36,
{
    let mut r = String::new();
    proof {
        reveal_strlit("-");
    }
    for j in 0..36usize
        invariant
            r@.len() == j,
            forall|t: int| 0 <= t < j ==> r@[t] == id_chars(id)[t],
    {
        if j == 8 || j == 13 || j == 18 || j == 23 {
            proof {
                reveal_strlit("-");
            }
            r.append("-");
            assert(r@[j as int] == id_chars(id)[j as int]);
        } else {
            let i: usize = if j < 8 {
                j
            } else if j < 13 {
                j - 1
            } else if j < 18 {
                j - 2
            } else if j < 23 {
                j - 3
            } else {
                j - 4
            };
            let sh: u128 = ((31 - i) * 4) as u128;
            let d: u8 = ((id >> sh) & 0xf) as u8;
            proof {
                assert((id >> sh) & 0xf <= 15) by (bit_vector);
                assert(d == nibble(id, digit_index(j as int)));
            }
            push_hex_digit(&mut r, d);
            assert(r@[j as int] == id_chars(id)[j as int]);
        }
    }
    proof {
        assert(r@ =~= id_chars(id));
    }
    r
}

} // verus!
