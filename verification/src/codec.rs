//! Low-level text encoding helpers: hexadecimal digits and decimal integer
//! rendering, stated over `Seq<char>` models and built by appending to a
//! `String`.

use vstd::prelude::*;
use vstd::string::*;

verus! {

/// The uppercase hexadecimal digit for a nibble value.
pub open spec fn hex_upper(n: u8) -> char
    recommends
        n < 16,
{
    if n == 0 {
        '0'
    } else if n == 1 {
        '1'
    } else if n == 2 {
        '2'
    } else if n == 3 {
        '3'
    } else if n == 4 {
        '4'
    } else if n == 5 {
        '5'
    } else if n == 6 {
        '6'
    } else if n == 7 {
        '7'
    } else if n == 8 {
        '8'
    } else if n == 9 {
        '9'
    } else if n == 10 {
        'A'
    } else if n == 11 {
        'B'
    } else if n == 12 {
        'C'
    } else if n == 13 {
        'D'
    } else if n == 14 {
        'E'
    } else {
        'F'
    }
}

/// The lowercase hexadecimal digit for a nibble value. For values below ten
/// this doubles as the decimal digit.
pub open spec fn hex_lower(n: u8) -> char
    recommends
        n < 16,
{
    if n == 0 {
        '0'
    } else if n == 1 {
        '1'
    } else if n == 2 {
        '2'
    } else if n == 3 {
        '3'
    } else if n == 4 {
        '4'
    } else if n == 5 {
        '5'
    } else if n == 6 {
        '6'
    } else if n == 7 {
        '7'
    } else if n == 8 {
        '8'
    } else if n == 9 {
        '9'
    } else if n == 10 {
        'a'
    } else if n == 11 {
        'b'
    } else if n == 12 {
        'c'
    } else if n == 13 {
        'd'
    } else if n == 14 {
        'e'
    } else {
        'f'
    }
}

/// Two uppercase hex digits for one byte, high nibble first.
pub open spec fn hex_pair_upper(b: u8) -> Seq<char> {
    seq![hex_upper(b / 16), hex_upper(b % 16)]
}

/// Two lowercase hex digits for one byte, high nibble first.
pub open spec fn hex_pair_lower(b: u8) -> Seq<char> {
    seq![hex_lower(b / 16), hex_lower(b % 16)]
}

/// Lowercase hex rendering of a byte sequence: two digits per byte, no
/// separators.
pub open spec fn hex_chars_lower(bs: Seq<u8>) -> Seq<char>
    decreases bs.len(),
{
    if bs.len() == 0 {
        Seq::<char>::empty()
    } else {
        hex_chars_lower(bs.drop_last()) + hex_pair_lower(bs.last())
    }
}

/// Decimal rendering of a natural number: no leading zeros, at least one
/// digit.
pub open spec fn dec_chars_nat(n: nat) -> Seq<char>
    decreases n,
{
    if n < 10 {
        seq![hex_lower(n as u8)]
    } else {
        dec_chars_nat(n / 10) + seq![hex_lower((n % 10) as u8)]
    }
}

/// Signed decimal rendering: a leading minus sign for negative values.
pub open spec fn dec_chars_int(n: int) -> Seq<char> {
    if n < 0 {
        seq!['-'] + dec_chars_nat((-n) as nat)
    } else {
        dec_chars_nat(n as nat)
    }
}

/// Appends the uppercase hex digit of a nibble.
pub fn append_hex_upper(s: &mut String, n: u8)
    requires
        n < 16,
    ensures
        final(s)@ == old(s)@ + seq![hex_upper(n)],
{
    proof {
        reveal_strlit("0");
        reveal_strlit("1");
        reveal_strlit("2");
        reveal_strlit("3");
        reveal_strlit("4");
        reveal_strlit("5");
        reveal_strlit("6");
        reveal_strlit("7");
        reveal_strlit("8");
        reveal_strlit("9");
        reveal_strlit("A");
        reveal_strlit("B");
        reveal_strlit("C");
        reveal_strlit("D");
        reveal_strlit("E");
        reveal_strlit("F");
    }
    let d: &str = if n == 0 {
        "0"
    } else if n == 1 {
        "1"
    } else if n == 2 {
        "2"
    } else if n == 3 {
        "3"
    } else if n == 4 {
        "4"
    } else if n == 5 {
        "5"
    } else if n == 6 {
        "6"
    } else if n == 7 {
        "7"
    } else if n == 8 {
        "8"
    } else if n == 9 {
        "9"
    } else if n == 10 {
        "A"
    } else if n == 11 {
        "B"
    } else if n == 12 {
        "C"
    } else if n == 13 {
        "D"
    } else if n == 14 {
        "E"
    } else {
        "F"
    };
    s.append(d);
    proof {
        assert(s@ =~= old(s)@ + seq![hex_upper(n)]);
    }
}

/// Appends the lowercase hex digit of a nibble.
pub fn append_hex_lower(s: &mut String, n: u8)
    requires
        n < 16,
    ensures
        final(s)@ == old(s)@ + seq![hex_lower(n)],
{
    proof {
        reveal_strlit("0");
        reveal_strlit("1");
        reveal_strlit("2");
        reveal_strlit("3");
        reveal_strlit("4");
        reveal_strlit("5");
        reveal_strlit("6");
        reveal_strlit("7");
        reveal_strlit("8");
        reveal_strlit("9");
        reveal_strlit("a");
        reveal_strlit("b");
        reveal_strlit("c");
        reveal_strlit("d");
        reveal_strlit("e");
        reveal_strlit("f");
    }
    let d: &str = if n == 0 {
        "0"
    } else if n == 1 {
        "1"
    } else if n == 2 {
        "2"
    } else if n == 3 {
        "3"
    } else if n == 4 {
        "4"
    } else if n == 5 {
        "5"
    } else if n == 6 {
        "6"
    } else if n == 7 {
        "7"
    } else if n == 8 {
        "8"
    } else if n == 9 {
        "9"
    } else if n == 10 {
        "a"
    } else if n == 11 {
        "b"
    } else if n == 12 {
        "c"
    } else if n == 13 {
        "d"
    } else if n == 14 {
        "e"
    } else {
        "f"
    };
    s.append(d);
    proof {
        assert(s@ =~= old(s)@ + seq![hex_lower(n)]);
    }
}

/// Appends both uppercase hex digits of a byte, high nibble first.
pub fn append_hex_byte_upper(s: &mut String, b: u8)
    ensures
        final(s)@ == old(s)@ + hex_pair_upper(b),
{
    append_hex_upper(s, b / 16);
    append_hex_upper(s, b % 16);
    proof {
        assert(s@ =~= old(s)@ + hex_pair_upper(b));
    }
}

/// Appends both lowercase hex digits of a byte, high nibble first.
pub fn append_hex_byte_lower(s: &mut String, b: u8)
    ensures
        final(s)@ == old(s)@ + hex_pair_lower(b),
{
    append_hex_lower(s, b / 16);
    append_hex_lower(s, b % 16);
    proof {
        assert(s@ =~= old(s)@ + hex_pair_lower(b));
    }
}

/// Appends the lowercase hex rendering of a whole byte sequence.
pub fn append_hex_bytes_lower(s: &mut String, bytes: &Vec<u8>)
    ensures
        final(s)@ == old(s)@ + hex_chars_lower(bytes@),
{
    let ghost s0: Seq<char> = s@;
    let mut i: usize = 0;
    while i < bytes.len()
        invariant
            i <= bytes.len(),
            s@ == s0 + hex_chars_lower(bytes@.subrange(0, i as int)),
        decreases bytes.len() - i,
    {
        append_hex_byte_lower(s, bytes[i]);
        proof {
            let pre = bytes@.subrange(0, i as int);
            let post = bytes@.subrange(0, i as int + 1);
            assert(post.drop_last() =~= pre);
            assert(post.last() == bytes@[i as int]);
            assert(s@ =~= s0 + hex_chars_lower(post));
        }
        i = i + 1;
    }
    proof {
        assert(bytes@.subrange(0, bytes@.len() as int) =~= bytes@);
    }
}

/// Appends the decimal digits of `n`, no leading zeros.
pub fn append_dec_u32(s: &mut String, n: u32)
    ensures
        final(s)@ == old(s)@ + dec_chars_nat(n as nat),
    decreases n,
{
    if n < 10 {
        append_hex_lower(s, n as u8);
    } else {
        append_dec_u32(s, n / 10);
        append_hex_lower(s, (n % 10) as u8);
        proof {
            assert(s@ =~= old(s)@ + dec_chars_nat(n as nat));
        }
    }
}

/// Appends the signed decimal rendering of `n`.
pub fn append_dec_i32(s: &mut String, n: i32)
    ensures
        final(s)@ == old(s)@ + dec_chars_int(n as int),
{
    if n < 0 {
        proof {
            reveal_strlit("-");
        }
        s.append("-");
        let mag: u32 = (-(n as i64)) as u32;
        append_dec_u32(s, mag);
        proof {
            assert(s@ =~= old(s)@ + dec_chars_int(n as int));
        }
    } else {
        append_dec_u32(s, n as u32);
    }
}

} // verus!
