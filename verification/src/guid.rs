//! 128-bit identifiers and their canonical braced, hyphen-grouped,
//! uppercase-hexadecimal rendering.

use vstd::prelude::*;
use vstd::string::*;
use crate::codec::{append_hex_byte_upper, hex_pair_upper, hex_upper};

verus! {

/// A 128-bit identifier, stored as its 16 bytes in canonical order.
/// Immutable once constructed.
#[derive(Clone, Copy)]
pub struct Guid {
    pub bytes: [u8; 16],
}

impl View for Guid {
    type V = Seq<u8>;

    open spec fn view(&self) -> Seq<u8> {
        self.bytes@
    }
}

/// The canonical textual form of a 16-byte identifier: uppercase hex pairs,
/// hyphens after the 4th, 6th, 8th and 10th byte, wrapped in braces.
pub open spec fn braced_of(b: Seq<u8>) -> Seq<char>
    recommends
        b.len() == 16,
{
    seq!['{'] + hex_pair_upper(b[0]) + hex_pair_upper(b[1]) + hex_pair_upper(b[2]) + hex_pair_upper(
        b[3],
    ) + seq!['-'] + hex_pair_upper(b[4]) + hex_pair_upper(b[5]) + seq!['-'] + hex_pair_upper(b[6])
        + hex_pair_upper(b[7]) + seq!['-'] + hex_pair_upper(b[8]) + hex_pair_upper(b[9])
        + seq!['-'] + hex_pair_upper(b[10]) + hex_pair_upper(b[11]) + hex_pair_upper(b[12])
        + hex_pair_upper(b[13]) + hex_pair_upper(b[14]) + hex_pair_upper(b[15]) + seq!['}']
}

impl Guid {
    /// Builds an identifier from its 16 bytes in canonical order.
    pub fn from_bytes(bytes: [u8; 16]) -> (g: Guid)
        ensures
            g@ == bytes@,
    {
        Guid { bytes }
    }

    /// Structural equality of two identifiers.
    pub fn eq_guid(&self, other: &Guid) -> (r: bool)
        ensures
            r == (self@ == other@),
    {
        let r = self.bytes[0] == other.bytes[0] && self.bytes[1] == other.bytes[1]
            && self.bytes[2] == other.bytes[2] && self.bytes[3] == other.bytes[3] && self.bytes[4]
            == other.bytes[4] && self.bytes[5] == other.bytes[5] && self.bytes[6] == other.bytes[6]
            && self.bytes[7] == other.bytes[7] && self.bytes[8] == other.bytes[8] && self.bytes[9]
            == other.bytes[9] && self.bytes[10] == other.bytes[10] && self.bytes[11]
            == other.bytes[11] && self.bytes[12] == other.bytes[12] && self.bytes[13]
            == other.bytes[13] && self.bytes[14] == other.bytes[14] && self.bytes[15]
            == other.bytes[15];
        proof {
            if r {
                assert(self@ =~= other@);
            }
            if self@ == other@ {
                assert(forall|i: int| 0 <= i < 16 ==> self.bytes@[i] == other.bytes@[i]);
            }
        }
        r
    }

    /// Renders the identifier in its canonical braced form. Always succeeds;
    /// the result depends only on the 16 bytes.
    pub fn to_braced(&self) -> (s: String)
        ensures
            s@ == braced_of(self@),
    {
        proof {
            reveal_strlit("{");
            reveal_strlit("-");
            reveal_strlit("}");
        }
        let mut s = String::new();
        s.append("{");
        append_hex_byte_upper(&mut s, self.bytes[0]);
        append_hex_byte_upper(&mut s, self.bytes[1]);
        append_hex_byte_upper(&mut s, self.bytes[2]);
        append_hex_byte_upper(&mut s, self.bytes[3]);
        s.append("-");
        append_hex_byte_upper(&mut s, self.bytes[4]);
        append_hex_byte_upper(&mut s, self.bytes[5]);
        s.append("-");
        append_hex_byte_upper(&mut s, self.bytes[6]);
        append_hex_byte_upper(&mut s, self.bytes[7]);
        s.append("-");
        append_hex_byte_upper(&mut s, self.bytes[8]);
        append_hex_byte_upper(&mut s, self.bytes[9]);
        s.append("-");
        append_hex_byte_upper(&mut s, self.bytes[10]);
        append_hex_byte_upper(&mut s, self.bytes[11]);
        append_hex_byte_upper(&mut s, self.bytes[12]);
        append_hex_byte_upper(&mut s, self.bytes[13]);
        append_hex_byte_upper(&mut s, self.bytes[14]);
        append_hex_byte_upper(&mut s, self.bytes[15]);
        s.append("}");
        proof {
            assert(s@ =~= braced_of(self@));
        }
        s
    }
}

/// Law: the braced rendering of any identifier has length 38, begins with
/// `{`, ends with `}`, and its hyphens stand exactly at positions 9, 14, 19
/// and 24.
pub proof fn lemma_braced_shape(b: Seq<u8>)
    requires
        b.len() == 16,
    ensures
        braced_of(b).len() == 38,
        braced_of(b)[0] == '{',
        braced_of(b)[37] == '}',
        braced_of(b)[9] == '-',
        braced_of(b)[14] == '-',
        braced_of(b)[19] == '-',
        braced_of(b)[24] == '-',
        forall|i: int|
            0 <= i < 38 && braced_of(b)[i] == '-' ==> (i == 9 || i == 14 || i == 19 || i == 24),
{
    assert forall|i: int|
        0 <= i < 38 && braced_of(b)[i] == '-' implies (i == 9 || i == 14 || i == 19 || i
        == 24) by {
        assert(forall|n: u8| hex_upper(n) != '-');
    }
}

} // verus!
