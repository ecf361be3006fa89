//! Lowercase hexadecimal display forms: the canonical hyphenated 8-4-4-4-12
//! form of a 16-byte UUID and the hyphen-joined byte pairs of a node.

use vstd::prelude::*;
use vstd::string::StringExecFns;

use crate::Layout;
use crate::Node;
use crate::UUID;
use crate::spec_layout_bytes;
use crate::spec_version_of;
use crate::spec_version_value;
use crate::Version;

verus! {

/// The lowercase hex digit for a nibble value.
pub open spec fn spec_hex_char(n: u8) -> char
    recommends
        n < 16,
{
    if n == 0 {
        '0'
    } else if n == 1 {
        '1'
    } else if n == 2 {
        '2'
    } else if n == 3 {
        '3'
    } else if n == 4 {
        '4'
    } else if n == 5 {
        '5'
    } else if n == 6 {
        '6'
    } else if n == 7 {
        '7'
    } else if n == 8 {
        '8'
    } else if n == 9 {
        '9'
    } else if n == 10 {
        'a'
    } else if n == 11 {
        'b'
    } else if n == 12 {
        'c'
    } else if n == 13 {
        'd'
    } else if n == 14 {
        'e'
    } else {
        'f'
    }
}

/// The two lowercase hex digits of a byte, high nibble first.
pub open spec fn spec_byte_hex(b: u8) -> Seq<char> {
    seq![spec_hex_char(b >> 4), spec_hex_char(b & 0xf)]
}

/// The canonical hyphenated display form of a 16-byte UUID value: lowercase
/// hex, 36 characters, hyphens after bytes 4, 6, 8 and 10.
pub open spec fn spec_uuid_chars(b: Seq<u8>) -> Seq<char>
    recommends
        b.len() == 16,
{
    spec_byte_hex(b[0]) + spec_byte_hex(b[1]) + spec_byte_hex(b[2]) + spec_byte_hex(b[3])
        + seq!['-'] + spec_byte_hex(b[4]) + spec_byte_hex(b[5]) + seq!['-'] + spec_byte_hex(b[6])
        + spec_byte_hex(b[7]) + seq!['-'] + spec_byte_hex(b[8]) + spec_byte_hex(b[9]) + seq!['-']
        + spec_byte_hex(b[10]) + spec_byte_hex(b[11]) + spec_byte_hex(b[12]) + spec_byte_hex(b[13])
        + spec_byte_hex(b[14]) + spec_byte_hex(b[15])
}

/// The display form of a 6-byte node: lowercase hex byte pairs joined by hyphens.
pub open spec fn spec_node_chars(b: Seq<u8>) -> Seq<char>
    recommends
        b.len() == 6,
{
    spec_byte_hex(b[0]) + seq!['-'] + spec_byte_hex(b[1]) + seq!['-'] + spec_byte_hex(b[2])
        + seq!['-'] + spec_byte_hex(b[3]) + seq!['-'] + spec_byte_hex(b[4]) + seq!['-']
        + spec_byte_hex(b[5])
}

/// Appends the lowercase hex digit of one nibble.
fn append_hex_digit(s: &mut String, n: u8)
    requires
        n < 16,
    ensures
        final(s)@ == old(s)@ + seq![spec_hex_char(n)],
{
    proof {
        reveal_strlit("0");
        reveal_strlit("1");
        reveal_strlit("2");
        reveal_strlit("3");
        reveal_strlit("4");
        reveal_strlit("5");
        reveal_strlit("6");
        reveal_strlit("7");
        reveal_strlit("8");
        reveal_strlit("9");
        reveal_strlit("a");
        reveal_strlit("b");
        reveal_strlit("c");
        reveal_strlit("d");
        reveal_strlit("e");
        reveal_strlit("f");
    }
    if n == 0 {
        s.append("0");
    } else if n == 1 {
        s.append("1");
    } else if n == 2 {
        s.append("2");
    } else if n == 3 {
        s.append("3");
    } else if n == 4 {
        s.append("4");
    } else if n == 5 {
        s.append("5");
    } else if n == 6 {
        s.append("6");
    } else if n == 7 {
        s.append("7");
    } else if n == 8 {
        s.append("8");
    } else if n == 9 {
        s.append("9");
    } else if n == 10 {
        s.append("a");
    } else if n == 11 {
        s.append("b");
    } else if n == 12 {
        s.append("c");
    } else if n == 13 {
        s.append("d");
    } else if n == 14 {
        s.append("e");
    } else {
        s.append("f");
    }
    proof {
        assert(final(s)@ =~= old(s)@ + seq![spec_hex_char(n)]);
    }
}

/// Appends the two lowercase hex digits of one byte, high nibble first.
fn append_byte_hex(s: &mut String, b: u8)
    ensures
        final(s)@ == old(s)@ + spec_byte_hex(b),
{
    proof {
        assert(b >> 4 < 16 && b & 0xf < 16) by (bit_vector);
    }
    append_hex_digit(s, b >> 4);
    append_hex_digit(s, b & 0xf);
    proof {
        assert(final(s)@ =~= old(s)@ + spec_byte_hex(b));
    }
}

/// Appends one hyphen.
fn append_hyphen(s: &mut String)
    ensures
        final(s)@ == old(s)@ + seq!['-'],
{
    proof {
        reveal_strlit("-");
    }
    s.append("-");
    proof {
        assert(final(s)@ =~= old(s)@ + seq!['-']);
    }
}

impl UUID {
    /// The canonical hyphenated display form: lowercase hex, 36 characters,
    /// hyphens after bytes 4, 6, 8 and 10.
    pub fn to_string(&self) -> (r: String)
        ensures
            r@ == spec_uuid_chars(self@),
    {
        let mut s = String::new();
        append_byte_hex(&mut s, self.0[0]);
        append_byte_hex(&mut s, self.0[1]);
        append_byte_hex(&mut s, self.0[2]);
        append_byte_hex(&mut s, self.0[3]);
        append_hyphen(&mut s);
        append_byte_hex(&mut s, self.0[4]);
        append_byte_hex(&mut s, self.0[5]);
        append_hyphen(&mut s);
        append_byte_hex(&mut s, self.0[6]);
        append_byte_hex(&mut s, self.0[7]);
        append_hyphen(&mut s);
        append_byte_hex(&mut s, self.0[8]);
        append_byte_hex(&mut s, self.0[9]);
        append_hyphen(&mut s);
        append_byte_hex(&mut s, self.0[10]);
        append_byte_hex(&mut s, self.0[11]);
        append_byte_hex(&mut s, self.0[12]);
        append_byte_hex(&mut s, self.0[13]);
        append_byte_hex(&mut s, self.0[14]);
        append_byte_hex(&mut s, self.0[15]);
        proof {
            assert(s@ =~= spec_uuid_chars(self@));
        }
        s
    }
}

impl Node {
    /// The display form: lowercase hex byte pairs joined by hyphens.
    pub fn to_string(&self) -> (r: String)
        ensures
            r@ == spec_node_chars(self.0@),
    {
        let mut s = String::new();
        append_byte_hex(&mut s, self.0[0]);
        append_hyphen(&mut s);
        append_byte_hex(&mut s, self.0[1]);
        append_hyphen(&mut s);
        append_byte_hex(&mut s, self.0[2]);
        append_hyphen(&mut s);
        append_byte_hex(&mut s, self.0[3]);
        append_hyphen(&mut s);
        append_byte_hex(&mut s, self.0[4]);
        append_hyphen(&mut s);
        append_byte_hex(&mut s, self.0[5]);
        proof {
            assert(s@ =~= spec_node_chars(self.0@));
        }
        s
    }
}

/// Whether a character is a lowercase hex digit.
pub open spec fn spec_is_hex_digit(c: char) -> bool {
    exists|n: u8| n < 16 && c == spec_hex_char(n)
}

/// Whether a character sequence has the canonical 8-4-4-4-12 shape: 36
/// characters, hyphens at offsets 8, 13, 18 and 23, lowercase hex digits
/// everywhere else.
pub open spec fn spec_is_canonical_uuid_chars(s: Seq<char>) -> bool {
    &&& s.len() == 36
    &&& s[8] == '-'
    &&& s[13] == '-'
    &&& s[18] == '-'
    &&& s[23] == '-'
    &&& forall|i: int|
        0 <= i < 36 && i != 8 && i != 13 && i != 18 && i != 23 ==> spec_is_hex_digit(#[trigger] s[i])
}

proof fn lemma_byte_hex_is_hex(x: u8)
    ensures
        spec_byte_hex(x).len() == 2,
        spec_is_hex_digit(spec_byte_hex(x)[0]),
        spec_is_hex_digit(spec_byte_hex(x)[1]),
{
    assert(x >> 4 < 16 && x & 0xf < 16) by (bit_vector);
    assert(spec_byte_hex(x)[0] == spec_hex_char(x >> 4));
    assert(spec_byte_hex(x)[1] == spec_hex_char(x & 0xf));
}

/// Any 16-byte value formats to the canonical 8-4-4-4-12 shape, and the
/// character at offset 14 is the hex digit of the high nibble of byte 6,
/// where the version tag lives.
#[verifier::rlimit(100)]
pub proof fn lemma_uuid_chars_canonical(b: Seq<u8>)
    requires
        b.len() == 16,
    ensures
        spec_is_canonical_uuid_chars(spec_uuid_chars(b)),
        spec_uuid_chars(b)[14] == spec_hex_char(b[6] >> 4),
{
    let s = spec_uuid_chars(b);
    lemma_byte_hex_is_hex(b[0]);
    lemma_byte_hex_is_hex(b[1]);
    lemma_byte_hex_is_hex(b[2]);
    lemma_byte_hex_is_hex(b[3]);
    lemma_byte_hex_is_hex(b[4]);
    lemma_byte_hex_is_hex(b[5]);
    lemma_byte_hex_is_hex(b[6]);
    lemma_byte_hex_is_hex(b[7]);
    lemma_byte_hex_is_hex(b[8]);
    lemma_byte_hex_is_hex(b[9]);
    lemma_byte_hex_is_hex(b[10]);
    lemma_byte_hex_is_hex(b[11]);
    lemma_byte_hex_is_hex(b[12]);
    lemma_byte_hex_is_hex(b[13]);
    lemma_byte_hex_is_hex(b[14]);
    lemma_byte_hex_is_hex(b[15]);
    assert(s.len() == 36);
    assert(s[14] == spec_byte_hex(b[6])[0]);
}

/// Every layout that carries a recognized version formats, through its byte
/// serialization, to the canonical 8-4-4-4-12 pattern, with that version's
/// digit at offset 14.
pub proof fn lemma_generated_string_canonical(l: Layout, v: Version)
    requires
        spec_version_of(l.field_high_and_version) == Some(v),
    ensures
        spec_is_canonical_uuid_chars(spec_uuid_chars(spec_layout_bytes(l))),
        spec_uuid_chars(spec_layout_bytes(l))[14] == spec_hex_char(
            spec_version_value(v) as u8,
        ),
        1 <= spec_version_value(v) <= 5,
{
    let b = spec_layout_bytes(l);
    lemma_uuid_chars_canonical(b);
    let hv = l.field_high_and_version;
    assert(b[6] == (hv >> 8) as u8);
    assert(((hv >> 8) as u8) >> 4 == (((hv >> 12) & 0xf) as u8)) by (bit_vector);
}

} // verus!
