use vstd::prelude::*;

use crate::strutil::push_char;

verus! {

/// An identity: the opaque 128-bit subject identifier that session tokens
/// assert and that per-user key derivation consumes. Its canonical text form
/// is the hyphenated, lower-case hexadecimal rendering (8-4-4-4-12 digits).
#[derive(Clone, Copy, Debug, PartialEq, Eq, Structural)]
pub struct UserId {
    pub value: u128,
}

/// The lower-case hexadecimal digit for a nibble.
pub open spec fn hex_char_of(d: u128) -> char {
    if d == 0 {
        '0'
    } else if d == 1 {
        '1'
    } else if d == 2 {
        '2'
    } else if d == 3 {
        '3'
    } else if d == 4 {
        '4'
    } else if d == 5 {
        '5'
    } else if d == 6 {
        '6'
    } else if d == 7 {
        '7'
    } else if d == 8 {
        '8'
    } else if d == 9 {
        '9'
    } else if d == 10 {
        'a'
    } else if d == 11 {
        'b'
    } else if d == 12 {
        'c'
    } else if d == 13 {
        'd'
    } else if d == 14 {
        'e'
    } else {
        'f'
    }
}

/// The nibble value of a hexadecimal digit, upper or lower case; 16 marks a
/// character that is no hexadecimal digit.
pub open spec fn hex_val_of(c: char) -> u128 {
    if c == '0' {
        0
    } else if c == '1' {
        1
    } else if c == '2' {
        2
    } else if c == '3' {
        3
    } else if c == '4' {
        4
    } else if c == '5' {
        5
    } else if c == '6' {
        6
    } else if c == '7' {
        7
    } else if c == '8' {
        8
    } else if c == '9' {
        9
    } else if c == 'a' || c == 'A' {
        10
    } else if c == 'b' || c == 'B' {
        11
    } else if c == 'c' || c == 'C' {
        12
    } else if c == 'd' || c == 'D' {
        13
    } else if c == 'e' || c == 'E' {
        14
    } else if c == 'f' || c == 'F' {
        15
    } else {
        16
    }
}

pub open spec fn is_hex_char(c: char) -> bool {
    hex_val_of(c) < 16
}

/// The canonical rendering puts a hyphen after the 8th, 12th, 16th and 20th
/// digit, that is at character positions 8, 13, 18 and 23.
pub open spec fn is_hyphen_pos(i: int) -> bool {
    i == 8 || i == 13 || i == 18 || i == 23
}

/// How many of the first `i` character positions carry a digit.
pub open spec fn nibbles_before(i: int) -> int {
    if i <= 8 {
        i
    } else if i <= 13 {
        i - 1
    } else if i <= 18 {
        i - 2
    } else if i <= 23 {
        i - 3
    } else {
        i - 4
    }
}

/// The character position of the digit with index `j`.
pub open spec fn char_pos_of(j: int) -> int {
    if j < 8 {
        j
    } else if j < 12 {
        j + 1
    } else if j < 16 {
        j + 2
    } else if j < 20 {
        j + 3
    } else {
        j + 4
    }
}

/// The nibble of `v` at digit index `j`, most significant first.
pub open spec fn nibble_of(v: u128, j: int) -> u128 {
    (v >> (((31 - j) * 4) as u128)) & 0xf
}

/// The character at position `i` of the canonical rendering of `v`.
pub open spec fn uuid_char_at(v: u128, i: int) -> char {
    if is_hyphen_pos(i) {
        '-'
    } else {
        hex_char_of(nibble_of(v, nibbles_before(i)))
    }
}

/// The canonical 36-character rendering of an identity value.
pub open spec fn uuid_chars(v: u128) -> Seq<char> {
    Seq::new(36, |i| uuid_char_at(v, i))
}

/// Whether `s` is a well-formed canonical identity rendering: 36 characters,
/// hyphens exactly at the hyphen positions, hexadecimal digits elsewhere.
pub open spec fn valid_uuid_chars(s: Seq<char>) -> bool {
    &&& s.len() == 36
    &&& forall|i: int| 0 <= i < 36 && is_hyphen_pos(i) ==> s[i] == '-'
    &&& forall|i: int| 0 <= i < 36 && !is_hyphen_pos(i) ==> is_hex_char(#[trigger] s[i])
}

/// The value carried by the first `j` digits of `s`.
pub open spec fn uuid_prefix_value(s: Seq<char>, j: int) -> u128
    decreases j,
{
    if j <= 0 {
        0u128
    } else {
        (uuid_prefix_value(s, j - 1) << 4) | hex_val_of(s[char_pos_of(j - 1)])
    }
}

/// The identity value that a well-formed rendering carries.
pub open spec fn uuid_value(s: Seq<char>) -> u128 {
    uuid_prefix_value(s, 32)
}

/// Reading a hexadecimal digit back gives the nibble it was written from.
proof fn lemma_hex_char_val(d: u128)
    requires
        d < 16,
    ensures
        hex_val_of(hex_char_of(d)) == d,
{
}

/// A nibble is below 16.
proof fn lemma_nibble_bound(v: u128, s: u128)
    ensures
        (v >> s) & 0xf < 16,
{
    assert((v >> s) & 0xf < 16) by (bit_vector);
}

/// Prepending the next lower nibble to the shifted-out prefix restores one
/// more nibble of the value.
proof fn lemma_nibble_step(v: u128, s: u128)
    requires
        s <= 124,
    ensures
        ((v >> ((s + 4) as u128)) << 4) | ((v >> s) & 0xf) == v >> s,
{
    assert(s <= 124 ==> ((v >> ((s + 4) as u128)) << 4) | ((v >> s) & 0xf) == v >> s)
        by (bit_vector);
}

proof fn lemma_uuid_prefix_roundtrip(v: u128, j: int)
    requires
        0 <= j <= 32,
    ensures
        uuid_prefix_value(uuid_chars(v), j) == v >> (((32 - j) * 4) as u128),
    decreases j,
{
    if j == 0 {
        assert(v >> 128u128 == 0) by (bit_vector);
    } else {
        lemma_uuid_prefix_roundtrip(v, j - 1);
        let s = uuid_chars(v);
        let p = char_pos_of(j - 1);
        assert(!is_hyphen_pos(p));
        assert(nibbles_before(p) == j - 1);
        assert(s[p] == hex_char_of(nibble_of(v, j - 1)));
        lemma_nibble_bound(v, ((31 - (j - 1)) * 4) as u128);
        lemma_hex_char_val(nibble_of(v, j - 1));
        lemma_nibble_step(v, ((32 - j) * 4) as u128);
    }
}

/// Formatting an identity and parsing the result restores the identity: the
/// canonical rendering is well formed and carries the value it was written
/// from.
pub proof fn lemma_uuid_roundtrip(v: u128)
    ensures
        valid_uuid_chars(uuid_chars(v)),
        uuid_value(uuid_chars(v)) == v,
{
    assert forall|i: int| 0 <= i < 36 && !is_hyphen_pos(i) implies is_hex_char(
        #[trigger] uuid_chars(v)[i],
    ) by {
        lemma_nibble_bound(v, ((31 - nibbles_before(i)) * 4) as u128);
        lemma_hex_char_val(nibble_of(v, nibbles_before(i)));
    }
    lemma_uuid_prefix_roundtrip(v, 32);
    assert(v >> 0u128 == v) by (bit_vector);
}

/// The lower-case hexadecimal digit for a nibble.
fn hex_char(d: u128) -> (c: char)
    requires
        d < 16,
    ensures
        c == hex_char_of(d),
{
    if d == 0 {
        '0'
    } else if d == 1 {
        '1'
    } else if d == 2 {
        '2'
    } else if d == 3 {
        '3'
    } else if d == 4 {
        '4'
    } else if d == 5 {
        '5'
    } else if d == 6 {
        '6'
    } else if d == 7 {
        '7'
    } else if d == 8 {
        '8'
    } else if d == 9 {
        '9'
    } else if d == 10 {
        'a'
    } else if d == 11 {
        'b'
    } else if d == 12 {
        'c'
    } else if d == 13 {
        'd'
    } else if d == 14 {
        'e'
    } else {
        'f'
    }
}

/// The nibble value of a hexadecimal digit; 16 for any other character.
fn hex_val(c: char) -> (d: u128)
    ensures
        d == hex_val_of(c),
{
    if c == '0' {
        0
    } else if c == '1' {
        1
    } else if c == '2' {
        2
    } else if c == '3' {
        3
    } else if c == '4' {
        4
    } else if c == '5' {
        5
    } else if c == '6' {
        6
    } else if c == '7' {
        7
    } else if c == '8' {
        8
    } else if c == '9' {
        9
    } else if c == 'a' || c == 'A' {
        10
    } else if c == 'b' || c == 'B' {
        11
    } else if c == 'c' || c == 'C' {
        12
    } else if c == 'd' || c == 'D' {
        13
    } else if c == 'e' || c == 'E' {
        14
    } else if c == 'f' || c == 'F' {
        15
    } else {
        16
    }
}

impl UserId {
    /// The canonical hyphenated lower-case hexadecimal rendering.
    pub fn to_uuid_string(&self) -> (r: String)
        ensures
            r@ == uuid_chars(self.value),
    {
        let v = self.value;
        let mut s = String::new();
        let mut i: usize = 0;
        let mut j: u128 = 0;
        while i < 36
            invariant
                0 <= i <= 36,
                j == nibbles_before(i as int),
                s@ =~= uuid_chars(v).take(i as int),
            decreases 36 - i,
        {
            if i == 8 || i == 13 || i == 18 || i == 23 {
                push_char(&mut s, '-');
            } else {
                assert(0 <= 31 - j < 32);
                let sh: u128 = (31 - j) * 4;
                let d: u128 = (v >> sh) & 0xf;
                assert(d < 16) by (bit_vector)
                    requires
                        d == (v >> sh) & 0xf,
                ;
                let c = hex_char(d);
                push_char(&mut s, c);
                j = j + 1;
            }
            i = i + 1;
            assert(s@ =~= uuid_chars(v).take(i as int));
        }
        assert(s@ =~= uuid_chars(v));
        s
    }

    /// Parses the canonical rendering, accepting upper- or lower-case digits;
    /// yields the identity exactly on well-formed input.
    pub fn from_uuid_str(s: &str) -> (r: Option<UserId>)
        ensures
            r is Some <==> valid_uuid_chars(s@),
            r is Some ==> r->0.value == uuid_value(s@),
    {
        let n = s.unicode_len();
        if n != 36 {
            return None;
        }
        let mut acc: u128 = 0;
        let mut i: usize = 0;
        while i < 36
            invariant
                s@.len() == 36,
                0 <= i <= 36,
                forall|k: int| 0 <= k < i && is_hyphen_pos(k) ==> s@[k] == '-',
                forall|k: int| 0 <= k < i && !is_hyphen_pos(k) ==> is_hex_char(#[trigger] s@[k]),
                acc == uuid_prefix_value(s@, nibbles_before(i as int)),
            decreases 36 - i,
        {
            let c = s.get_char(i);
            if i == 8 || i == 13 || i == 18 || i == 23 {
                if c != '-' {
                    return None;
                }
            } else {
                let d = hex_val(c);
                if d >= 16 {
                    return None;
                }
                assert(char_pos_of(nibbles_before(i as int)) == i);
                acc = (acc << 4) | d;
            }
            i = i + 1;
        }
        Some(UserId { value: acc })
    }
}

} // verus!
