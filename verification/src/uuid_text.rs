//! Textual form of 128-bit identifiers: the hyphenated lowercase hexadecimal
//! layout `xxxxxxxx-xxxx-xxxx-xxxx-xxxxxxxxxxxx`, formatted and parsed by
//! verified code.

use vstd::prelude::*;
use vstd::string::StrSliceExecFns;
use vstd::string::StringExecFns;

verus! {

/// The lowercase hexadecimal digit for a value below 16.
pub open spec fn hex_char_of(d: int) -> char {
    if d == 0 { '0' } else if d == 1 { '1' } else if d == 2 { '2' } else if d == 3 { '3' }
    else if d == 4 { '4' } else if d == 5 { '5' } else if d == 6 { '6' } else if d == 7 { '7' }
    else if d == 8 { '8' } else if d == 9 { '9' } else if d == 10 { 'a' } else if d == 11 { 'b' }
    else if d == 12 { 'c' } else if d == 13 { 'd' } else if d == 14 { 'e' } else { 'f' }
}

/// Positions of the four hyphens in the 36-character layout.
pub open spec fn is_hyphen_pos(j: int) -> bool {
    j == 8 || j == 13 || j == 18 || j == 23
}

/// Which of the 32 nibbles (most significant first) stands at layout
/// position `j`.
pub open spec fn nibble_index(j: int) -> int {
    if j < 8 { j } else if j < 13 { j - 1 } else if j < 18 { j - 2 } else if j < 23 { j - 3 } else { j - 4 }
}

/// Nibble `i` of `id`, counted from the most significant end.
pub open spec fn nibble_of(id: u128, i: int) -> u128 {
    (id >> ((31 - i) * 4) as u128) & 0xf
}

/// The 36-character hyphenated lowercase hexadecimal form of `id`.
pub open spec fn uuid_seq(id: u128) -> Seq<char> {
    Seq::new(36, |j: int| if is_hyphen_pos(j) { '-' } else { hex_char_of(nibble_of(id, nibble_index(j)) as int) })
}

/// The string slice holding one lowercase hexadecimal digit.
fn hex_digit_str(d: u8) -> (r: &'static str)
    requires
        d < 16,
    ensures
        r@ == seq![hex_char_of(d as int)],
{
    proof {
        reveal_strlit("0"); reveal_strlit("1"); reveal_strlit("2"); reveal_strlit("3");
        reveal_strlit("4"); reveal_strlit("5"); reveal_strlit("6"); reveal_strlit("7");
        reveal_strlit("8"); reveal_strlit("9"); reveal_strlit("a"); reveal_strlit("b");
        reveal_strlit("c"); reveal_strlit("d"); reveal_strlit("e"); reveal_strlit("f");
    }
    let r = match d {
        0 => "0", 1 => "1", 2 => "2", 3 => "3",
        4 => "4", 5 => "5", 6 => "6", 7 => "7",
        8 => "8", 9 => "9", 10 => "a", 11 => "b",
        12 => "c", 13 => "d", 14 => "e", _ => "f",
    };
    proof {
        assert(r@ =~= seq![hex_char_of(d as int)]);
    }
    r
}

/// Formats `id` in the hyphenated lowercase hexadecimal layout.
pub fn uuid_string(id: u128) -> (r: String)
    ensures
        r@ == uuid_seq(id),
{
    let mut r = String::new();
    let mut j: usize = 0;
    while j < 36
        invariant
            j <= 36,
            r@ == uuid_seq(id).take(j as int),
        decreases 36 - j,
    {
        if j == 8 || j == 13 || j == 18 || j == 23 {
            r.append("-");
            proof {
                reveal_strlit("-");
                assert(r@ =~= uuid_seq(id).take(j as int + 1));
            }
        } else {
            let nib: usize = if j < 8 { j } else if j < 13 { j - 1 } else if j < 18 { j - 2 } else if j < 23 { j - 3 } else { j - 4 };
            let shift: u128 = ((31 - nib) * 4) as u128;
            let masked: u128 = (id >> shift) & 0xf;
            proof {
                assert(((id >> shift) & 0xf) < 16) by (bit_vector);
                assert(masked == nibble_of(id, nib as int));
            }
            let d: u8 = masked as u8;
            r.append(hex_digit_str(d));
            proof {
                assert(r@ =~= uuid_seq(id).take(j as int + 1));
            }
        }
        j = j + 1;
    }
    proof {
        assert(uuid_seq(id).take(36) =~= uuid_seq(id));
    }
    r
}

/// The value of a hexadecimal digit character, or -1 when the character is
/// not a hexadecimal digit. Both letter cases are accepted.
pub open spec fn hex_val_of(c: char) -> int {
    if c == '0' { 0 } else if c == '1' { 1 } else if c == '2' { 2 } else if c == '3' { 3 }
    else if c == '4' { 4 } else if c == '5' { 5 } else if c == '6' { 6 } else if c == '7' { 7 }
    else if c == '8' { 8 } else if c == '9' { 9 }
    else if c == 'a' || c == 'A' { 10 } else if c == 'b' || c == 'B' { 11 }
    else if c == 'c' || c == 'C' { 12 } else if c == 'd' || c == 'D' { 13 }
    else if c == 'e' || c == 'E' { 14 } else if c == 'f' || c == 'F' { 15 } else { -1 }
}

/// Folds the 36-character layout from position `j` on into the accumulated
/// value, or yields nothing on the first malformed position.
pub open spec fn uuid_val_from(s: Seq<char>, j: int, acc: int) -> Option<int>
    decreases 36 - j when j <= 36
{
    if j >= 36 {
        Some(acc)
    } else if is_hyphen_pos(j) {
        if s[j] == '-' { uuid_val_from(s, j + 1, acc) } else { None }
    } else {
        if hex_val_of(s[j]) >= 0 { uuid_val_from(s, j + 1, acc * 16 + hex_val_of(s[j])) } else { None }
    }
}

/// The identifier value a 36-character string denotes, if it is in the
/// hyphenated hexadecimal layout (either letter case); nothing otherwise.
pub open spec fn spec_parse_uuid(s: Seq<char>) -> Option<u128> {
    if s.len() == 36 {
        match uuid_val_from(s, 0, 0) {
            Some(v) => Some(v as u128),
            None => None,
        }
    } else {
        None
    }
}

/// The value of one hexadecimal digit character, or 16 for any other
/// character.
fn hex_val(c: char) -> (r: u8)
    ensures
        hex_val_of(c) >= 0 ==> r == hex_val_of(c),
        hex_val_of(c) < 0 ==> r == 16,
{
    match c {
        '0' => 0, '1' => 1, '2' => 2, '3' => 3, '4' => 4,
        '5' => 5, '6' => 6, '7' => 7, '8' => 8, '9' => 9,
        'a' | 'A' => 10, 'b' | 'B' => 11, 'c' | 'C' => 12,
        'd' | 'D' => 13, 'e' | 'E' => 14, 'f' | 'F' => 15,
        _ => 16,
    }
}

/// Parses the hyphenated hexadecimal layout back into an identifier value.
pub fn parse_uuid(s: &str) -> (r: Option<u128>)
    ensures
        r == spec_parse_uuid(s@),
{
    if s.unicode_len() != 36 {
        return None;
    }
    let mut acc: u128 = 0;
    let mut j: usize = 0;
    let mut digits: usize = 0;
    proof {
        assert(0u128 < (1u128 << 0u128)) by (bit_vector);
    }
    while j < 36
        invariant
            j <= 36,
            s@.len() == 36,
            digits == nibble_index(j as int) + (if is_hyphen_pos(j as int) { 1int } else { 0int }),
            digits <= 32,
            digits < 32 ==> acc < (1u128 << ((4 * digits) as u128)),
            uuid_val_from(s@, 0, 0) == uuid_val_from(s@, j as int, acc as int),
        decreases 36 - j,
    {
        let c = s.get_char(j);
        if j == 8 || j == 13 || j == 18 || j == 23 {
            if c != '-' {
                return None;
            }
        } else {
            let d = hex_val(c);
            if d == 16 {
                return None;
            }
            let du: u128 = d as u128;
            let ghost dg: u128 = digits as u128;
            proof {
                assert(digits <= 31);
                assert(acc * 16 + du <= 0xffffffffffffffffffffffffffffffffu128 && (dg < 31 ==> acc * 16 + du < (1u128 << (4 * (dg + 1)))) ) by (bit_vector)
                    requires
                        dg <= 31u128,
                        acc < (1u128 << (4 * dg)),
                        du < 16u128,
                ;
            }
            acc = acc * 16 + du;
            digits = digits + 1;
        }
        j = j + 1;
    }
    Some(acc)
}

} // verus!
