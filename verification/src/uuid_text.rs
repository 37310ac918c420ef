//! The hyphenated text form of the 128-bit ids the service exposes:
//! rendering an id as the canonical lowercase `8-4-4-4-12` string, and
//! parsing such a string (either letter case) back to the id. A path id
//! that does not parse is a client error, so the parser is total.

use vstd::prelude::*;
use vstd::string::StrSliceExecFns;
use vstd::string::StringExecFns;

verus! {

/// 16 to the power `e`.
pub open spec fn pow16(e: nat) -> int
    decreases e,
{
    if e == 0 {
        1
    } else {
        16 * pow16((e - 1) as nat)
    }
}

/// `pow16` is at least one.
pub proof fn lemma_pow16_pos(e: nat)
    ensures
        pow16(e) >= 1,
    decreases e,
{
    if e > 0 {
        lemma_pow16_pos((e - 1) as nat);
    }
}

/// `pow16` is monotonic.
pub proof fn lemma_pow16_le(a: nat, b: nat)
    requires
        a <= b,
    ensures
        pow16(a) <= pow16(b),
    decreases b,
{
    if a < b {
        lemma_pow16_le(a, (b - 1) as nat);
        lemma_pow16_pos((b - 1) as nat);
    }
}

/// The `k`-th hex digit of `id`, counted from the most significant of the
/// 32 digits.
pub open spec fn nibble_of(id: u128, k: int) -> int {
    (id as int / pow16((31 - k) as nat)) % 16
}

/// The lowercase hex digit for a value below 16.
pub open spec fn hex_char(n: int) -> char {
    if n == 0 {
        '0'
    } else if n == 1 {
        '1'
    } else if n == 2 {
        '2'
    } else if n == 3 {
        '3'
    } else if n == 4 {
        '4'
    } else if n == 5 {
        '5'
    } else if n == 6 {
        '6'
    } else if n == 7 {
        '7'
    } else if n == 8 {
        '8'
    } else if n == 9 {
        '9'
    } else if n == 10 {
        'a'
    } else if n == 11 {
        'b'
    } else if n == 12 {
        'c'
    } else if n == 13 {
        'd'
    } else if n == 14 {
        'e'
    } else {
        'f'
    }
}

/// The position, among the 32 hex digits, of the digit shown at string
/// position `j` (meaningful off the four hyphen positions).
pub open spec fn nibble_index(j: int) -> int {
    if j < 8 {
        j
    } else if j < 13 {
        j - 1
    } else if j < 18 {
        j - 2
    } else if j < 23 {
        j - 3
    } else {
        j - 4
    }
}

/// The string position of hex digit `k`: four hyphens precede the later
/// groups.
pub open spec fn nibble_pos(k: int) -> int {
    k + (if k >= 8 {
        1int
    } else {
        0int
    }) + (if k >= 12 {
        1int
    } else {
        0int
    }) + (if k >= 16 {
        1int
    } else {
        0int
    }) + (if k >= 20 {
        1int
    } else {
        0int
    })
}

/// The character at position `j` of the hyphenated text form of `id`.
pub open spec fn uuid_char_at(id: u128, j: int) -> char {
    if j == 8 || j == 13 || j == 18 || j == 23 {
        '-'
    } else {
        hex_char(nibble_of(id, nibble_index(j)))
    }
}

/// The canonical hyphenated lowercase text form of `id`: 36 characters,
/// hex digit groups of 8, 4, 4, 4 and 12.
pub open spec fn uuid_str(id: u128) -> Seq<char> {
    Seq::new(36, |j: int| uuid_char_at(id, j))
}

/// Whether `c` is a hex digit, either letter case.
pub open spec fn is_hex_digit(c: char) -> bool {
    (48 <= c as int && c as int <= 57) || (97 <= c as int && c as int <= 102) || (65 <= c as int
        && c as int <= 70)
}

/// The value of a hex digit, either letter case.
pub open spec fn hex_val(c: char) -> int {
    if 48 <= c as int && c as int <= 57 {
        c as int - 48
    } else if 97 <= c as int && c as int <= 102 {
        c as int - 87
    } else {
        c as int - 55
    }
}

/// Whether `s` is a well-formed hyphenated uuid: 36 characters, hyphens at
/// the four group boundaries, hex digits everywhere else.
pub open spec fn valid_uuid_text(s: Seq<char>) -> bool {
    &&& s.len() == 36
    &&& s[8] == '-'
    &&& s[13] == '-'
    &&& s[18] == '-'
    &&& s[23] == '-'
    &&& forall|k: int| 0 <= k < 32 ==> is_hex_digit(#[trigger] s[nibble_pos(k)])
}

/// The value of the first `k` hex digits of a well-formed uuid string.
pub open spec fn uuid_digits_value(s: Seq<char>, k: int) -> int
    decreases k,
{
    if k <= 0 {
        0
    } else {
        uuid_digits_value(s, k - 1) * 16 + hex_val(s[nibble_pos(k - 1)])
    }
}

/// What parsing a uuid string yields: the 128-bit value of the 32 digits of
/// a well-formed string, nothing otherwise.
pub open spec fn parse_uuid_text(s: Seq<char>) -> Option<u128> {
    if valid_uuid_text(s) {
        Some(uuid_digits_value(s, 32) as u128)
    } else {
        None
    }
}

/// 16 to the power 31: the divisor that isolates the most significant hex
/// digit of a 128-bit value.
pub const UUID_TOP_DIVISOR: u128 = 0x10000000000000000000000000000000;

/// Concrete powers the renderer and parser lean on: 31 digits reach the
/// top divisor, 32 digits span the whole 128-bit range.
proof fn lemma_pow16_concrete()
    ensures
        pow16(31) == UUID_TOP_DIVISOR as int,
        pow16(32) == 0x100000000000000000000000000000000,
{
    reveal_with_fuel(pow16, 33);
}

/// A one-character string for a hex digit value.
fn hex_digit_str(nib: u8) -> (r: &'static str)
    requires
        nib < 16,
    ensures
        r@.len() == 1,
        r@[0] == hex_char(nib as int),
{
    proof {
        reveal_strlit("0");
        reveal_strlit("1");
        reveal_strlit("2");
        reveal_strlit("3");
        reveal_strlit("4");
        reveal_strlit("5");
        reveal_strlit("6");
        reveal_strlit("7");
        reveal_strlit("8");
        reveal_strlit("9");
        reveal_strlit("a");
        reveal_strlit("b");
        reveal_strlit("c");
        reveal_strlit("d");
        reveal_strlit("e");
        reveal_strlit("f");
    }
    if nib == 0 {
        "0"
    } else if nib == 1 {
        "1"
    } else if nib == 2 {
        "2"
    } else if nib == 3 {
        "3"
    } else if nib == 4 {
        "4"
    } else if nib == 5 {
        "5"
    } else if nib == 6 {
        "6"
    } else if nib == 7 {
        "7"
    } else if nib == 8 {
        "8"
    } else if nib == 9 {
        "9"
    } else if nib == 10 {
        "a"
    } else if nib == 11 {
        "b"
    } else if nib == 12 {
        "c"
    } else if nib == 13 {
        "d"
    } else if nib == 14 {
        "e"
    } else {
        "f"
    }
}

/// Characters written once the first `k` hex digits are out: the digits
/// plus the hyphens already passed.
pub open spec fn emitted_len(k: int) -> int {
    k + (if k >= 9 {
        1int
    } else {
        0int
    }) + (if k >= 13 {
        1int
    } else {
        0int
    }) + (if k >= 17 {
        1int
    } else {
        0int
    }) + (if k >= 21 {
        1int
    } else {
        0int
    })
}

/// Renders an id in its canonical hyphenated lowercase text form.
pub fn uuid_string(id: u128) -> (s: String)
    ensures
        s@ == uuid_str(id),
{
    let mut out = String::new();
    let mut divisor: u128 = UUID_TOP_DIVISOR;
    let mut k: usize = 0;
    proof {
        lemma_pow16_concrete();
        reveal_strlit("-");
        assert(out@ =~= uuid_str(id).subrange(0, 0));
    }
    while k < 32
        invariant
            k <= 32,
            k < 32 ==> divisor as int == pow16((31 - k) as nat),
            out@ == uuid_str(id).subrange(0, emitted_len(k as int)),
        decreases 32 - k,
    {
        proof {
            reveal_strlit("-");
        }
        if k == 8 || k == 12 || k == 16 || k == 20 {
            out.append("-");
            proof {
                assert(out@ =~= uuid_str(id).subrange(0, emitted_len(k as int) + 1));
            }
        }
        proof {
            lemma_pow16_pos((31 - k) as nat);
        }
        let nib: u8 = ((id / divisor) % 16) as u8;
        proof {
            assert(nib as int == nibble_of(id, k as int));
        }
        let digit = hex_digit_str(nib);
        out.append(digit);
        proof {
            assert(out@ =~= uuid_str(id).subrange(0, emitted_len(k as int + 1)));
        }
        if k < 31 {
            proof {
                let e = (31 - k) as nat;
                assert(pow16(e) == 16 * pow16((e - 1) as nat));
                assert((16 * pow16((e - 1) as nat)) / 16 == pow16((e - 1) as nat))
                    by (nonlinear_arith);
                lemma_pow16_pos((e - 1) as nat);
                lemma_pow16_le((e - 1) as nat, 31);
            }
            divisor = divisor / 16;
        }
        k += 1;
    }
    proof {
        assert(uuid_str(id).subrange(0, 36) =~= uuid_str(id));
    }
    out
}

/// A hex digit character is one, and parses back to its value.
proof fn lemma_hex_char_round(n: int)
    requires
        0 <= n < 16,
    ensures
        is_hex_digit(hex_char(n)),
        hex_val(hex_char(n)) == n,
{
}

/// The rendered text of an id is a well-formed uuid string.
proof fn lemma_uuid_str_valid(id: u128)
    ensures
        valid_uuid_text(uuid_str(id)),
{
    let s = uuid_str(id);
    assert forall|k: int| 0 <= k < 32 implies is_hex_digit(#[trigger] s[nibble_pos(k)]) by {
        lemma_pow16_pos((31 - k) as nat);
        vstd::arithmetic::div_mod::lemma_mod_division_less_than_divisor(
            id as int / pow16((31 - k) as nat),
            16,
        );
        lemma_hex_char_round(nibble_of(id, k));
        assert(nibble_index(nibble_pos(k)) == k);
    }
}

/// The value of the first `k` digits of the rendered text of `id` is `id`
/// shifted down by the remaining `32 - k` digits.
proof fn lemma_uuid_digits_prefix(id: u128, k: int)
    requires
        0 <= k <= 32,
    ensures
        uuid_digits_value(uuid_str(id), k) == id as int / pow16((32 - k) as nat),
    decreases k,
{
    let s = uuid_str(id);
    if k == 0 {
        lemma_pow16_concrete();
        vstd::arithmetic::div_mod::lemma_basic_div(id as int, pow16(32));
    } else {
        lemma_uuid_digits_prefix(id, k - 1);
        let m = k - 1;
        let e = (32 - k) as nat;
        assert(nibble_index(nibble_pos(m)) == m);
        assert(s[nibble_pos(m)] == hex_char(nibble_of(id, m)));
        lemma_pow16_pos(e);
        vstd::arithmetic::div_mod::lemma_mod_division_less_than_divisor(
            id as int / pow16(e),
            16,
        );
        lemma_hex_char_round(nibble_of(id, m));
        let q = id as int / pow16(e);
        vstd::arithmetic::div_mod::lemma_div_denominator(id as int, pow16(e), 16);
        vstd::arithmetic::div_mod::lemma_fundamental_div_mod(q, 16);
        assert(pow16((e + 1) as nat) == 16 * pow16(e));
        assert(id as int / pow16((e + 1) as nat) == q / 16);
        assert(uuid_digits_value(s, k) == uuid_digits_value(s, m) * 16 + hex_val(s[nibble_pos(m)]));
        assert(uuid_digits_value(s, k) == (q / 16) * 16 + q % 16);
    }
}

/// Law: parsing the rendered text of an id yields the id again, so the id
/// shown in a response — a 404 message, a created record — addresses the
/// same row when a client sends it back.
pub proof fn lemma_uuid_round_trip(id: u128)
    ensures
        parse_uuid_text(uuid_str(id)) == Some(id),
{
    lemma_uuid_str_valid(id);
    lemma_uuid_digits_prefix(id, 32);
}

/// Parses the hyphenated text form of an id, either letter case; anything
/// else yields nothing.
pub fn parse_uuid(s: &str) -> (r: Option<u128>)
    ensures
        r == parse_uuid_text(s@),
{
    if s.unicode_len() != 36 {
        return None;
    }
    if s.get_char(8) != '-' || s.get_char(13) != '-' || s.get_char(18) != '-' || s.get_char(23)
        != '-' {
        return None;
    }
    let mut acc: u128 = 0;
    let mut k: usize = 0;
    proof {
        lemma_pow16_concrete();
    }
    while k < 32
        invariant
            k <= 32,
            s@.len() == 36,
            acc as int == uuid_digits_value(s@, k as int),
            acc as int <= pow16(k as nat) - 1,
            pow16(32) == 0x100000000000000000000000000000000,
            forall|m: int| 0 <= m < k ==> is_hex_digit(#[trigger] s@[nibble_pos(m)]),
        decreases 32 - k,
    {
        let pos: usize = if k < 8 {
            k
        } else if k < 12 {
            k + 1
        } else if k < 16 {
            k + 2
        } else if k < 20 {
            k + 3
        } else {
            k + 4
        };
        proof {
            assert(pos as int == nibble_pos(k as int));
        }
        let c = s.get_char(pos);
        let v = c as u32;
        let digit: u32 = if 48 <= v && v <= 57 {
            v - 48
        } else if 97 <= v && v <= 102 {
            v - 87
        } else if 65 <= v && v <= 70 {
            v - 55
        } else {
            proof {
                assert(!is_hex_digit(s@[nibble_pos(k as int)]));
            }
            return None;
        };
        proof {
            assert(digit as int == hex_val(s@[nibble_pos(k as int)]));
            assert(digit < 16);
            lemma_pow16_le((k + 1) as nat, 32);
            assert(pow16((k + 1) as nat) == 16 * pow16(k as nat));
        }
        acc = acc * 16 + digit as u128;
        k += 1;
    }
    proof {
        assert(valid_uuid_text(s@));
    }
    Some(acc)
}

} // verus!
