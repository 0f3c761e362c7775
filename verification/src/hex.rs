use vstd::prelude::*;

verus! {

/// `c` is one of the characters that name a hexadecimal digit.
pub open spec fn is_hex_digit(c: char) -> bool {
    ||| '0' as u32 <= c as u32 <= '9' as u32
    ||| 'a' as u32 <= c as u32 <= 'f' as u32
    ||| 'A' as u32 <= c as u32 <= 'F' as u32
}

/// The value of the hexadecimal digit named by `c`.
pub open spec fn hex_digit_val(c: char) -> nat {
    if '0' as u32 <= c as u32 <= '9' as u32 {
        (c as u32 - '0' as u32) as nat
    } else if 'a' as u32 <= c as u32 <= 'f' as u32 {
        (c as u32 - 'a' as u32 + 10) as nat
    } else if 'A' as u32 <= c as u32 <= 'F' as u32 {
        (c as u32 - 'A' as u32 + 10) as nat
    } else {
        0
    }
}

/// Every character of `s` names a hexadecimal digit.
pub open spec fn all_hex_digits(s: Seq<char>) -> bool {
    forall|i: int| 0 <= i < s.len() ==> is_hex_digit(#[trigger] s[i])
}

/// The unsigned integer that the hexadecimal digit string `s` denotes,
/// most significant digit first; the empty string denotes 0.
pub open spec fn hex_str_val(s: Seq<char>) -> nat
    decreases s.len(),
{
    if s.len() == 0 {
        0
    } else {
        16 * hex_str_val(s.drop_last()) + hex_digit_val(s.last())
    }
}

/// `s` is a hexadecimal digit string that the parser accepts: non-empty,
/// all digits hexadecimal, and a value that fits an unsigned 128-bit integer.
pub open spec fn parsable_wei_digits(s: Seq<char>) -> bool {
    &&& s.len() > 0
    &&& all_hex_digits(s)
    &&& hex_str_val(s) <= u128::MAX
}

/// A longer prefix of a digit string never denotes a smaller value.
proof fn lemma_hex_prefix_le(s: Seq<char>, i: int, j: int)
    requires
        0 <= i <= j <= s.len(),
    ensures
        hex_str_val(s.take(i)) <= hex_str_val(s.take(j)),
    decreases j - i,
{
    if i < j {
        lemma_hex_prefix_le(s, i, j - 1);
        assert(s.take(j).drop_last() =~= s.take(j - 1));
    }
}

/// The digit value of `c`, where `c` names one.
fn hex_digit_of(c: char) -> (r: Option<u8>)
    ensures
        r is Some <==> is_hex_digit(c),
        r is Some ==> r->0 as nat == hex_digit_val(c),
{
    let u = c as u32;
    if 48 <= u && u <= 57 {
        Some((u - 48) as u8)
    } else if 97 <= u && u <= 102 {
        Some((u - 97 + 10) as u8)
    } else if 65 <= u && u <= 70 {
        Some((u - 65 + 10) as u8)
    } else {
        None
    }
}

/// Parse a string of hexadecimal digits (no "0x" prefix) as an unsigned
/// 128-bit integer; `None` exactly on an empty string, a non-hexadecimal
/// character, or a value that does not fit.
pub fn parse_hex_u128(digits: &str) -> (r: Option<u128>)
    ensures
        r is Some <==> parsable_wei_digits(digits@),
        r is Some ==> r->0 as nat == hex_str_val(digits@),
{
    let n = digits.unicode_len();
    if n == 0 {
        return None;
    }
    let mut acc: u128 = 0;
    let mut i: usize = 0;
    while i < n
        invariant
            0 <= i <= n,
            n == digits@.len(),
            forall|j: int| 0 <= j < i ==> is_hex_digit(#[trigger] digits@[j]),
            acc as nat == hex_str_val(digits@.take(i as int)),
        decreases n - i,
    {
        let c = digits.get_char(i);
        match hex_digit_of(c) {
            None => {
                return None;
            },
            Some(d) => {
                proof {
                    assert(digits@.take(i + 1).drop_last() =~= digits@.take(i as int));
                    assert(digits@.take(i + 1).last() == digits@[i as int]);
                }
                // 2^124: one more digit would exceed an unsigned 128-bit integer
                if acc >= 0x10000000000000000000000000000000u128 {
                    proof {
                        assert(hex_str_val(digits@.take(i + 1)) > u128::MAX);
                        lemma_hex_prefix_le(digits@, i + 1, n as int);
                        assert(digits@.take(n as int) =~= digits@);
                    }
                    return None;
                }
                acc = acc * 16 + (d as u128);
                i = i + 1;
            },
        }
    }
    proof {
        assert(digits@.take(n as int) =~= digits@);
    }
    Some(acc)
}

} // verus!
