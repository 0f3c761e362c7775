use vstd::prelude::*;
use crate::hex::{hex_str_val, parsable_wei_digits};

verus! {

/// Wei per ten-thousandth of an ETH: 10^14.
pub const WEI_PER_TEN_THOUSANDTH: u128 = 100_000_000_000_000;

/// Half of a ten-thousandth of an ETH, the rounding threshold: 5 * 10^13.
pub const ROUNDING_HALF: u128 = 50_000_000_000_000;

/// The wei amount expressed in ten-thousandths of an ETH, rounded to the
/// nearest unit, halves up.
pub open spec fn scaled_balance(wei: nat) -> nat {
    let q = wei / (WEI_PER_TEN_THOUSANDTH as nat);
    if wei % (WEI_PER_TEN_THOUSANDTH as nat) >= ROUNDING_HALF as nat {
        q + 1
    } else {
        q
    }
}

/// The character naming the decimal digit `d`.
pub open spec fn dec_digit_char(d: nat) -> char {
    if d == 0 {
        '0'
    } else if d == 1 {
        '1'
    } else if d == 2 {
        '2'
    } else if d == 3 {
        '3'
    } else if d == 4 {
        '4'
    } else if d == 5 {
        '5'
    } else if d == 6 {
        '6'
    } else if d == 7 {
        '7'
    } else if d == 8 {
        '8'
    } else {
        '9'
    }
}

/// The decimal spelling of `n`, most significant digit first, with no
/// leading zeros (`0` spells as "0").
pub open spec fn dec_rep(n: nat) -> Seq<char>
    decreases n,
{
    if n < 10 {
        seq![dec_digit_char(n)]
    } else {
        dec_rep(n / 10).push(dec_digit_char(n % 10))
    }
}

/// The four-digit, zero-padded decimal spelling of `f`, for `f < 10000`.
pub open spec fn frac4_rep(f: nat) -> Seq<char> {
    seq![
        dec_digit_char(f / 1000 % 10),
        dec_digit_char(f / 100 % 10),
        dec_digit_char(f / 10 % 10),
        dec_digit_char(f % 10),
    ]
}

/// The balance string shown for `wei`: the whole ETH part, a point, and
/// exactly four fractional digits.
pub open spec fn eth_decimal(wei: nat) -> Seq<char> {
    dec_rep(scaled_balance(wei) / 10000) + seq!['.'] + frac4_rep(scaled_balance(wei) % 10000)
}

/// `c` names a decimal digit.
pub open spec fn is_dec_digit(c: char) -> bool {
    '0' as u32 <= c as u32 <= '9' as u32
}

/// The value of the decimal digit named by `c`.
pub open spec fn dec_digit_val(c: char) -> nat {
    if is_dec_digit(c) {
        (c as u32 - '0' as u32) as nat
    } else {
        0
    }
}

/// The unsigned integer that the decimal digit string `s` denotes, most
/// significant digit first; the empty string denotes 0.
pub open spec fn dec_seq_val(s: Seq<char>) -> nat
    decreases s.len(),
{
    if s.len() == 0 {
        0
    } else {
        10 * dec_seq_val(s.drop_last()) + dec_digit_val(s.last())
    }
}

/// The digit character of `d < 10` names a decimal digit with value `d`.
proof fn lemma_dec_digit_char_val(d: nat)
    requires
        d < 10,
    ensures
        is_dec_digit(dec_digit_char(d)),
        dec_digit_val(dec_digit_char(d)) == d,
{
    if d == 0 {
        assert(dec_digit_char(d) == '0' && '0' as u32 == 48);
    } else if d == 1 {
        assert(dec_digit_char(d) == '1' && '1' as u32 == 49);
    } else if d == 2 {
        assert(dec_digit_char(d) == '2' && '2' as u32 == 50);
    } else if d == 3 {
        assert(dec_digit_char(d) == '3' && '3' as u32 == 51);
    } else if d == 4 {
        assert(dec_digit_char(d) == '4' && '4' as u32 == 52);
    } else if d == 5 {
        assert(dec_digit_char(d) == '5' && '5' as u32 == 53);
    } else if d == 6 {
        assert(dec_digit_char(d) == '6' && '6' as u32 == 54);
    } else if d == 7 {
        assert(dec_digit_char(d) == '7' && '7' as u32 == 55);
    } else if d == 8 {
        assert(dec_digit_char(d) == '8' && '8' as u32 == 56);
    } else {
        assert(dec_digit_char(d) == '9' && '9' as u32 == 57);
    }
}

/// The decimal spelling of `n` denotes `n` and consists of decimal digits.
proof fn lemma_dec_rep_val(n: nat)
    ensures
        dec_seq_val(dec_rep(n)) == n,
        dec_rep(n).len() >= 1,
        forall|i: int| 0 <= i < dec_rep(n).len() ==> is_dec_digit(#[trigger] dec_rep(n)[i]),
        n > 0 ==> dec_rep(n)[0] != '0',
    decreases n,
{
    if n < 10 {
        lemma_dec_digit_char_val(n);
        let s = dec_rep(n);
        assert(s =~= seq![dec_digit_char(n)]);
        assert(s.last() == dec_digit_char(n));
        assert(s.drop_last() =~= Seq::<char>::empty());
        assert(dec_seq_val(Seq::<char>::empty()) == 0);
        assert(dec_seq_val(s) == 10 * dec_seq_val(s.drop_last()) + dec_digit_val(s.last()));
    } else {
        lemma_dec_rep_val(n / 10);
        lemma_dec_digit_char_val(n % 10);
        let prefix = dec_rep(n / 10);
        let c = dec_digit_char(n % 10);
        let s = dec_rep(n);
        assert(s == prefix.push(c));
        assert(s.drop_last() =~= prefix);
        assert(s.last() == c);
        assert(dec_seq_val(s) == 10 * dec_seq_val(s.drop_last()) + dec_digit_val(s.last()));
        assert(dec_seq_val(s) == 10 * (n / 10) + n % 10);
        assert(s[0] == prefix[0]);
    }
}

/// The four-digit spelling of `f < 10000` denotes `f` and consists of
/// decimal digits.
proof fn lemma_frac4_val(f: nat)
    requires
        f < 10000,
    ensures
        dec_seq_val(frac4_rep(f)) == f,
        frac4_rep(f).len() == 4,
        forall|i: int| 0 <= i < 4 ==> is_dec_digit(#[trigger] frac4_rep(f)[i]),
{
    let a = dec_digit_char(f / 1000 % 10);
    let b = dec_digit_char(f / 100 % 10);
    let c = dec_digit_char(f / 10 % 10);
    let d = dec_digit_char(f % 10);
    lemma_dec_digit_char_val(f / 1000 % 10);
    lemma_dec_digit_char_val(f / 100 % 10);
    lemma_dec_digit_char_val(f / 10 % 10);
    lemma_dec_digit_char_val(f % 10);
    let s = frac4_rep(f);
    assert(s.drop_last() =~= seq![a, b, c]);
    assert(s.last() == d);
    assert(dec_seq_val(s) == 10 * dec_seq_val(seq![a, b, c]) + dec_digit_val(d));
    assert(seq![a, b, c].drop_last() =~= seq![a, b]);
    assert(seq![a, b, c].last() == c);
    assert(dec_seq_val(seq![a, b, c]) == 10 * dec_seq_val(seq![a, b]) + dec_digit_val(c));
    assert(seq![a, b].drop_last() =~= seq![a]);
    assert(seq![a, b].last() == b);
    assert(dec_seq_val(seq![a, b]) == 10 * dec_seq_val(seq![a]) + dec_digit_val(b));
    assert(seq![a].drop_last() =~= Seq::<char>::empty());
    assert(seq![a].last() == a);
    assert(dec_seq_val(Seq::<char>::empty()) == 0);
    assert(dec_seq_val(seq![a]) == dec_digit_val(a));
    assert(dec_seq_val(s) == 10 * (10 * (10 * (f / 1000 % 10) + f / 100 % 10) + f / 10 % 10) + f
        % 10);
}

/// Law: for every parsable hex string of wei, the formatted balance is the
/// decimal spelling of the wei amount divided by 10^18, taken to four
/// fractional digits: every character but the point is a decimal digit, and
/// the digits left and right of the point together denote the wei amount in
/// ten-thousandths of an ETH, rounded to the nearest unit, halves up.
pub proof fn lemma_format_parse_round_trip(h: Seq<char>)
    requires
        parsable_wei_digits(h),
    ensures
        ({
            let w = hex_str_val(h);
            let s = eth_decimal(w);
            let v = scaled_balance(w);
            &&& s.len() >= 6
            &&& s[s.len() - 5] == '.'
            &&& forall|i: int| 0 <= i < s.len() && i != s.len() - 5 ==> is_dec_digit(
                #[trigger] s[i],
            )
            &&& dec_seq_val(s.take(s.len() - 5)) * 10000 + dec_seq_val(s.skip(s.len() - 4)) == v
            &&& v >= 10000 ==> s[0] != '0'
            &&& v == (w + ROUNDING_HALF as nat) / (WEI_PER_TEN_THOUSANDTH as nat)
        }),
{
    let w = hex_str_val(h);
    let s = eth_decimal(w);
    let v = scaled_balance(w);
    let whole = dec_rep(v / 10000);
    let frac = frac4_rep(v % 10000);
    lemma_dec_rep_val(v / 10000);
    lemma_frac4_val(v % 10000);
    assert(s =~= whole + seq!['.'] + frac);
    assert(s.take(s.len() - 5) =~= whole);
    assert(s.skip(s.len() - 4) =~= frac);
    assert(s[0] == whole[0]);
    assert(dec_seq_val(whole) * 10000 + dec_seq_val(frac) == (v / 10000) * 10000 + v % 10000);
}

/// The one-character string naming the decimal digit `d`.
fn dec_digit_str(d: u128) -> (r: &'static str)
    requires
        d < 10,
    ensures
        r@ == seq![dec_digit_char(d as nat)],
{
    if d == 0 {
        proof {
            reveal_strlit("0");
            assert("0"@ =~= seq!['0']);
        }
        "0"
    } else if d == 1 {
        proof {
            reveal_strlit("1");
            assert("1"@ =~= seq!['1']);
        }
        "1"
    } else if d == 2 {
        proof {
            reveal_strlit("2");
            assert("2"@ =~= seq!['2']);
        }
        "2"
    } else if d == 3 {
        proof {
            reveal_strlit("3");
            assert("3"@ =~= seq!['3']);
        }
        "3"
    } else if d == 4 {
        proof {
            reveal_strlit("4");
            assert("4"@ =~= seq!['4']);
        }
        "4"
    } else if d == 5 {
        proof {
            reveal_strlit("5");
            assert("5"@ =~= seq!['5']);
        }
        "5"
    } else if d == 6 {
        proof {
            reveal_strlit("6");
            assert("6"@ =~= seq!['6']);
        }
        "6"
    } else if d == 7 {
        proof {
            reveal_strlit("7");
            assert("7"@ =~= seq!['7']);
        }
        "7"
    } else if d == 8 {
        proof {
            reveal_strlit("8");
            assert("8"@ =~= seq!['8']);
        }
        "8"
    } else {
        proof {
            reveal_strlit("9");
            assert("9"@ =~= seq!['9']);
        }
        "9"
    }
}

/// Append the decimal spelling of `n` to `out`.
fn push_dec_rep(out: &mut String, n: u128)
    ensures
        final(out)@ == old(out)@ + dec_rep(n as nat),
    decreases n,
{
    if n >= 10 {
        push_dec_rep(out, n / 10);
    }
    let s = dec_digit_str(n % 10);
    out.append(s);
    proof {
        if n < 10 {
            assert(n % 10 == n);
            assert(final(out)@ =~= old(out)@ + dec_rep(n as nat));
        } else {
            assert(dec_rep(n as nat) =~= dec_rep((n / 10) as nat) + seq![
                dec_digit_char((n % 10) as nat),
            ]);
            assert(final(out)@ =~= old(out)@ + dec_rep(n as nat));
        }
    }
}

/// Append the four-digit, zero-padded spelling of `f` to `out`.
fn push_frac4(out: &mut String, f: u128)
    requires
        f < 10000,
    ensures
        final(out)@ == old(out)@ + frac4_rep(f as nat),
{
    out.append(dec_digit_str(f / 1000 % 10));
    out.append(dec_digit_str(f / 100 % 10));
    out.append(dec_digit_str(f / 10 % 10));
    out.append(dec_digit_str(f % 10));
    proof {
        assert(final(out)@ =~= old(out)@ + frac4_rep(f as nat));
    }
}

/// Format a wei amount as an ETH decimal string with exactly four digits
/// after the point, rounded half-up.
pub fn format_eth(wei: u128) -> (r: String)
    ensures
        r@ == eth_decimal(wei as nat),
{
    let q: u128 = wei / WEI_PER_TEN_THOUSANDTH;
    let rem: u128 = wei % WEI_PER_TEN_THOUSANDTH;
    let scaled: u128 = if rem >= ROUNDING_HALF {
        q + 1
    } else {
        q
    };
    let mut out = String::new();
    push_dec_rep(&mut out, scaled / 10000);
    proof {
        reveal_strlit(".");
        assert("."@ =~= seq!['.']);
    }
    out.append(".");
    push_frac4(&mut out, scaled % 10000);
    proof {
        assert(scaled as nat == scaled_balance(wei as nat));
        assert(out@ =~= eth_decimal(wei as nat));
    }
    out
}

} // verus!
