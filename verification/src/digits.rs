//! Verified decimal formatting and parsing helpers, shared by the path-token
//! builder and the kernel-version parser.

use vstd::prelude::*;

verus! {

/// The character for one decimal digit.
pub open spec fn spec_digit_char(d: nat) -> char {
    if d == 0 {
        '0'
    } else if d == 1 {
        '1'
    } else if d == 2 {
        '2'
    } else if d == 3 {
        '3'
    } else if d == 4 {
        '4'
    } else if d == 5 {
        '5'
    } else if d == 6 {
        '6'
    } else if d == 7 {
        '7'
    } else if d == 8 {
        '8'
    } else {
        '9'
    }
}

/// The usual decimal rendering of `n`, most significant digit first, no
/// leading zeros (except for `n == 0` itself).
pub open spec fn spec_decimal(n: nat) -> Seq<char>
    decreases n,
{
    if n < 10 {
        seq![spec_digit_char(n)]
    } else {
        spec_decimal(n / 10).push(spec_digit_char(n % 10))
    }
}

/// Whether `b` is an ASCII decimal digit.
pub open spec fn is_ascii_digit(b: u8) -> bool {
    48 <= b <= 57
}

/// The numeric value of one ASCII digit (0 for non-digits).
pub open spec fn spec_digit_val(b: u8) -> nat {
    if is_ascii_digit(b) {
        (b - 48) as nat
    } else {
        0
    }
}

/// Whether every byte of `s` is an ASCII decimal digit.
pub open spec fn all_digits(s: Seq<u8>) -> bool {
    forall|i: int| 0 <= i < s.len() ==> is_ascii_digit(#[trigger] s[i])
}

/// The numeric value of a string of ASCII digits, most significant first.
pub open spec fn spec_digits_val(s: Seq<u8>) -> nat
    decreases s.len(),
{
    if s.len() == 0 {
        0
    } else {
        spec_digits_val(s.drop_last()) * 10 + spec_digit_val(s.last())
    }
}

/// The longest all-digit prefix of `s`.
pub open spec fn take_digits_spec(s: Seq<u8>) -> Seq<u8>
    decreases s.len(),
{
    if s.len() > 0 && is_ascii_digit(s[0]) {
        seq![s[0]] + take_digits_spec(s.drop_first())
    } else {
        Seq::empty()
    }
}

/// The all-digit prefix is exactly the bytes before the first non-digit.
pub proof fn lemma_take_digits_exact(s: Seq<u8>, k: int)
    requires
        0 <= k <= s.len(),
        forall|j: int| 0 <= j < k ==> is_ascii_digit(#[trigger] s[j]),
        k == s.len() || !is_ascii_digit(s[k]),
    ensures
        take_digits_spec(s) == s.take(k),
    decreases k,
{
    if k == 0 {
        assert(take_digits_spec(s) =~= s.take(0));
    } else {
        lemma_take_digits_exact(s.drop_first(), k - 1);
        assert(take_digits_spec(s) =~= s.take(k));
    }
}

/// A digit string is worth at least as much as any of its prefixes.
proof fn lemma_digits_val_take_le(s: Seq<u8>, k: int)
    requires
        0 <= k <= s.len(),
    ensures
        spec_digits_val(s.take(k)) <= spec_digits_val(s),
    decreases s.len() - k,
{
    if k < s.len() {
        lemma_digits_val_take_le(s.drop_last(), k);
        assert(s.drop_last().take(k) =~= s.take(k));
    } else {
        assert(s.take(k) =~= s);
    }
}

/// Parse a string of ASCII digits as a `u64`. Returns the value exactly
/// when the string is nonempty, all digits, and the value fits; `None`
/// otherwise.
pub fn parse_u64_digits(s: &[u8]) -> (r: Option<u64>)
    ensures
        r is Some <==> (s@.len() > 0 && all_digits(s@) && spec_digits_val(s@) <= u64::MAX),
        r matches Some(v) ==> v == spec_digits_val(s@),
{
    if s.len() == 0 {
        return None;
    }
    let mut acc: u64 = 0;
    let mut i: usize = 0;
    while i < s.len()
        invariant
            0 <= i <= s@.len(),
            all_digits(s@.take(i as int)),
            acc == spec_digits_val(s@.take(i as int)),
        decreases s@.len() - i,
    {
        let b = s[i];
        if b < 48 || b > 57 {
            assert(!is_ascii_digit(s@[i as int]));
            return None;
        }
        let d = (b - 48) as u64;
        if acc > (u64::MAX - d) / 10 {
            proof {
                let t = s@.take(i + 1);
                assert(t.drop_last() =~= s@.take(i as int));
                assert(t.last() == s@[i as int]);
                assert(spec_digits_val(t) == acc * 10 + d);
                assert(acc * 10 + d > u64::MAX) by (nonlinear_arith)
                    requires
                        acc > (u64::MAX - d) / 10,
                        d <= 9,
                {}
                if all_digits(s@) {
                    lemma_digits_val_take_le(s@, i + 1);
                }
            }
            return None;
        }
        proof {
            assert(acc * 10 + d <= u64::MAX) by (nonlinear_arith)
                requires
                    acc <= (u64::MAX - d) / 10,
                    d <= 9,
            {}
            let t = s@.take(i + 1);
            assert(t.drop_last() =~= s@.take(i as int));
            assert(t.last() == s@[i as int]);
        }
        acc = acc * 10 + d;
        i = i + 1;
    }
    proof {
        assert(s@.take(i as int) =~= s@);
    }
    Some(acc)
}

/// The bytes of a character sequence, one per character (faithful for
/// ASCII characters).
pub open spec fn chars_as_bytes(s: Seq<char>) -> Seq<u8> {
    s.map_values(|c: char| c as u8)
}

/// The decimal rendering is never empty, and every character of it is a
/// decimal digit.
pub proof fn lemma_decimal_chars(n: nat)
    ensures
        spec_decimal(n).len() >= 1,
        forall|i: int| 0 <= i < spec_decimal(n).len() ==> '0' <= #[trigger] spec_decimal(n)[i]
            <= '9',
    decreases n,
{
    if n >= 10 {
        lemma_decimal_chars(n / 10);
    }
}

proof fn lemma_digits_val_single(b: u8)
    ensures
        spec_digits_val(seq![b]) == spec_digit_val(b),
{
    reveal_with_fuel(spec_digits_val, 2);
    assert(seq![b].drop_last() =~= Seq::<u8>::empty());
}

proof fn lemma_digits_val_push(s: Seq<u8>, b: u8)
    ensures
        spec_digits_val(s.push(b)) == spec_digits_val(s) * 10 + spec_digit_val(b),
{
    assert(s.push(b).drop_last() =~= s);
    assert(s.push(b).last() == b);
}

/// Reading the decimal rendering back as digit bytes yields the value it
/// was built from.
pub proof fn lemma_decimal_value(n: nat)
    ensures
        all_digits(chars_as_bytes(spec_decimal(n))),
        spec_digits_val(chars_as_bytes(spec_decimal(n))) == n,
    decreases n,
{
    let bytes = chars_as_bytes(spec_decimal(n));
    lemma_decimal_chars(n);
    assert forall|i: int| 0 <= i < bytes.len() implies is_ascii_digit(#[trigger] bytes[i]) by {
        assert('0' <= spec_decimal(n)[i] <= '9');
    }
    if n < 10 {
        assert(bytes =~= seq![spec_digit_char(n) as u8]);
        lemma_digits_val_single(spec_digit_char(n) as u8);
        assert(spec_digit_val(spec_digit_char(n) as u8) == n);
    } else {
        lemma_decimal_value(n / 10);
        let prefix = chars_as_bytes(spec_decimal(n / 10));
        assert(bytes =~= prefix.push(spec_digit_char(n % 10) as u8));
        lemma_digits_val_push(prefix, spec_digit_char(n % 10) as u8);
        assert(spec_digit_val(spec_digit_char(n % 10) as u8) == n % 10);
        assert((n / 10) * 10 + n % 10 == n) by (nonlinear_arith);
    }
}

/// Two distinct values never share a decimal rendering.
pub proof fn lemma_decimal_injective(a: nat, b: nat)
    requires
        spec_decimal(a) == spec_decimal(b),
    ensures
        a == b,
{
    lemma_decimal_value(a);
    lemma_decimal_value(b);
}

/// A one-character string slice for one decimal digit.
fn digit_str(d: u64) -> (r: &'static str)
    requires
        d < 10,
    ensures
        r@ == seq![spec_digit_char(d as nat)],
{
    proof {
        reveal_strlit("0");
        reveal_strlit("1");
        reveal_strlit("2");
        reveal_strlit("3");
        reveal_strlit("4");
        reveal_strlit("5");
        reveal_strlit("6");
        reveal_strlit("7");
        reveal_strlit("8");
        reveal_strlit("9");
    }
    let r = if d == 0 {
        "0"
    } else if d == 1 {
        "1"
    } else if d == 2 {
        "2"
    } else if d == 3 {
        "3"
    } else if d == 4 {
        "4"
    } else if d == 5 {
        "5"
    } else if d == 6 {
        "6"
    } else if d == 7 {
        "7"
    } else if d == 8 {
        "8"
    } else {
        "9"
    };
    proof {
        assert(r@ =~= seq![spec_digit_char(d as nat)]);
    }
    r
}

/// Append the decimal rendering of `n` to `out`.
pub fn push_decimal(n: u64, out: &mut String)
    ensures
        final(out)@ == old(out)@ + spec_decimal(n as nat),
    decreases n,
{
    if n >= 10 {
        push_decimal(n / 10, out);
        out.append(digit_str(n % 10));
    } else {
        out.append(digit_str(n));
    }
    proof {
        assert(out@ =~= old(out)@ + spec_decimal(n as nat));
    }
}

} // verus!
