//! Character-level rendering of numbers and the string operations it needs.
use vstd::prelude::*;
use vstd::utf8::*;

verus! {

/// `String::push` appends one character.
pub assume_specification[ String::push ](s: &mut String, ch: char)
    ensures
        final(s)@ == old(s)@.push(ch),
;

/// `String::pop` removes and returns the last character, if any.
pub assume_specification[ String::pop ](s: &mut String) -> (r: Option<char>)
    ensures
        old(s)@.len() == 0 ==> r is None && final(s)@ == old(s)@,
        old(s)@.len() > 0 ==> r == Some(old(s)@.last()) && final(s)@ == old(s)@.drop_last(),
;

/// `String::push_str` appends the characters of a string slice.
pub assume_specification[ String::push_str ](s: &mut String, string: &str)
    ensures
        final(s)@ == old(s)@ + string@,
;

/// Decodes `bytes` with `String::from_utf8`: `Some` exactly when the bytes are
/// well-formed UTF-8, holding then the characters they encode.
#[verifier::external_body]
pub(crate) fn string_from_utf8(bytes: Vec<u8>) -> (r: Option<String>)
    ensures
        r is Some <==> valid_utf8(bytes@),
        r matches Some(s) ==> s@ == decode_utf8(bytes@),
{
    String::from_utf8(bytes).ok()
}

/// The character that stands for digit `d` (`0`-`9`, then upper-case `A`-`F`).
pub open spec fn digit_char(d: int) -> char {
    if d < 10 {
        (48 + d) as char
    } else {
        (55 + d) as char
    }
}

pub proof fn lemma_quotient_smaller(n: nat, radix: nat)
    requires
        radix >= 2,
        n >= radix,
    ensures
        n / radix < n,
        n / radix + 2 <= n + 1,
        1 <= n / radix,
        2 * (n / radix) <= n,
{
    assert(2 * (n / radix) <= n) by (nonlinear_arith)
        requires radix >= 2, n >= radix;
    assert(n / radix < n) by (nonlinear_arith)
        requires radix >= 2, n >= radix;
    assert(1 <= n / radix) by (nonlinear_arith)
        requires radix >= 2, n >= radix;
}

/// The digits of `n` in base `radix`, most significant first, without leading zeros.
pub open spec fn radix_digits(n: nat, radix: nat) -> Seq<char>
    decreases n,
    when radix >= 2
{
    if n < radix {
        seq![digit_char(n as int)]
    } else {
        proof {
            lemma_quotient_smaller(n, radix);
        }
        radix_digits(n / radix, radix).push(digit_char((n % radix) as int))
    }
}

/// `n` written in decimal, as `{}` renders an unsigned integer.
pub open spec fn decimal(n: nat) -> Seq<char> {
    radix_digits(n, 10)
}

/// `n` written in upper-case hexadecimal, as `{:X}` renders it.
pub open spec fn hex_upper(n: nat) -> Seq<char> {
    radix_digits(n, 16)
}

/// `s` left-padded with `'0'` up to `width` characters.
pub open spec fn zero_pad(s: Seq<char>, width: nat) -> Seq<char> {
    if s.len() < width {
        Seq::new((width - s.len()) as nat, |i: int| '0') + s
    } else {
        s
    }
}

/// `s` without the `'\0'` characters at its end.
pub open spec fn trim_trailing_nul(s: Seq<char>) -> Seq<char>
    decreases s.len(),
{
    if s.len() > 0 && s.last() == '\0' {
        trim_trailing_nul(s.drop_last())
    } else {
        s
    }
}

pub fn digit_to_char(d: u64) -> (c: char)
    requires
        d < 16,
    ensures
        c == digit_char(d as int),
{
    match d {
        0 => '0',
        1 => '1',
        2 => '2',
        3 => '3',
        4 => '4',
        5 => '5',
        6 => '6',
        7 => '7',
        8 => '8',
        9 => '9',
        10 => 'A',
        11 => 'B',
        12 => 'C',
        13 => 'D',
        14 => 'E',
        _ => 'F',
    }
}

/// Appends the base-`radix` digits of `n`.
pub fn push_radix(s: &mut String, n: u64, radix: u64)
    requires
        2 <= radix <= 16,
    ensures
        final(s)@ == old(s)@ + radix_digits(n as nat, radix as nat),
    decreases n,
{
    if n < radix {
        s.push(digit_to_char(n));
        assert(radix_digits(n as nat, radix as nat) == seq![digit_char(n as int)]);
    } else {
        proof {
            lemma_quotient_smaller(n as nat, radix as nat);
        }
        push_radix(s, n / radix, radix);
        s.push(digit_to_char(n % radix));
        assert(old(s)@ + radix_digits(n as nat, radix as nat) =~= old(s)@ + radix_digits(
            (n / radix) as nat,
            radix as nat,
        ) + seq![digit_char((n % radix) as int)]);
    }
}

/// The number of base-`radix` digits of `n`.
pub fn digit_count(n: u64, radix: u64) -> (r: u64)
    requires
        2 <= radix <= 16,
    ensures
        r == radix_digits(n as nat, radix as nat).len(),
        1 <= r <= n + 1,
    decreases n,
{
    if n < radix {
        1
    } else {
        proof {
            lemma_quotient_smaller(n as nat, radix as nat);
        }
        let c = digit_count(n / radix, radix);
        c + 1
    }
}

/// Appends `n` in base `radix`, left-padded with `'0'` to `width` characters.
pub fn push_radix_padded(s: &mut String, n: u64, radix: u64, width: u64)
    requires
        2 <= radix <= 16,
    ensures
        final(s)@ == old(s)@ + zero_pad(radix_digits(n as nat, radix as nat), width as nat),
{
    let count = digit_count(n, radix);
    let ghost digits = radix_digits(n as nat, radix as nat);
    if count < width {
        let pad = width - count;
        let mut i: u64 = 0;
        while i < pad
            invariant
                i <= pad,
                s@ == old(s)@ + Seq::new(i as nat, |j: int| '0'),
            decreases pad - i,
        {
            s.push('0');
            i = i + 1;
            assert(s@ =~= old(s)@ + Seq::new(i as nat, |j: int| '0'));
        }
        let ghost mid = s@;
        push_radix(s, n, radix);
        assert(s@ =~= old(s)@ + zero_pad(digits, width as nat));
    } else {
        push_radix(s, n, radix);
    }
}

/// The digit that a digit character stands for.
pub open spec fn digit_value(c: char) -> int {
    if (c as u32) < 58 {
        (c as u32) - 48
    } else {
        (c as u32) - 55
    }
}

/// The number that a string of base-`radix` digits stands for.
pub open spec fn digits_value(ds: Seq<char>, radix: nat) -> int
    decreases ds.len(),
{
    if ds.len() == 0 {
        0
    } else {
        digits_value(ds.drop_last(), radix) * radix + digit_value(ds.last())
    }
}

/// Rendering is exact: the digits of `n` stand for `n`, each is a digit below the radix,
/// and the first is not a leading zero unless `n` is zero.
pub proof fn lemma_radix_digits_value(n: nat, radix: nat)
    requires
        2 <= radix <= 16,
    ensures
        digits_value(radix_digits(n, radix), radix) == n,
        forall|i: int|
            0 <= i < radix_digits(n, radix).len() ==> 0 <= #[trigger] digit_value(
                radix_digits(n, radix)[i],
            ) < radix,
        n > 0 ==> digit_value(radix_digits(n, radix)[0]) != 0,
    decreases n,
{
    if n < radix {
        assert(digit_value(digit_char(n as int)) == n);
        let ds = radix_digits(n, radix);
        assert(ds.drop_last() =~= Seq::<char>::empty());
        assert(digits_value(ds.drop_last(), radix) == 0);
        assert(digits_value(ds, radix) == 0 * radix + digit_value(ds.last()));
    } else {
        lemma_quotient_smaller(n, radix);
        let q = n / radix;
        let d = n % radix;
        lemma_radix_digits_value(q, radix);
        let ds = radix_digits(n, radix);
        assert(ds == radix_digits(q, radix).push(digit_char(d as int)));
        assert(ds.drop_last() =~= radix_digits(q, radix));
        assert(ds.last() == digit_char(d as int));
        assert(digit_value(digit_char(d as int)) == d);
        assert(digits_value(ds, radix) == digits_value(ds.drop_last(), radix) * radix + digit_value(ds.last()));
        assert(digits_value(ds, radix) == q * radix + d);
        assert(q * radix + d == n) by (nonlinear_arith)
            requires q == n / radix, d == n % radix, radix > 0;
        assert forall|i: int| 0 <= i < ds.len() implies 0 <= #[trigger] digit_value(ds[i]) < radix by {
            if i < ds.len() - 1 {
                assert(ds[i] == radix_digits(q, radix)[i]);
            }
        }
        assert(radix_digits(q, radix).len() >= 1);
        assert(ds[0] == radix_digits(q, radix)[0]);
    }
}

} // verus!
