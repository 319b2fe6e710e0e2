//! Decimal rendering and parsing, and string comparison helpers.

use vstd::prelude::*;

verus! {

/// The character for a decimal digit `d` (0..=9).
pub open spec fn digit_char(d: nat) -> char {
    ((d + 48) as u32) as char
}

/// Whether `c` is an ASCII decimal digit.
pub open spec fn is_digit(c: char) -> bool {
    48 <= (c as u32) <= 57
}

/// The value of the ASCII digit `c`.
pub open spec fn digit_value(c: char) -> nat {
    ((c as u32) - 48) as nat
}

/// The decimal rendering of `n`, with no sign and no leading zeros
/// (as Rust's `{}` formats an unsigned integer).
pub open spec fn dec(n: nat) -> Seq<char>
    decreases n,
{
    if n < 10 {
        seq![digit_char(n)]
    } else {
        dec(n / 10).push(digit_char(n % 10))
    }
}

/// The rendering of `n` padded with zeros to at least two characters
/// (as Rust's `{:02}` formats an unsigned integer).
pub open spec fn pad2(n: nat) -> Seq<char> {
    if n < 10 {
        seq!['0'] + dec(n)
    } else {
        dec(n)
    }
}

/// Whether every character of `s` is an ASCII digit.
pub open spec fn all_digits(s: Seq<char>) -> bool {
    forall|i: int| 0 <= i < s.len() ==> #[trigger] is_digit(s[i])
}

/// The value of the digit string `s`, most significant digit first.
pub open spec fn digits_value(s: Seq<char>) -> nat
    decreases s.len(),
{
    if s.len() == 0 {
        0
    } else {
        digits_value(s.drop_last()) * 10 + digit_value(s.last())
    }
}

/// What remains of `s` after an optional leading `+`.
pub open spec fn unsigned_digits(s: Seq<char>) -> Seq<char> {
    if s.len() > 0 && s[0] == '+' {
        s.drop_first()
    } else {
        s
    }
}

/// What `s.parse::<usize>()` gives: an optional `+`, then at least one ASCII
/// digit and nothing else, with a value that fits in `usize`.
pub open spec fn parsed_index(s: Seq<char>) -> Option<usize> {
    let d = unsigned_digits(s);
    if d.len() > 0 && all_digits(d) && digits_value(d) <= usize::MAX {
        Some(digits_value(d) as usize)
    } else {
        None
    }
}

/// The decimal rendering of `n`, as Rust's `n.to_string()` gives it.
pub fn decimal(n: u64) -> (s: String)
    ensures
        s@ == dec(n as nat),
{
    let mut s = String::new();
    push_decimal(&mut s, n);
    s
}

/// Appends the decimal rendering of `n` to `out`.
pub fn push_decimal(out: &mut String, n: u64)
    ensures
        final(out)@ == old(out)@ + dec(n as nat),
    decreases n,
{
    if n >= 10 {
        push_decimal(out, n / 10);
    }
    let d: u64 = n % 10;
    let c: char = ((d as u8) + 48u8) as char;
    out.push(c);
    proof {
        assert(c == digit_char(d as nat));
        if n >= 10 {
            assert(dec(n as nat) == dec((n / 10) as nat).push(digit_char((n % 10) as nat)));
        }
    }
}

/// Appends `n` padded with zeros to two characters, as `{:02}` does.
pub fn push_pad2(out: &mut String, n: u64)
    ensures
        final(out)@ == old(out)@ + pad2(n as nat),
{
    if n < 10 {
        out.push('0');
    }
    push_decimal(out, n);
    proof {
        if n < 10 {
            assert(old(out)@.push('0') + dec(n as nat) == old(out)@ + (seq!['0'] + dec(n as nat)));
        }
    }
}

/// Parses `s` as `s.parse::<usize>()` does: `None` where that returns an error.
pub fn parse_index(s: &str) -> (r: Option<usize>)
    ensures
        r == parsed_index(s@),
{
    let len = s.unicode_len();
    let mut i: usize = 0;
    if len > 0 && s.get_char(0) == '+' {
        i = 1;
    }
    let start = i;
    let ghost d = unsigned_digits(s@);
    assert(d == s@.subrange(start as int, len as int));
    if start == len {
        return None;
    }
    let mut acc: usize = 0;
    while i < len
        invariant
            start <= i <= len,
            len == s@.len(),
            d == unsigned_digits(s@),
            d == s@.subrange(start as int, len as int),
            all_digits(d.take(i - start)),
            acc == digits_value(d.take(i - start)),
        decreases len - i,
    {
        let c = s.get_char(i);
        if c < '0' || c > '9' {
            proof {
                assert(!is_digit(d[i - start]));
            }
            return None;
        }
        proof {
            assert(d.take(i + 1 - start).drop_last() == d.take(i - start));
            assert(d.take(i + 1 - start).last() == c);
        }
        let shifted = acc.checked_mul(10);
        match shifted {
            None => {
                proof { lemma_digits_value_prefix(d, i + 1 - start); }
                return None;
            },
            Some(m) => {
                let dv: usize = ((c as u32) - 48) as usize;
                match m.checked_add(dv) {
                    None => {
                        proof { lemma_digits_value_prefix(d, i + 1 - start); }
                        return None;
                    },
                    Some(v) => {
                        acc = v;
                    },
                }
            },
        }
        i = i + 1;
    }
    assert(d.take(len - start) == d);
    Some(acc)
}

/// The value of a digit string is at least that of any of its prefixes.
pub proof fn lemma_digits_value_prefix(s: Seq<char>, k: int)
    requires
        0 <= k <= s.len(),
    ensures
        digits_value(s.take(k)) <= digits_value(s),
    decreases s.len(),
{
    if k < s.len() {
        lemma_digits_value_prefix(s.drop_last(), k);
        assert(s.drop_last().take(k) == s.take(k));
    } else {
        assert(s.take(k) == s);
    }
}

/// The rendering of a number reads back as that number: it is made of digits,
/// has no sign, and its digits evaluate to the number.
pub proof fn lemma_dec_digits(n: nat)
    ensures
        dec(n).len() > 0,
        all_digits(dec(n)),
        digits_value(dec(n)) == n,
        dec(n)[0] != '+',
    decreases n,
{
    let c = digit_char(n % 10);
    assert(digit_value(c) == n % 10);
    assert(is_digit(c));
    if n < 10 {
        assert(dec(n).drop_last() =~= Seq::<char>::empty());
        assert(digits_value(Seq::<char>::empty()) == 0);
        assert(dec(n).last() == c);
        assert(n % 10 == n);
    } else {
        lemma_dec_digits(n / 10);
        let s = dec(n);
        assert(s.drop_last() == dec(n / 10));
        assert(s.last() == c);
        assert(digits_value(s) == digits_value(dec(n / 10)) * 10 + digit_value(c));
        assert((n / 10) * 10 + n % 10 == n);
        assert forall|i: int| 0 <= i < s.len() implies #[trigger] is_digit(s[i]) by {
            if i < s.len() - 1 {
                assert(s[i] == dec(n / 10)[i]);
            }
        }
    }
}

/// The value of a two-digit string.
pub proof fn lemma_digits_value_pair(s: Seq<char>)
    requires
        s.len() == 2,
    ensures
        digits_value(s) == digit_value(s[0]) * 10 + digit_value(s[1]),
{
    let a = s.drop_last();
    assert(a.drop_last() =~= Seq::<char>::empty());
    assert(a.last() == s[0]);
    assert(digits_value(a.drop_last()) == 0);
    assert(digits_value(a) == digits_value(a.drop_last()) * 10 + digit_value(a.last()));
    assert(digits_value(a) == digit_value(s[0]));
    assert(s.last() == s[1]);
    assert(digits_value(s) == digits_value(a) * 10 + digit_value(s.last()));
}

/// A number below 100 padded to two places is two digits that read back as
/// the number.
pub proof fn lemma_pad2_digits(n: nat)
    requires
        n < 100,
    ensures
        pad2(n).len() == 2,
        all_digits(pad2(n)),
        digits_value(pad2(n)) == n,
{
    lemma_dec_digits(n);
    let p = pad2(n);
    if n < 10 {
        assert(dec(n) =~= seq![digit_char(n)]);
        assert(p =~= seq!['0', digit_char(n)]);
        assert(digit_value('0') == 0);
        assert(is_digit('0'));
        assert(digit_value(digit_char(n)) == n);
        assert(is_digit(p[0]) && is_digit(p[1]));
        lemma_digits_value_pair(p);
    } else {
        assert(dec(n / 10) =~= seq![digit_char(n / 10)]);
        assert(p =~= seq![digit_char(n / 10), digit_char(n % 10)]);
    }
}

/// Parsing the decimal rendering of an index gives the index back.
pub proof fn lemma_parse_decimal_round_trip(n: usize)
    ensures
        parsed_index(dec(n as nat)) == Some(n),
{
    lemma_dec_digits(n as nat);
}

/// Whether `a` and `b` hold the same characters.
pub fn str_eq(a: &str, b: &str) -> (r: bool)
    ensures
        r == (a@ == b@),
{
    let n = a.unicode_len();
    if n != b.unicode_len() {
        return false;
    }
    let mut i: usize = 0;
    while i < n
        invariant
            i <= n,
            n == a@.len(),
            n == b@.len(),
            forall|j: int| 0 <= j < i ==> a@[j] == b@[j],
        decreases n - i,
    {
        if a.get_char(i) != b.get_char(i) {
            return false;
        }
        i = i + 1;
    }
    assert(a@ == b@);
    true
}

/// Whether `s` begins with `prefix`.
pub fn starts_with(s: &str, prefix: &str) -> (r: bool)
    ensures
        r == (prefix@.len() <= s@.len() && s@.take(prefix@.len() as int) == prefix@),
{
    let n = prefix.unicode_len();
    if n > s.unicode_len() {
        return false;
    }
    let mut i: usize = 0;
    while i < n
        invariant
            i <= n,
            n == prefix@.len(),
            n <= s@.len(),
            forall|j: int| 0 <= j < i ==> s@[j] == prefix@[j],
        decreases n - i,
    {
        if s.get_char(i) != prefix.get_char(i) {
            assert(s@.take(n as int)[i as int] != prefix@[i as int]);
            return false;
        }
        i = i + 1;
    }
    assert(s@.take(n as int) == prefix@);
    true
}

/// `String::push`: appends one character.
pub assume_specification[ String::push ](s: &mut String, ch: char)
    ensures
        final(s)@ == old(s)@.push(ch),
;

} // verus!
