//! Decimal text for integers and booleans, as Rust's `to_string` writes
//! them and `str::parse` reads them.

use vstd::prelude::*;
use crate::strings::push_char;

verus! {

/// The character of a decimal digit.
pub open spec fn digit_char(d: nat) -> char
    recommends
        d < 10,
{
    ((d + 48) as u32) as char
}

/// Whether a character is an ASCII decimal digit.
pub open spec fn is_digit(c: char) -> bool {
    '0' <= c && c <= '9'
}

/// The value of a decimal digit character.
pub open spec fn digit_value(c: char) -> nat {
    ((c as u32) - 48) as nat
}

/// The decimal digits of a natural number, most significant first, without
/// leading zeros.
pub open spec fn nat_digits(n: nat) -> Seq<char>
    decreases n,
{
    if n < 10 {
        seq![digit_char(n)]
    } else {
        nat_digits(n / 10).push(digit_char(n % 10))
    }
}

/// The decimal text of an integer: a `-` in front of negative numbers.
pub open spec fn int_text(n: int) -> Seq<char> {
    if n < 0 {
        seq!['-'] + nat_digits((-n) as nat)
    } else {
        nat_digits(n as nat)
    }
}

/// Whether every character of `s` is a decimal digit.
pub open spec fn all_digits(s: Seq<char>) -> bool {
    forall|i: int| 0 <= i < s.len() ==> is_digit(#[trigger] s[i])
}

/// The value of a run of decimal digits.
pub open spec fn digits_value(s: Seq<char>) -> nat
    decreases s.len(),
{
    if s.len() == 0 {
        0
    } else {
        digits_value(s.drop_last()) * 10 + digit_value(s.last())
    }
}

/// The magnitude that a run of digits denotes, if it is a nonempty run of digits.
pub open spec fn magnitude(s: Seq<char>) -> Option<nat> {
    if s.len() > 0 && all_digits(s) {
        Some(digits_value(s))
    } else {
        None
    }
}

/// The integer that `str::parse` reads from `s`, before the range of the
/// target type is checked: an optional sign, then one or more digits.
pub open spec fn spec_parse_int(s: Seq<char>) -> Option<int> {
    if s.len() > 0 && s[0] == '-' {
        match magnitude(s.drop_first()) {
            Some(m) => Some(-(m as int)),
            None => None,
        }
    } else if s.len() > 0 && s[0] == '+' {
        match magnitude(s.drop_first()) {
            Some(m) => Some(m as int),
            None => None,
        }
    } else {
        match magnitude(s) {
            Some(m) => Some(m as int),
            None => None,
        }
    }
}

/// What `str::parse::<i64>` returns on `s`.
pub open spec fn spec_parse_i64(s: Seq<char>) -> Option<i64> {
    match spec_parse_int(s) {
        Some(v) => if i64::MIN <= v <= i64::MAX {
            Some(v as i64)
        } else {
            None
        },
        None => None,
    }
}

/// What `str::parse::<usize>` returns on `s`: unsigned types take no `-`.
pub open spec fn spec_parse_usize(s: Seq<char>) -> Option<usize> {
    if s.len() > 0 && s[0] == '-' {
        None
    } else {
        match spec_parse_int(s) {
            Some(v) => if 0 <= v <= usize::MAX {
                Some(v as usize)
            } else {
                None
            },
            None => None,
        }
    }
}

/// The text that `bool::to_string` writes.
pub open spec fn bool_text(b: bool) -> Seq<char> {
    if b {
        seq!['t', 'r', 'u', 'e']
    } else {
        seq!['f', 'a', 'l', 's', 'e']
    }
}

/// What `str::parse::<bool>` returns on `s`.
pub open spec fn spec_parse_bool(s: Seq<char>) -> Option<bool> {
    if s == bool_text(true) {
        Some(true)
    } else if s == bool_text(false) {
        Some(false)
    } else {
        None
    }
}

proof fn lemma_digit_char(d: nat)
    requires
        d < 10,
    ensures
        is_digit(digit_char(d)),
        digit_value(digit_char(d)) == d,
{
    assert(((d + 48) as u32) as char == ((d + 48) as u32) as char);
}

/// The digits of a number are a nonempty run of digits of that value.
pub proof fn lemma_nat_digits(n: nat)
    ensures
        nat_digits(n).len() > 0,
        all_digits(nat_digits(n)),
        digits_value(nat_digits(n)) == n,
    decreases n,
{
    if n < 10 {
        lemma_digit_char(n);
        assert(nat_digits(n).drop_last() =~= Seq::<char>::empty());
        assert(digits_value(nat_digits(n)) == digits_value(nat_digits(n).drop_last()) * 10 + digit_value(nat_digits(n).last()));
    } else {
        lemma_nat_digits(n / 10);
        lemma_digit_char(n % 10);
        let s = nat_digits(n);
        assert(s.drop_last() =~= nat_digits(n / 10));
        assert(s.last() == digit_char(n % 10));
        assert(digits_value(s) == digits_value(nat_digits(n / 10)) * 10 + digit_value(digit_char(n % 10)));
        assert((n / 10) * 10 + n % 10 == n);
        assert forall|i: int| 0 <= i < s.len() implies is_digit(#[trigger] s[i]) by {
            if i < s.len() - 1 {
                assert(s[i] == nat_digits(n / 10)[i]);
            }
        }
    }
}

/// Reading back the decimal text of any integer gives the integer.
pub proof fn lemma_parse_int_text(n: int)
    ensures
        spec_parse_int(int_text(n)) == Some(n),
{
    if n < 0 {
        let m = (-n) as nat;
        lemma_nat_digits(m);
        let s = int_text(n);
        assert(s.drop_first() =~= nat_digits(m));
    } else {
        lemma_nat_digits(n as nat);
        let s = nat_digits(n as nat);
        assert(is_digit(s[0]));
    }
}

/// Law: `str::parse::<i64>` gives back every `i64` that `to_string` wrote.
pub proof fn law_i64_text_round_trip(n: i64)
    ensures
        spec_parse_i64(int_text(n as int)) == Some(n),
{
    lemma_parse_int_text(n as int);
}

/// Law: `str::parse::<usize>` gives back every `usize` that `to_string` wrote.
pub proof fn law_usize_text_round_trip(n: usize)
    ensures
        spec_parse_usize(int_text(n as int)) == Some(n),
{
    lemma_parse_int_text(n as int);
    lemma_nat_digits(n as nat);
    assert(is_digit(int_text(n as int)[0]));
}

/// Law: `str::parse::<bool>` gives back every `bool` that `to_string` wrote.
pub proof fn law_bool_text_round_trip(b: bool)
    ensures
        spec_parse_bool(bool_text(b)) == Some(b),
{
    assert(bool_text(true) != bool_text(false)) by {
        assert(bool_text(true).len() != bool_text(false).len());
    }
}

/// The decimal digits of `n`, most significant first.
fn digits_of(n: u64) -> (r: Vec<char>)
    ensures
        r@ == nat_digits(n as nat),
{
    let mut q: u64 = n;
    let mut tail: Vec<char> = Vec::new();
    while q >= 10
        invariant
            nat_digits(n as nat) == nat_digits(q as nat) + tail@,
        decreases q,
    {
        let d: u64 = q % 10;
        let c = char_of_digit(d);
        proof {
            assert(nat_digits(q as nat) == nat_digits((q / 10) as nat).push(digit_char((q % 10) as nat)));
            assert(nat_digits((q / 10) as nat).push(c) + tail@ =~= nat_digits((q / 10) as nat) + tail@.insert(0, c));
        }
        tail.insert(0, c);
        q = q / 10;
    }
    let c = char_of_digit(q);
    tail.insert(0, c);
    proof {
        assert(nat_digits(q as nat) + tail@.drop_first() =~= tail@);
    }
    tail
}

/// The character of a digit below ten.
fn char_of_digit(d: u64) -> (c: char)
    requires
        d < 10,
    ensures
        c == digit_char(d as nat),
{
    match d {
        0 => '0',
        1 => '1',
        2 => '2',
        3 => '3',
        4 => '4',
        5 => '5',
        6 => '6',
        7 => '7',
        8 => '8',
        _ => '9',
    }
}

/// The decimal text of an `i64` (`i64::to_string`).
pub fn i64_to_string(n: i64) -> (r: String)
    ensures
        r@ == int_text(n as int),
{
    let mut out = String::new();
    let mag: u64 = if n < 0 {
        if n == i64::MIN {
            9223372036854775808u64
        } else {
            (-n) as u64
        }
    } else {
        n as u64
    };
    if n < 0 {
        push_char(&mut out, '-');
    }
    let ds = digits_of(mag);
    let ghost prefix = out@;
    let mut i: usize = 0;
    while i < ds.len()
        invariant
            0 <= i <= ds.len(),
            out@ == prefix + ds@.subrange(0, i as int),
        decreases ds.len() - i,
    {
        push_char(&mut out, ds[i]);
        proof {
            assert(ds@.subrange(0, i as int).push(ds@[i as int]) =~= ds@.subrange(0, i + 1));
        }
        i = i + 1;
    }
    proof {
        assert(ds@.subrange(0, ds@.len() as int) =~= ds@);
        if n < 0 {
            assert(prefix =~= seq!['-']);
        } else {
            assert(prefix =~= Seq::<char>::empty());
        }
    }
    out
}

/// The decimal text of a `usize` (`usize::to_string`).
pub fn usize_to_string(n: usize) -> (r: String)
    ensures
        r@ == int_text(n as int),
{
    let ds = digits_of(n as u64);
    let mut out = String::new();
    let mut i: usize = 0;
    while i < ds.len()
        invariant
            0 <= i <= ds.len(),
            out@ == ds@.subrange(0, i as int),
        decreases ds.len() - i,
    {
        push_char(&mut out, ds[i]);
        proof {
            assert(ds@.subrange(0, i as int).push(ds@[i as int]) =~= ds@.subrange(0, i + 1));
        }
        i = i + 1;
    }
    proof {
        assert(ds@.subrange(0, ds@.len() as int) =~= ds@);
    }
    out
}

/// The text of a `bool` (`bool::to_string`).
pub fn bool_to_string(b: bool) -> (r: String)
    ensures
        r@ == bool_text(b),
{
    let mut out = String::new();
    if b {
        push_char(&mut out, 't');
        push_char(&mut out, 'r');
        push_char(&mut out, 'u');
        push_char(&mut out, 'e');
    } else {
        push_char(&mut out, 'f');
        push_char(&mut out, 'a');
        push_char(&mut out, 'l');
        push_char(&mut out, 's');
        push_char(&mut out, 'e');
    }
    proof {
        assert(out@ =~= bool_text(b));
    }
    out
}


/// The magnitude that a run of digits denotes, when it is at most `bound`.
pub open spec fn bounded_magnitude(s: Seq<char>, bound: nat) -> Option<nat> {
    match magnitude(s) {
        Some(m) => if m <= bound {
            Some(m)
        } else {
            None
        },
        None => None,
    }
}

proof fn lemma_value_grows(s: Seq<char>, j: int, k: int)
    requires
        0 <= j <= k <= s.len(),
    ensures
        digits_value(s.subrange(0, j)) <= digits_value(s.subrange(0, k)),
    decreases k - j,
{
    if j < k {
        lemma_value_grows(s, j, k - 1);
        assert(s.subrange(0, k).drop_last() =~= s.subrange(0, k - 1));
    }
}

/// Reads the digits of `s` from character `start` on, as `bounded_magnitude`.
fn read_magnitude(s: &str, start: usize, bound: u128) -> (r: Option<u128>)
    requires
        start <= s@.len(),
        bound <= 0x1_0000_0000_0000_0000u128,
    ensures
        match bounded_magnitude(s@.subrange(start as int, s@.len() as int), bound as nat) {
            Some(m) => r == Some(m as u128),
            None => r is None,
        },
{
    let n = s.unicode_len();
    let ghost t = s@.subrange(start as int, s@.len() as int);
    if start >= n {
        return None;
    }
    let mut acc: u128 = 0;
    let mut i: usize = start;
    while i < n
        invariant
            start <= i <= n,
            n == s@.len(),
            t == s@.subrange(start as int, n as int),
            bound <= 0x1_0000_0000_0000_0000u128,
            acc <= bound,
            all_digits(t.subrange(0, i - start)),
            acc as nat == digits_value(t.subrange(0, i - start)),
        decreases n - i,
    {
        let c = s.get_char(i);
        assert(t[i - start] == c);
        if !('0' <= c && c <= '9') {
            assert(!all_digits(t));
            return None;
        }
        let d: u128 = (c as u32 - 48) as u128;
        let next: u128 = acc * 10 + d;
        proof {
            let p = t.subrange(0, i + 1 - start);
            assert(p.drop_last() =~= t.subrange(0, i - start));
            assert(p.last() == c);
            assert forall|j: int| 0 <= j < p.len() implies is_digit(#[trigger] p[j]) by {
                if j < p.len() - 1 {
                    assert(p[j] == t.subrange(0, i - start)[j]);
                }
            }
        }
        if next > bound {
            proof {
                if all_digits(t) {
                    lemma_value_grows(t, i + 1 - start, t.len() as int);
                    assert(t.subrange(0, t.len() as int) =~= t);
                }
            }
            return None;
        }
        acc = next;
        i = i + 1;
    }
    proof {
        assert(t.subrange(0, n - start) =~= t);
    }
    Some(acc)
}

/// Reads an `i64` from its decimal text (`str::parse::<i64>`).
pub fn parse_i64(s: &str) -> (r: Option<i64>)
    ensures
        r == spec_parse_i64(s@),
{
    let n = s.unicode_len();
    if n > 0 {
        let c = s.get_char(0);
        if c == '-' || c == '+' {
            let bound: u128 = if c == '-' {
                0x8000_0000_0000_0000u128
            } else {
                0x7fff_ffff_ffff_ffffu128
            };
            let m = read_magnitude(s, 1, bound);
            proof {
                assert(s@.subrange(1, s@.len() as int) =~= s@.drop_first());
            }
            return match m {
                Some(v) => if c == '-' {
                    Some((0i128 - (v as i128)) as i64)
                } else {
                    Some(v as i64)
                },
                None => None,
            };
        }
    }
    let m = read_magnitude(s, 0, 0x7fff_ffff_ffff_ffffu128);
    proof {
        assert(s@.subrange(0, s@.len() as int) =~= s@);
    }
    match m {
        Some(v) => Some(v as i64),
        None => None,
    }
}

/// Reads a `usize` from its decimal text (`str::parse::<usize>`).
pub fn parse_usize(s: &str) -> (r: Option<usize>)
    ensures
        r == spec_parse_usize(s@),
{
    let n = s.unicode_len();
    let mut start: usize = 0;
    if n > 0 {
        let c = s.get_char(0);
        if c == '-' {
            return None;
        }
        if c == '+' {
            start = 1;
        }
    }
    let m = read_magnitude(s, start, usize::MAX as u128);
    proof {
        if start == 1 {
            assert(s@.subrange(1, s@.len() as int) =~= s@.drop_first());
        } else {
            assert(s@.subrange(0, s@.len() as int) =~= s@);
        }
    }
    match m {
        Some(v) => Some(v as usize),
        None => None,
    }
}

/// Whether `s` holds exactly the characters of `expected`.
fn text_equals(s: &str, expected_chars: &Vec<char>) -> (r: bool)
    ensures
        r == (s@ == expected_chars@),
{
    let ghost expected = expected_chars@;
    let n = s.unicode_len();
    if n != expected_chars.len() {
        return false;
    }
    let mut i: usize = 0;
    while i < n
        invariant
            n == s@.len(),
            n == expected.len(),
            expected_chars@ == expected,
            0 <= i <= n,
            forall|j: int| 0 <= j < i ==> s@[j] == expected[j],
        decreases n - i,
    {
        if s.get_char(i) != expected_chars[i] {
            return false;
        }
        i = i + 1;
    }
    assert(s@ =~= expected);
    true
}

/// Reads a `bool` from its text (`str::parse::<bool>`).
pub fn parse_bool(s: &str) -> (r: Option<bool>)
    ensures
        r == spec_parse_bool(s@),
{
    let t = vec!['t', 'r', 'u', 'e'];
    let f = vec!['f', 'a', 'l', 's', 'e'];
    proof {
        assert(t@ =~= bool_text(true));
        assert(f@ =~= bool_text(false));
    }
    if text_equals(s, &t) {
        Some(true)
    } else if text_equals(s, &f) {
        Some(false)
    } else {
        None
    }
}

} // verus!
