//! Recognizing literals in text: trimming whitespace, integer literals in the forms that
//! `from_str_radix` accepts, and floating-point literals in the form that `f64::from_str`
//! accepts. Only acceptance is decided; no value is ever produced as a float.
use vstd::prelude::*;

use crate::text::{char_is_whitespace, decimal, digit_char, is_whitespace};

verus! {

/// `s` without its leading whitespace.
pub open spec fn trim_ws_start(s: Seq<char>) -> Seq<char>
    decreases s.len(),
{
    if s.len() > 0 && is_whitespace(s[0]) {
        trim_ws_start(s.drop_first())
    } else {
        s
    }
}

/// `s` without its trailing whitespace.
pub open spec fn trim_ws_end(s: Seq<char>) -> Seq<char>
    decreases s.len(),
{
    if s.len() > 0 && is_whitespace(s.last()) {
        trim_ws_end(s.drop_last())
    } else {
        s
    }
}

/// `s` without leading and trailing whitespace (`str::trim`).
pub open spec fn trim_ws(s: Seq<char>) -> Seq<char> {
    trim_ws_end(trim_ws_start(s))
}

/// `s` without leading and trailing whitespace (`str::trim`).
pub fn trim(s: &str) -> (r: &str)
    ensures
        r@ == trim_ws(s@),
{
    let n = s.unicode_len();
    let mut start: usize = 0;
    assert(s@.subrange(0, n as int) =~= s@);
    while start < n && char_is_whitespace(s.get_char(start))
        invariant
            start <= n,
            n == s@.len(),
            trim_ws_start(s@) == trim_ws_start(s@.subrange(start as int, n as int)),
        decreases n - start,
    {
        assert(s@.subrange(start as int, n as int).drop_first() =~= s@.subrange(start + 1, n as int));
        start = start + 1;
    }
    let mut end: usize = n;
    assert(s@.subrange(start as int, n as int) =~= s@.subrange(start as int, end as int));
    while end > start && char_is_whitespace(s.get_char(end - 1))
        invariant
            start <= end <= n,
            n == s@.len(),
            trim_ws(s@) == trim_ws_end(s@.subrange(start as int, end as int)),
        decreases end,
    {
        assert(s@.subrange(start as int, end as int).drop_last() =~= s@.subrange(start as int, end - 1));
        end = end - 1;
    }
    s.substring_char(start, end)
}

/// `s` with every whitespace character removed.
pub open spec fn without_whitespace(s: Seq<char>) -> Seq<char>
    decreases s.len(),
{
    if s.len() == 0 {
        Seq::empty()
    } else if is_whitespace(s.last()) {
        without_whitespace(s.drop_last())
    } else {
        without_whitespace(s.drop_last()).push(s.last())
    }
}

/// Whether two strings hold the same characters.
pub fn str_eq(a: &str, b: &str) -> (r: bool)
    ensures
        r == (a@ == b@),
{
    let n = a.unicode_len();
    let m = b.unicode_len();
    if n != m {
        return false;
    }
    let mut i: usize = 0;
    while i < n
        invariant
            i <= n,
            n == a@.len(),
            m == b@.len(),
            n == m,
            forall|j: int| 0 <= j < i ==> a@[j] == b@[j],
        decreases n - i,
    {
        if a.get_char(i) != b.get_char(i) {
            return false;
        }
        i = i + 1;
    }
    assert(a@ =~= b@);
    true
}

/// Whether `s` starts with `p`.
pub open spec fn has_prefix(s: Seq<char>, p: Seq<char>) -> bool {
    p.len() <= s.len() && s.take(p.len() as int) == p
}

/// Whether `s` ends with `p`.
pub open spec fn has_suffix(s: Seq<char>, p: Seq<char>) -> bool {
    p.len() <= s.len() && s.skip(s.len() - p.len()) == p
}

/// `s` without the prefix `p`, when it starts with it (`str::strip_prefix`).
pub fn strip_prefix<'a>(s: &'a str, p: &str) -> (r: Option<&'a str>)
    ensures
        r is Some <==> has_prefix(s@, p@),
        r matches Some(t) ==> t@ == s@.skip(p@.len() as int),
{
    let n = s.unicode_len();
    let m = p.unicode_len();
    if m > n {
        return None;
    }
    let mut i: usize = 0;
    while i < m
        invariant
            i <= m <= n,
            n == s@.len(),
            m == p@.len(),
            forall|j: int| 0 <= j < i ==> s@[j] == p@[j],
        decreases m - i,
    {
        if s.get_char(i) != p.get_char(i) {
            assert(s@.take(m as int)[i as int] != p@[i as int]);
            return None;
        }
        i = i + 1;
    }
    assert(s@.take(m as int) =~= p@);
    let t = s.substring_char(m, n);
    assert(t@ =~= s@.skip(m as int));
    Some(t)
}

/// `s` without the suffix `p`, when it ends with it (`str::strip_suffix`).
pub fn strip_suffix<'a>(s: &'a str, p: &str) -> (r: Option<&'a str>)
    ensures
        r is Some <==> has_suffix(s@, p@),
        r matches Some(t) ==> t@ == s@.take(s@.len() - p@.len()),
{
    let n = s.unicode_len();
    let m = p.unicode_len();
    if m > n {
        return None;
    }
    let k = n - m;
    let mut i: usize = 0;
    while i < m
        invariant
            i <= m <= n,
            k == n - m,
            n == s@.len(),
            m == p@.len(),
            forall|j: int| 0 <= j < i ==> s@[k + j] == p@[j],
        decreases m - i,
    {
        if s.get_char(k + i) != p.get_char(i) {
            assert(s@.skip(k as int)[i as int] != p@[i as int]);
            return None;
        }
        i = i + 1;
    }
    assert(s@.skip(k as int) =~= p@);
    let t = s.substring_char(0, k);
    assert(t@ =~= s@.take(k as int));
    Some(t)
}

/// The value of `c` as a digit (in base 16 when `hex`, else 10), or -1 when it is none.
pub open spec fn digit_value(c: char, hex: bool) -> int {
    if '0' <= c <= '9' {
        c as int - '0' as int
    } else if hex && 'a' <= c <= 'f' {
        c as int - 'a' as int + 10
    } else if hex && 'A' <= c <= 'F' {
        c as int - 'A' as int + 10
    } else {
        -1
    }
}

/// Whether every character of `ds` is a digit.
pub open spec fn all_digits(ds: Seq<char>, hex: bool) -> bool {
    forall|i: int| 0 <= i < ds.len() ==> digit_value(#[trigger] ds[i], hex) >= 0
}

/// The value the digits spell (base 16 when `hex`, else 10).
pub open spec fn digits_value(ds: Seq<char>, hex: bool) -> int
    decreases ds.len(),
{
    if ds.len() == 0 {
        0
    } else if hex {
        digits_value(ds.drop_last(), hex) * 16 + digit_value(ds.last(), hex)
    } else {
        digits_value(ds.drop_last(), hex) * 10 + digit_value(ds.last(), hex)
    }
}

/// Whether an integer literal is negative: it starts with `-` and the type is `signed`.
pub open spec fn int_negative(s: Seq<char>, signed: bool) -> bool {
    signed && s.len() > 0 && s[0] == '-'
}

/// The digits of an integer literal, after its sign.
pub open spec fn int_digits(s: Seq<char>, signed: bool) -> Seq<char> {
    if int_negative(s, signed) || (s.len() > 0 && s[0] == '+') {
        s.drop_first()
    } else {
        s
    }
}

/// Whether `s` is an integer literal that `from_str_radix` accepts (base 16 when `hex`, else
/// 10) for an integer type whose values run from `lo` to `hi`: an optional `+` (or `-` when
/// the type is `signed`) and at least one digit, spelling a value in range.
pub open spec fn accepts_int(s: Seq<char>, hex: bool, signed: bool, lo: int, hi: int) -> bool {
    let ds = int_digits(s, signed);
    &&& ds.len() > 0
    &&& all_digits(ds, hex)
    &&& if int_negative(s, signed) {
        lo <= -digits_value(ds, hex)
    } else {
        digits_value(ds, hex) <= hi
    }
}

/// A longer run of digits spells at least as much as its prefix.
proof fn lemma_digits_value_grows(ds: Seq<char>, hex: bool, i: int)
    requires
        0 <= i <= ds.len(),
        all_digits(ds, hex),
    ensures
        digits_value(ds, hex) >= digits_value(ds.take(i), hex) >= 0,
    decreases ds.len(),
{
    if ds.len() > 0 {
        assert(all_digits(ds.drop_last(), hex)) by {
            assert forall|j: int| 0 <= j < ds.drop_last().len() implies digit_value(
                #[trigger] ds.drop_last()[j],
                hex,
            ) >= 0 by {
                assert(ds.drop_last()[j] == ds[j]);
            }
        }
        assert(digit_value(ds[ds.len() - 1], hex) >= 0);
        if i == ds.len() {
            assert(ds.take(i) =~= ds);
            lemma_digits_value_grows(ds.drop_last(), hex, i - 1);
        } else {
            assert(ds.drop_last().take(i) =~= ds.take(i));
            lemma_digits_value_grows(ds.drop_last(), hex, i);
        }
    }
}

fn digit_of(c: char, hex: bool) -> (r: i32)
    ensures
        r == digit_value(c, hex),
{
    if '0' <= c && c <= '9' {
        (c as u32 - '0' as u32) as i32
    } else if hex && 'a' <= c && c <= 'f' {
        (c as u32 - 'a' as u32 + 10) as i32
    } else if hex && 'A' <= c && c <= 'F' {
        (c as u32 - 'A' as u32 + 10) as i32
    } else {
        -1
    }
}

/// Whether `s` is an integer literal that `from_str_radix` accepts for a type whose values run
/// from `-neg_limit` to `pos_limit`.
pub fn int_literal_fits(s: &str, hex: bool, signed: bool, neg_limit: u64, pos_limit: u64) -> (r: bool)
    ensures
        r == accepts_int(s@, hex, signed, -(neg_limit as int), pos_limit as int),
{
    let n = s.unicode_len();
    let neg: bool = signed && n > 0 && s.get_char(0) == '-';
    let plus: bool = n > 0 && s.get_char(0) == '+';
    let first: usize = if neg || plus { 1 } else { 0 };
    let ghost ds = if neg || plus { s@.drop_first() } else { s@ };
    assert(ds =~= s@.skip(first as int));
    if first >= n {
        return false;
    }
    let limit: u64 = if neg { neg_limit } else { pos_limit };
    let mut acc: u128 = 0;
    let mut i: usize = first;
    assert(ds.take(0) =~= Seq::<char>::empty());
    while i < n
        invariant
            first <= i <= n,
            n == s@.len(),
            ds == s@.skip(first as int),
            neg == int_negative(s@, signed),
            plus == (s@.len() > 0 && s@[0] == '+'),
            ds == int_digits(s@, signed),
            limit == (if neg { neg_limit } else { pos_limit }),
            acc == digits_value(ds.take(i - first), hex),
            acc <= limit,
            all_digits(ds.take(i - first), hex),
        decreases n - i,
    {
        let d = digit_of(s.get_char(i), hex);
        let ghost k = i - first;
        assert(ds[k] == s@[i as int]);
        if d < 0 {
            assert(!all_digits(ds, hex));
            return false;
        }
        assert(ds.take(k + 1).drop_last() =~= ds.take(k));
        acc = if hex { acc * 16 + d as u128 } else { acc * 10 + d as u128 };
        assert(all_digits(ds.take(k + 1), hex)) by {
            assert forall|j: int| 0 <= j < k + 1 implies digit_value(#[trigger] ds.take(k + 1)[j], hex) >= 0 by {
                if j < k {
                    assert(ds.take(k + 1)[j] == ds.take(k)[j]);
                }
            }
        }
        if acc > limit as u128 {
            proof {
                if all_digits(ds, hex) {
                    lemma_digits_value_grows(ds, hex, k + 1);
                }
            }
            return false;
        }
        i = i + 1;
    }
    assert(ds.take(n - first) =~= ds);
    true
}

/// The value of a `u32` literal (`str::parse::<u32>`), when it is one.
pub fn parse_u32(s: &str) -> (r: Option<u32>)
    ensures
        r is Some <==> accepts_int(s@, false, false, 0, u32::MAX as int),
        r matches Some(v) ==> v == digits_value(int_digits(s@, false), false),
{
    if !int_literal_fits(s, false, false, 0, u32::MAX as u64) {
        return None;
    }
    let n = s.unicode_len();
    let first: usize = if s.get_char(0) == '+' { 1 } else { 0 };
    let ghost ds = int_digits(s@, false);
    assert(ds =~= s@.skip(first as int));
    let mut acc: u64 = 0;
    let mut i: usize = first;
    assert(ds.take(0) =~= Seq::<char>::empty());
    while i < n
        invariant
            first <= i <= n,
            n == s@.len(),
            ds == s@.skip(first as int),
            ds == int_digits(s@, false),
            accepts_int(s@, false, false, 0, u32::MAX as int),
            acc == digits_value(ds.take(i - first), false),
        decreases n - i,
    {
        let ghost k = i - first;
        assert(ds[k] == s@[i as int]);
        let d = digit_of(s.get_char(i), false);
        assert(d >= 0);
        assert(ds.take(k + 1).drop_last() =~= ds.take(k));
        proof {
            lemma_digits_value_grows(ds, false, k + 1);
        }
        acc = acc * 10 + d as u64;
        i = i + 1;
    }
    assert(ds.take(n - first) =~= ds);
    Some(acc as u32)
}

/// Whether `s` and the lowercase ASCII `lit` are equal, ignoring ASCII case.
pub open spec fn eq_ignore_case(s: Seq<char>, lit: Seq<char>) -> bool {
    s.len() == lit.len() && forall|i: int| 0 <= i < s.len() ==> ascii_lower(#[trigger] s[i]) == lit[i]
}

/// `c` in lowercase when it is an ASCII capital letter.
pub open spec fn ascii_lower(c: char) -> char {
    if 'A' <= c <= 'Z' {
        ((c as u32) + 32) as char
    } else {
        c
    }
}

/// The number of leading ASCII digits of `s`.
pub open spec fn leading_digits(s: Seq<char>) -> nat
    decreases s.len(),
{
    if s.len() > 0 && '0' <= s[0] <= '9' {
        1 + leading_digits(s.drop_first())
    } else {
        0
    }
}

/// Whether `e` is an exponent: `e` or `E`, an optional sign and at least one digit.
pub open spec fn is_exponent(e: Seq<char>) -> bool {
    e.len() > 0 && (e[0] == 'e' || e[0] == 'E') && {
        let t = e.drop_first();
        let u = if t.len() > 0 && (t[0] == '+' || t[0] == '-') {
            t.drop_first()
        } else {
            t
        };
        u.len() > 0 && leading_digits(u) == u.len()
    }
}

/// Whether `b` is a decimal number: digits with an optional fraction (at least one digit in
/// all), then an optional exponent.
pub open spec fn is_decimal_number(b: Seq<char>) -> bool {
    let a = leading_digits(b);
    let r1 = b.skip(a as int);
    let has_point = r1.len() > 0 && r1[0] == '.';
    let f = if has_point {
        leading_digits(r1.drop_first())
    } else {
        0
    };
    let r2 = if has_point {
        r1.drop_first().skip(f as int)
    } else {
        r1
    };
    (a > 0 || f > 0) && (r2.len() == 0 || is_exponent(r2))
}

/// Whether `s` is what `f64::from_str` accepts: an optional sign, then `inf`, `infinity` or
/// `nan` in any case, or a decimal number.
pub open spec fn accepts_float(s: Seq<char>) -> bool {
    let b = if s.len() > 0 && (s[0] == '+' || s[0] == '-') {
        s.drop_first()
    } else {
        s
    };
    eq_ignore_case(b, "inf"@) || eq_ignore_case(b, "infinity"@) || eq_ignore_case(b, "nan"@) || is_decimal_number(b)
}

fn lower_matches(c: char, l: char) -> (r: bool)
    ensures
        r == (ascii_lower(c) == l),
{
    if 'A' <= c && c <= 'Z' {
        c as u32 + 32 == l as u32
    } else {
        c == l
    }
}

fn equals_ignore_case(s: &str, from: usize, lit: &str) -> (r: bool)
    requires
        from <= s@.len(),
    ensures
        r == eq_ignore_case(s@.skip(from as int), lit@),
{
    let n = s.unicode_len();
    let m = lit.unicode_len();
    let ghost b = s@.skip(from as int);
    if n - from != m {
        return false;
    }
    let mut i: usize = 0;
    while i < m
        invariant
            i <= m,
            n == s@.len(),
            m == lit@.len(),
            from + m == n,
            b == s@.skip(from as int),
            forall|j: int| 0 <= j < i ==> ascii_lower(#[trigger] b[j]) == lit@[j],
        decreases m - i,
    {
        assert(b[i as int] == s@[from + i]);
        if !lower_matches(s.get_char(from + i), lit.get_char(i)) {
            return false;
        }
        i = i + 1;
    }
    true
}

fn count_digits(s: &str, from: usize) -> (r: usize)
    requires
        from <= s@.len(),
    ensures
        r == leading_digits(s@.skip(from as int)),
        from + r <= s@.len(),
{
    let n = s.unicode_len();
    let mut i: usize = from;
    while i < n && '0' <= s.get_char(i) && s.get_char(i) <= '9'
        invariant
            from <= i <= n,
            n == s@.len(),
            leading_digits(s@.skip(from as int)) == (i - from) + leading_digits(s@.skip(i as int)),
        decreases n - i,
    {
        assert(s@.skip(i as int).drop_first() =~= s@.skip(i + 1));
        i = i + 1;
    }
    i - from
}

fn exponent_at(s: &str, from: usize) -> (r: bool)
    requires
        from <= s@.len(),
    ensures
        r == is_exponent(s@.skip(from as int)),
{
    let n = s.unicode_len();
    let ghost e = s@.skip(from as int);
    if from >= n {
        return false;
    }
    let c = s.get_char(from);
    if c != 'e' && c != 'E' {
        return false;
    }
    let mut k: usize = from + 1;
    let ghost t = e.drop_first();
    assert(t =~= s@.skip(k as int));
    if k < n && (s.get_char(k) == '+' || s.get_char(k) == '-') {
        assert(t.drop_first() =~= s@.skip(k + 1));
        k = k + 1;
    }
    let d = count_digits(s, k);
    d > 0 && k + d == n
}

/// Whether `s` is what `f64::from_str` accepts.
pub fn float_literal(s: &str) -> (r: bool)
    ensures
        r == accepts_float(s@),
{
    let n = s.unicode_len();
    let from: usize = if n > 0 && (s.get_char(0) == '+' || s.get_char(0) == '-') { 1 } else { 0 };
    let ghost b = if s@.len() > 0 && (s@[0] == '+' || s@[0] == '-') { s@.drop_first() } else { s@ };
    assert(b =~= s@.skip(from as int));
    if equals_ignore_case(s, from, "inf") || equals_ignore_case(s, from, "infinity") || equals_ignore_case(
        s,
        from,
        "nan",
    ) {
        return true;
    }
    let a = count_digits(s, from);
    let p = from + a;
    assert(b.skip(a as int) =~= s@.skip(p as int));
    let has_point: bool = p < n && s.get_char(p) == '.';
    let mut f: usize = 0;
    let mut q: usize = p;
    if has_point {
        assert(b.skip(a as int).drop_first() =~= s@.skip(p + 1));
        f = count_digits(s, p + 1);
        q = p + 1 + f;
        assert(b.skip(a as int).drop_first().skip(f as int) =~= s@.skip(q as int));
    }
    (a > 0 || f > 0) && (q == n || exponent_at(s, q))
}


/// The digit character for `d` is a decimal digit whose value is `d`.
proof fn lemma_digit_char(d: nat)
    requires
        d < 10,
    ensures
        '0' <= digit_char(d) <= '9',
        digit_value(digit_char(d), false) == d,
{
    assert(digit_char(d) as int == 48 + d);
}

/// The decimal spelling of a number is a non-empty run of digits that spells the number.
pub proof fn lemma_decimal_digits(n: nat)
    ensures
        decimal(n).len() > 0,
        forall|i: int| 0 <= i < decimal(n).len() ==> '0' <= #[trigger] decimal(n)[i] <= '9',
        all_digits(decimal(n), false),
        digits_value(decimal(n), false) == n,
    decreases n,
{
    if n < 10 {
        lemma_digit_char(n);
        assert(decimal(n) =~= seq![digit_char(n)]);
        assert(seq![digit_char(n)].drop_last() =~= Seq::<char>::empty());
        assert(digits_value(Seq::<char>::empty(), false) == 0);
        assert(digits_value(decimal(n), false) == digits_value(decimal(n).drop_last(), false) * 10 + digit_value(
            decimal(n).last(),
            false,
        ));
    } else {
        lemma_digit_char(n % 10);
        lemma_decimal_digits(n / 10);
        let s = decimal(n / 10);
        let c = digit_char(n % 10);
        assert(decimal(n) =~= s.push(c));
        assert(s.push(c).drop_last() =~= s);
        assert(digits_value(decimal(n), false) == digits_value(s, false) * 10 + digit_value(c, false));
        assert forall|i: int| 0 <= i < decimal(n).len() implies '0' <= #[trigger] decimal(n)[i] <= '9' by {
            if i < s.len() {
                assert(decimal(n)[i] == s[i]);
            }
        }
    }
}

/// A run of digits has no whitespace to trim.
pub proof fn lemma_digits_untrimmed(ds: Seq<char>)
    requires
        ds.len() > 0,
        forall|i: int| 0 <= i < ds.len() ==> '0' <= #[trigger] ds[i] <= '9',
    ensures
        trim_ws(ds) == ds,
{
    assert('0' <= ds[0] <= '9');
    assert('0' <= ds[ds.len() - 1] <= '9');
}


/// What is left after trimming the start is empty or starts with a non-whitespace character.
proof fn lemma_trim_start_shape(s: Seq<char>)
    ensures
        trim_ws_start(s).len() == 0 || !is_whitespace(trim_ws_start(s)[0]),
    decreases s.len(),
{
    if s.len() > 0 && is_whitespace(s[0]) {
        lemma_trim_start_shape(s.drop_first());
    }
}

/// Trimming the end keeps a prefix, which is empty or ends with a non-whitespace character.
proof fn lemma_trim_end_shape(s: Seq<char>)
    ensures
        trim_ws_end(s).len() <= s.len(),
        trim_ws_end(s) == s.take(trim_ws_end(s).len() as int),
        trim_ws_end(s).len() == 0 || !is_whitespace(trim_ws_end(s).last()),
    decreases s.len(),
{
    if s.len() > 0 && is_whitespace(s.last()) {
        lemma_trim_end_shape(s.drop_last());
        assert(s.drop_last().take(trim_ws_end(s).len() as int) =~= s.take(trim_ws_end(s).len() as int));
    } else {
        assert(s.take(s.len() as int) =~= s);
    }
}

/// Trimming twice is trimming once.
pub proof fn lemma_trim_ws_idempotent(s: Seq<char>)
    ensures
        trim_ws(trim_ws(s)) == trim_ws(s),
{
    let t = trim_ws_start(s);
    let u = trim_ws_end(t);
    lemma_trim_start_shape(s);
    lemma_trim_end_shape(t);
    if u.len() > 0 {
        assert(u[0] == t[0]);
    }
    assert(trim_ws_start(u) == u);
    assert(trim_ws_end(u) == u);
}

} // verus!
