//! Text helpers: decimal renderings, argument lists, integer parsing as
//! `str::parse` does it, and searching in character sequences.
use vstd::prelude::*;

verus! {

/// The decimal digit character for `d` (`0 <= d < 10`).
pub open spec fn digit_char(d: nat) -> char {
    (d + 48) as char
}

/// Decimal rendering of a natural number, most significant digit first,
/// with no leading zeros (`0` renders as `"0"`).
pub open spec fn dec_digits(n: nat) -> Seq<char>
    decreases n,
{
    if n < 10 {
        seq![digit_char(n)]
    } else {
        dec_digits(n / 10).push(digit_char(n % 10))
    }
}

/// Appends `c` with `String::push`. The contract claims that the string's
/// characters gain `c` at their end and are otherwise unchanged.
#[verifier::external_body]
pub(crate) fn push_char(s: &mut String, c: char)
    ensures
        final(s)@ == old(s)@.push(c),
{
    s.push(c);
}

fn digit(d: u64) -> (c: char)
    requires
        d < 10,
    ensures
        c == digit_char(d as nat),
{
    ((d as u8) + 48u8) as char
}

/// Appends the decimal rendering of `n` to `out`.
pub fn push_u64(out: &mut String, n: u64)
    ensures
        final(out)@ == old(out)@ + dec_digits(n as nat),
    decreases n,
{
    if n < 10 {
        push_char(out, digit(n));
    } else {
        push_u64(out, n / 10);
        push_char(out, digit(n % 10));
    }
}


/// Exactly three digits for `n < 1000`, with leading zeros.
pub open spec fn pad3(n: nat) -> Seq<char> {
    seq![digit_char(n / 100), digit_char((n / 10) % 10), digit_char(n % 10)]
}

/// A count of milliseconds written as seconds with exactly three decimals,
/// as `{:.3}` prints `ms / 1000` (`-1500` gives `-1.500`, `0` gives `0.000`).
pub open spec fn seconds3(ms: int) -> Seq<char> {
    let a: nat = if ms < 0 { (-ms) as nat } else { ms as nat };
    let sign: Seq<char> = if ms < 0 { seq!['-'] } else { seq![] };
    sign + dec_digits(a / 1000) + seq!['.'] + pad3(a % 1000)
}

/// A count of thousandths written as the shortest decimal of its value:
/// no trailing zeros after the point and no point for a whole number
/// (`2000` gives `2`, `500` gives `0.5`, `1250` gives `1.25`).
pub open spec fn thousandths(n: nat) -> Seq<char> {
    let ip = dec_digits(n / 1000);
    let f = n % 1000;
    if f == 0 {
        ip
    } else if f % 100 == 0 {
        ip + seq!['.', digit_char(f / 100)]
    } else if f % 10 == 0 {
        ip + seq!['.', digit_char(f / 100), digit_char((f / 10) % 10)]
    } else {
        ip + seq!['.'] + pad3(f)
    }
}

/// Decimal rendering of an unsigned number, as `to_string` gives it.
pub fn u64_to_decimal(n: u64) -> (r: String)
    ensures
        r@ == dec_digits(n as nat),
{
    let mut s = String::new();
    push_u64(&mut s, n);
    assert(s@ =~= dec_digits(n as nat));
    s
}

fn push_pad3(out: &mut String, n: u64)
    requires
        n < 1000,
    ensures
        final(out)@ == old(out)@ + pad3(n as nat),
{
    push_char(out, digit(n / 100));
    push_char(out, digit((n / 10) % 10));
    push_char(out, digit(n % 10));
    assert(final(out)@ =~= old(out)@ + pad3(n as nat));
}

/// Milliseconds written as seconds with three decimals.
pub fn seconds_from_millis(ms: i32) -> (r: String)
    ensures
        r@ == seconds3(ms as int),
{
    let mut s = String::new();
    let a: u64 = if ms < 0 { (-(ms as i64)) as u64 } else { ms as u64 };
    if ms < 0 {
        push_char(&mut s, '-');
    }
    push_u64(&mut s, a / 1000);
    push_char(&mut s, '.');
    push_pad3(&mut s, a % 1000);
    assert(s@ =~= seconds3(ms as int));
    s
}

/// Thousandths written as the shortest decimal of their value.
pub fn thousandths_to_decimal(n: u32) -> (r: String)
    ensures
        r@ == thousandths(n as nat),
{
    let mut s = String::new();
    let n = n as u64;
    push_u64(&mut s, n / 1000);
    let f = n % 1000;
    if f == 0 {
    } else if f % 100 == 0 {
        push_char(&mut s, '.');
        push_char(&mut s, digit(f / 100));
    } else if f % 10 == 0 {
        push_char(&mut s, '.');
        push_char(&mut s, digit(f / 100));
        push_char(&mut s, digit((f / 10) % 10));
    } else {
        push_char(&mut s, '.');
        push_pad3(&mut s, f);
    }
    assert(s@ =~= thousandths(n as nat));
    s
}


/// Appends a copy of `s` to the argument list `v`.
pub(crate) fn push_str_arg(v: &mut Vec<String>, s: &str)
    ensures
        final(v).deep_view() == old(v).deep_view().push(s@),
{
    v.push(String::from_str(s));
    assert(final(v).deep_view() =~= old(v).deep_view().push(s@));
}

/// Appends `s` to the argument list `v`.
pub(crate) fn push_arg(v: &mut Vec<String>, s: String)
    ensures
        final(v).deep_view() == old(v).deep_view().push(s@),
{
    let ghost s_view = s@;
    v.push(s);
    assert(final(v).deep_view() =~= old(v).deep_view().push(s_view));
}

/// Appends copies of all of `extra` to the argument list `v`.
pub(crate) fn push_args(v: &mut Vec<String>, extra: &Vec<String>)
    ensures
        final(v).deep_view() == old(v).deep_view() + extra.deep_view(),
{
    let n = extra.len();
    for i in 0..n
        invariant
            n == extra.len(),
            v.deep_view() == old(v).deep_view() + extra.deep_view().take(i as int),
    {
        push_str_arg(v, extra[i].as_str());
        assert(extra.deep_view().take(i + 1) =~= extra.deep_view().take(i as int).push(extra[i as int]@));
    }
    assert(extra.deep_view().take(n as int) =~= extra.deep_view());
}

/// A fresh copy of `s`.
pub(crate) fn copy_string(s: &String) -> (r: String)
    ensures
        r@ == s@,
{
    String::from_str(s.as_str())
}

/// A fresh copy of the argument list `v`.
pub(crate) fn copy_args(v: &Vec<String>) -> (r: Vec<String>)
    ensures
        r.deep_view() == v.deep_view(),
{
    let mut r: Vec<String> = Vec::new();
    push_args(&mut r, v);
    assert(r.deep_view() =~= v.deep_view());
    r
}


/// Whether two string slices hold the same characters.
pub fn str_equal(a: &str, b: &str) -> (r: bool)
    ensures
        r == (a@ == b@),
{
    let x: String = a.to_owned();
    let y: String = b.to_owned();
    x == y
}


/// The characters of `s`, in order.
pub fn to_chars(s: &str) -> (r: Vec<char>)
    ensures
        r@ == s@,
{
    let mut v: Vec<char> = Vec::new();
    for c in it: s.chars()
        invariant
            v@ =~= s@.take(it.index() as int),
            it.seq() == s@,
    {
        assert(s@.take(it.index() as int + 1) =~= s@.take(it.index() as int).push(c));
        v.push(c);
    }
    assert(v@ =~= s@);
    v
}

/// The string made of the characters `chars[from..to]`.
pub fn string_from_chars(chars: &Vec<char>, from: usize, to: usize) -> (r: String)
    requires
        from <= to <= chars@.len(),
    ensures
        r@ == chars@.subrange(from as int, to as int),
{
    let mut s = String::new();
    let mut i = from;
    while i < to
        invariant
            from <= i <= to <= chars@.len(),
            s@ == chars@.subrange(from as int, i as int),
        decreases to - i,
    {
        push_char(&mut s, chars[i]);
        assert(chars@.subrange(from as int, i + 1) =~= chars@.subrange(from as int, i as int).push(chars@[i as int]));
        i = i + 1;
    }
    s
}

/// Whether `prefix` is a prefix of `s`.
pub open spec fn has_prefix(s: Seq<char>, prefix: Seq<char>) -> bool {
    prefix.len() <= s.len() && s.subrange(0, prefix.len() as int) == prefix
}

/// Whether `chars` begins with the characters of `prefix`.
pub fn chars_start_with(chars: &Vec<char>, prefix: &str) -> (r: bool)
    ensures
        r == has_prefix(chars@, prefix@),
{
    let p = to_chars(prefix);
    if p.len() > chars.len() {
        return false;
    }
    let n = p.len();
    for i in 0..n
        invariant
            n == p@.len(),
            n <= chars@.len(),
            p@ == prefix@,
            forall|j: int| 0 <= j < i ==> chars@[j] == p@[j],
    {
        if chars[i] != p[i] {
            assert(chars@.subrange(0, n as int)[i as int] != prefix@[i as int]);
            return false;
        }
    }
    assert(chars@.subrange(0, n as int) =~= prefix@);
    true
}


/// Why text is not an unsigned integer.
#[derive(Debug, Clone, Copy, PartialEq, Eq, Structural)]
pub enum IntParseFailure {
    /// The text is empty.
    Empty,
    /// A character is not a decimal digit (or there is only a sign).
    InvalidDigit,
    /// The value does not fit in the target type.
    PosOverflow,
}

/// Whether `c` is a decimal digit.
pub open spec fn is_digit(c: char) -> bool {
    '0' <= c <= '9'
}

/// The value of the decimal digit `c`.
pub open spec fn digit_value(c: char) -> nat {
    (c as int - 48) as nat
}

/// Reads `s` as decimal digits from left to right into a number of at most
/// `max`: the first character that is not a digit fails the read, and so does
/// the first digit that makes the value exceed `max`.
pub open spec fn read_digits(s: Seq<char>, max: nat) -> Result<nat, IntParseFailure>
    decreases s.len(),
{
    if s.len() == 0 {
        Ok(0)
    } else {
        match read_digits(s.drop_last(), max) {
            Err(e) => Err(e),
            Ok(v) => if !is_digit(s.last()) {
                Err(IntParseFailure::InvalidDigit)
            } else if v * 10 + digit_value(s.last()) > max {
                Err(IntParseFailure::PosOverflow)
            } else {
                Ok(v * 10 + digit_value(s.last()))
            },
        }
    }
}

/// How an unsigned integer of at most `max` is read from text: an optional
/// `+` sign, then at least one decimal digit.
pub open spec fn parse_unsigned(s: Seq<char>, max: nat) -> Result<nat, IntParseFailure> {
    if s.len() == 0 {
        Err(IntParseFailure::Empty)
    } else {
        let body = if s[0] == '+' { s.drop_first() } else { s };
        if body.len() == 0 {
            Err(IntParseFailure::InvalidDigit)
        } else {
            read_digits(body, max)
        }
    }
}

/// The message that describes a failure to read an integer.
pub open spec fn int_failure_message(e: IntParseFailure) -> Seq<char> {
    match e {
        IntParseFailure::Empty => "cannot parse integer from empty string"@,
        IntParseFailure::InvalidDigit => "invalid digit found in string"@,
        IntParseFailure::PosOverflow => "number too large to fit in target type"@,
    }
}

impl IntParseFailure {
    /// The message that describes the failure.
    pub fn message(&self) -> (r: String)
        ensures
            r@ == int_failure_message(*self),
    {
        match self {
            IntParseFailure::Empty => String::from_str("cannot parse integer from empty string"),
            IntParseFailure::InvalidDigit => String::from_str("invalid digit found in string"),
            IntParseFailure::PosOverflow => String::from_str("number too large to fit in target type"),
        }
    }
}

/// Reads `chars[from..]` as an unsigned `usize`, as `str::parse` does.
pub fn parse_usize_chars(chars: &Vec<char>, from: usize) -> (r: Result<usize, IntParseFailure>)
    requires
        from <= chars@.len(),
    ensures
        match r {
            Ok(v) => parse_unsigned(chars@.skip(from as int), usize::MAX as nat) == Ok::<nat, IntParseFailure>(v as nat),
            Err(e) => parse_unsigned(chars@.skip(from as int), usize::MAX as nat) == Err::<nat, IntParseFailure>(e),
        },
{
    let ghost s = chars@.skip(from as int);
    let n = chars.len();
    if from == n {
        return Err(IntParseFailure::Empty);
    }
    let start = if chars[from] == '+' { from + 1 } else { from };
    let ghost body = chars@.skip(start as int);
    assert(body =~= (if s[0] == '+' { s.drop_first() } else { s }));
    if start == n {
        return Err(IntParseFailure::InvalidDigit);
    }
    let mut value: usize = 0;
    let mut i = start;
    while i < n
        invariant
            start <= i <= n == chars@.len(),
            from <= start,
            s == chars@.skip(from as int),
            s.len() > 0,
            body == (if s[0] == '+' { s.drop_first() } else { s }),
            body.len() > 0,
            body == chars@.skip(start as int),
            read_digits(chars@.subrange(start as int, i as int), usize::MAX as nat)
                == Ok::<nat, IntParseFailure>(value as nat),
        decreases n - i,
    {
        let c = chars[i];
        let ghost prefix = chars@.subrange(start as int, i + 1);
        assert(prefix.drop_last() =~= chars@.subrange(start as int, i as int));
        assert(prefix.last() == c);
        if !('0' <= c && c <= '9') {
            proof { lemma_read_digits_err_extends(chars@, start as int, i + 1, IntParseFailure::InvalidDigit); }
            return Err(IntParseFailure::InvalidDigit);
        }
        let d = ((c as u32) - 48) as usize;
        if value > (usize::MAX - d) / 10 {
            assert(value * 10 + d > usize::MAX) by (nonlinear_arith)
                requires value > (usize::MAX - d) / 10, d <= 9;
            proof { lemma_read_digits_err_extends(chars@, start as int, i + 1, IntParseFailure::PosOverflow); }
            return Err(IntParseFailure::PosOverflow);
        }
        assert(value * 10 + d <= usize::MAX) by (nonlinear_arith)
            requires value <= (usize::MAX - d) / 10, d <= 9;
        value = value * 10 + d;
        i = i + 1;
    }
    assert(chars@.subrange(start as int, n as int) =~= body);
    Ok(value)
}

/// Once reading a prefix fails, reading any longer text fails the same way.
proof fn lemma_read_digits_err_extends(chars: Seq<char>, start: int, i: int, e: IntParseFailure)
    requires
        0 <= start <= i <= chars.len(),
        read_digits(chars.subrange(start, i), usize::MAX as nat) == Err::<nat, IntParseFailure>(e),
    ensures
        read_digits(chars.skip(start), usize::MAX as nat) == Err::<nat, IntParseFailure>(e),
    decreases chars.len() - i,
{
    if i < chars.len() {
        assert(chars.subrange(start, i + 1).drop_last() =~= chars.subrange(start, i));
        lemma_read_digits_err_extends(chars, start, i + 1, e);
    } else {
        assert(chars.subrange(start, i) =~= chars.skip(start));
    }
}

/// A digit character is a digit and has the digit's value.
proof fn lemma_digit_char(d: nat)
    requires
        d < 10,
    ensures
        is_digit(digit_char(d)),
        digit_value(digit_char(d)) == d,
{
    let c = digit_char(d);
    assert(c as int == d + 48);
}

/// Reading back the decimal rendering of a number gives the number.
pub proof fn law_read_digits_of_rendering(n: nat, max: nat)
    requires
        n <= max,
    ensures
        read_digits(dec_digits(n), max) == Ok::<nat, IntParseFailure>(n),
        dec_digits(n).len() > 0,
        is_digit(dec_digits(n)[0]),
    decreases n,
{
    lemma_digit_char(n % 10);
    if n >= 10 {
        law_read_digits_of_rendering(n / 10, max);
        assert(dec_digits(n).drop_last() =~= dec_digits(n / 10));
        assert(dec_digits(n)[0] == dec_digits(n / 10)[0]);
        assert((n / 10) * 10 + n % 10 == n);
        assert(dec_digits(n).last() == digit_char(n % 10));
    } else {
        assert(dec_digits(n).drop_last() =~= Seq::<char>::empty());
        assert(read_digits(Seq::<char>::empty(), max) == Ok::<nat, IntParseFailure>(0));
    }
}


/// `pat` occurs in `s` starting at position `i`.
pub open spec fn occurs_at(s: Seq<char>, pat: Seq<char>, i: int) -> bool {
    0 <= i && i + pat.len() <= s.len() && s.subrange(i, i + pat.len()) == pat
}

/// `pat` occurs somewhere in `s`.
pub open spec fn contains_text(s: Seq<char>, pat: Seq<char>) -> bool {
    exists|i: int| occurs_at(s, pat, i)
}

/// `k` is the position of the first `c` in `s`.
pub open spec fn first_index(s: Seq<char>, c: char, k: int) -> bool {
    0 <= k < s.len() && s[k] == c && forall|j: int| 0 <= j < k ==> s[j] != c
}

/// Whether `pat` occurs in `chars[from..to]`.
pub fn range_contains(chars: &Vec<char>, from: usize, to: usize, pat: &Vec<char>) -> (r: bool)
    requires
        from <= to <= chars@.len(),
    ensures
        r == contains_text(chars@.subrange(from as int, to as int), pat@),
{
    let ghost s = chars@.subrange(from as int, to as int);
    let m = pat.len();
    if m > to - from {
        assert forall|i: int| !occurs_at(s, pat@, i) by {}
        return false;
    }
    let last = to - m;
    let mut i = from;
    while i <= last
        invariant
            from <= i <= last + 1,
            last + m == to,
            to <= chars@.len(),
            m == pat@.len(),
            s == chars@.subrange(from as int, to as int),
            forall|k: int| 0 <= k < i - from ==> !occurs_at(s, pat@, k),
        decreases last + 1 - i,
    {
        let mut j: usize = 0;
        let mut same = true;
        while j < m
            invariant
                j <= m,
                i + m <= to <= chars@.len(),
                m == pat@.len(),
                same == (forall|t: int| 0 <= t < j ==> chars@[i + t] == pat@[t]),
            decreases m - j,
        {
            if chars[i + j] != pat[j] {
                same = false;
            }
            j = j + 1;
        }
        if same {
            assert(s.subrange(i - from, i - from + m) =~= pat@);
            assert(occurs_at(s, pat@, i - from));
            return true;
        }
        assert(!occurs_at(s, pat@, i - from)) by {
            let t = choose|t: int| 0 <= t < m && chars@[i + t] != pat@[t];
            assert(s.subrange(i - from, i - from + m)[t] == chars@[i + t]);
        }
        i = i + 1;
    }
    assert forall|k: int| !occurs_at(s, pat@, k) by {
        if 0 <= k && k + m <= s.len() {
            assert(k < i - from);
        }
    }
    false
}

/// The position of the first `c` in `chars[from..to]`, if any.
pub fn range_find_char(chars: &Vec<char>, from: usize, to: usize, c: char) -> (r: Option<usize>)
    requires
        from <= to <= chars@.len(),
    ensures
        match r {
            Some(k) => from <= k < to && first_index(
                chars@.subrange(from as int, to as int),
                c,
                k - from,
            ),
            None => forall|j: int| from <= j < to ==> chars@[j] != c,
        },
{
    let mut i = from;
    while i < to
        invariant
            from <= i <= to <= chars@.len(),
            forall|j: int| from <= j < i ==> chars@[j] != c,
        decreases to - i,
    {
        if chars[i] == c {
            return Some(i);
        }
        i = i + 1;
    }
    None
}

/// The text is the same `s` with one `\r` dropped from its end, if it ends so.
pub open spec fn without_cr(s: Seq<char>) -> Seq<char> {
    if s.len() > 0 && s.last() == '\r' {
        s.drop_last()
    } else {
        s
    }
}

/// A name for the lower-case form of text, as `str::to_lowercase` gives it
/// (full Unicode case mapping).
pub uninterp spec fn lowercased(s: Seq<char>) -> Seq<char>;

/// `str::to_lowercase`: the lower-case form of `s`. The contract claims
/// only that the result is a function of the characters of `s`.
#[verifier::external_body]
pub(crate) fn to_lowercase(s: &str) -> (r: String)
    ensures
        r@ == lowercased(s@),
{
    s.to_lowercase()
}

}
