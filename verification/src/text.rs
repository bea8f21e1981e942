//! Character-level helpers shared by the parsers and the message builders.
use vstd::prelude::*;
use vstd::std_specs::iter::IteratorSpec;

verus! {

/// Whether `c` is one of the ten ASCII digits.
pub open spec fn is_digit(c: char) -> bool {
    '0' <= c && c <= '9'
}

/// The number that the ASCII digit `c` stands for.
pub open spec fn digit_value(c: char) -> nat {
    (c as int - '0' as int) as nat
}

/// The ASCII digit for `d`, where `d < 10`.
pub open spec fn digit_char(d: nat) -> char {
    ('0' as u8 + d) as char
}

/// The number written by a run of ASCII digits, most significant first.
/// The empty run stands for zero.
pub open spec fn digits_value(s: Seq<char>) -> nat
    decreases s.len(),
{
    if s.len() == 0 {
        0
    } else {
        digits_value(s.drop_last()) * 10 + digit_value(s.last())
    }
}

/// The decimal numeral of `n`, without sign or leading zeros.
pub open spec fn decimal_digits(n: nat) -> Seq<char>
    decreases n,
{
    if n < 10 {
        seq![digit_char(n)]
    } else {
        decimal_digits(n / 10).push(digit_char(n % 10))
    }
}

/// The decimal numeral of a signed number: a minus sign before the
/// numeral of its magnitude when it is negative.
pub open spec fn signed_digits(n: int) -> Seq<char> {
    if n < 0 {
        seq!['-'] + decimal_digits((-n) as nat)
    } else {
        decimal_digits(n as nat)
    }
}

/// `count` copies of `c`.
pub open spec fn repeated(c: char, count: nat) -> Seq<char> {
    Seq::new(count, |i: int| c)
}

/// One more digit multiplies the value by ten and adds the digit.
pub proof fn lemma_digits_value_push(s: Seq<char>, c: char)
    ensures
        digits_value(s.push(c)) == digits_value(s) * 10 + digit_value(c),
        digits_value(s.push(c)) >= digits_value(s),
{
    assert(s.push(c).drop_last() == s);
    assert(s.push(c).last() == c);
}

/// The numeral of a number is made of digits, at least one, and stands
/// for that number.
pub proof fn lemma_decimal_digits(n: nat)
    ensures
        decimal_digits(n).len() >= 1,
        forall|i: int|
            0 <= i < decimal_digits(n).len() ==> is_digit(#[trigger] decimal_digits(n)[i]),
        digits_value(decimal_digits(n)) == n,
    decreases n,
{
    if n < 10 {
        lemma_digits_value_push(Seq::empty(), digit_char(n));
        assert(Seq::<char>::empty().push(digit_char(n)) == seq![digit_char(n)]);
    } else {
        lemma_decimal_digits(n / 10);
        lemma_digits_value_push(decimal_digits(n / 10), digit_char(n % 10));
    }
}

/// Where the longest run of ASCII digits that starts at `from` ends.
pub open spec fn digit_run_end(s: Seq<char>, from: int) -> int
    decreases s.len() - from,
{
    if 0 <= from < s.len() && is_digit(s[from]) {
        digit_run_end(s, from + 1)
    } else {
        from
    }
}

/// `Some(n)` when `n` fits in 128 bits, `None` otherwise.
pub open spec fn fitting(n: nat) -> Option<u128> {
    if n <= u128::MAX {
        Some(n as u128)
    } else {
        None
    }
}

/// The number that an unsigned numeral stands for: an optional plus sign
/// and one or more digits, nothing else.
pub open spec fn unsigned_reading(s: Seq<char>) -> Option<nat> {
    let start: int = if s.len() > 0 && s[0] == '+' {
        1
    } else {
        0
    };
    let end = digit_run_end(s, start);
    if end == s.len() && end > start {
        Some(digits_value(s.subrange(start, end)))
    } else {
        None
    }
}

/// The number of at most `max` that an unsigned numeral stands for.
pub open spec fn bounded_reading(s: Seq<char>, max: nat) -> Option<nat> {
    match unsigned_reading(s) {
        Some(n) => if n <= max {
            Some(n)
        } else {
            None
        },
        None => None,
    }
}

/// The parts with `separator` between each two.
pub open spec fn joined_by(separator: char, parts: Seq<Seq<char>>) -> Seq<char>
    decreases parts.len(),
{
    if parts.len() == 0 {
        Seq::empty()
    } else if parts.len() == 1 {
        parts[0]
    } else {
        joined_by(separator, parts.drop_last()) + seq![separator] + parts.last()
    }
}

/// Joining one more part puts the separator before it, unless it is the
/// first.
pub proof fn lemma_joined_push(separator: char, parts: Seq<Seq<char>>, part: Seq<char>)
    ensures
        joined_by(separator, parts.push(part)) == (if parts.len() == 0 {
            part
        } else {
            joined_by(separator, parts) + seq![separator] + part
        }),
{
    assert(parts.push(part).drop_last() == parts);
    assert(parts.push(part).last() == part);
}

/// The view of an optional text.
pub open spec fn optional_text(text: Option<String>) -> Option<Seq<char>> {
    match text {
        Some(t) => Some(t@),
        None => None,
    }
}

/// Whether `needle` occurs in `hay` at position `at`.
pub open spec fn occurs_at(hay: Seq<char>, needle: Seq<char>, at: int) -> bool {
    0 <= at && at + needle.len() <= hay.len() && hay.subrange(at, at + needle.len()) == needle
}

/// Whether `needle` occurs somewhere in `hay`.
pub open spec fn occurs_in(hay: Seq<char>, needle: Seq<char>) -> bool {
    exists|at: int| occurs_at(hay, needle, at)
}

/// The characters of `s`, in order.
pub fn chars_of(s: &str) -> (out: Vec<char>)
    ensures
        out@ == s@,
{
    let mut out: Vec<char> = Vec::new();
    for c in it: s.chars()
        invariant
            it.seq() == s@,
            out@ == s@.take(it.index() as int),
    {
        out.push(c);
    }
    out
}

/// `String::push` of the standard library: the string grows by exactly
/// the one character given.
#[verifier::external_body]
fn push_char(s: &mut String, c: char)
    ensures
        final(s)@ == old(s)@.push(c),
{
    s.push(c);
}

/// The string that holds exactly `chars`.
pub fn string_of(chars: &Vec<char>) -> (out: String)
    ensures
        out@ == chars@,
{
    let mut out = String::new();
    let mut i: usize = 0;
    while i < chars.len()
        invariant
            i <= chars.len(),
            out@ == chars@.take(i as int),
        decreases chars.len() - i,
    {
        push_char(&mut out, chars[i]);
        i += 1;
    }
    out
}

/// Appends the characters of `piece` to `out`.
pub fn append_str(out: &mut Vec<char>, piece: &str)
    ensures
        final(out)@ == old(out)@ + piece@,
{
    let ghost before = out@;
    for c in it: piece.chars()
        invariant
            it.seq() == piece@,
            out@ == before + piece@.take(it.index() as int),
    {
        out.push(c);
    }
}

/// Appends the decimal numeral of `n` to `out`.
pub fn append_decimal(out: &mut Vec<char>, n: u128)
    ensures
        final(out)@ == old(out)@ + decimal_digits(n as nat),
    decreases n,
{
    if n >= 10 {
        append_decimal(out, n / 10);
    }
    let d: u8 = (n % 10) as u8;
    out.push((48u8 + d) as char);
}

/// Appends the decimal numeral of a signed number to `out`.
pub fn append_signed(out: &mut Vec<char>, n: i64)
    ensures
        final(out)@ == old(out)@ + signed_digits(n as int),
{
    if n < 0 {
        let ghost before = out@;
        out.push('-');
        append_decimal(out, (-(n as i128)) as u128);
        proof {
            assert(before.push('-') + decimal_digits((-n) as nat) == before + (seq!['-']
                + decimal_digits((-n) as nat)));
        }
    } else {
        append_decimal(out, n as u128);
    }
}

/// Reads the digit run of `chars` that starts at `from`, continuing a
/// number whose earlier digits are `prefix` and whose value so far is
/// `start`.
pub(crate) fn scan_digits(chars: &Vec<char>, from: usize, start: Option<u128>, Ghost(prefix): Ghost<
    Seq<char>,
>) -> (r: (usize, Option<u128>))
    requires
        from <= chars.len(),
        start == fitting(digits_value(prefix)),
    ensures
        r.0 == digit_run_end(chars@, from as int),
        from <= r.0 <= chars.len(),
        r.1 == fitting(digits_value(prefix + chars@.subrange(from as int, r.0 as int))),
{
    let mut i: usize = from;
    let mut acc: Option<u128> = start;
    proof {
        assert(prefix + chars@.subrange(from as int, from as int) == prefix);
    }
    while i < chars.len() && chars[i] >= '0' && chars[i] <= '9'
        invariant
            from <= i <= chars.len(),
            digit_run_end(chars@, from as int) == digit_run_end(chars@, i as int),
            acc == fitting(digits_value(prefix + chars@.subrange(from as int, i as int))),
        decreases chars.len() - i,
    {
        let c = chars[i];
        let d: u128 = (c as u32 - 48) as u128;
        proof {
            let before = prefix + chars@.subrange(from as int, i as int);
            assert(prefix + chars@.subrange(from as int, i + 1) == before.push(c));
            lemma_digits_value_push(before, c);
        }
        acc = match acc {
            Some(v) => match v.checked_mul(10) {
                Some(w) => w.checked_add(d),
                None => None,
            },
            None => None,
        };
        i += 1;
    }
    (i, acc)
}

/// Reads an unsigned numeral of at most `max` that fills `chars`.
pub fn read_bounded_chars(chars: &Vec<char>, max: u64) -> (r: Option<u64>)
    ensures
        match r {
            Some(n) => bounded_reading(chars@, max as nat) == Some(n as nat),
            None => bounded_reading(chars@, max as nat) is None,
        },
{
    let start: usize = if chars.len() > 0 && chars[0] == '+' {
        1
    } else {
        0
    };
    let (end, value) = scan_digits(chars, start, Some(0), Ghost(Seq::empty()));
    proof {
        assert(Seq::<char>::empty() + chars@.subrange(start as int, end as int)
            == chars@.subrange(start as int, end as int));
    }
    if end != chars.len() || end <= start {
        return None;
    }
    match value {
        Some(v) => {
            if v <= max as u128 {
                Some(v as u64)
            } else {
                None
            }
        },
        None => None,
    }
}

/// Reads an unsigned numeral of at most `max`.
pub fn read_bounded(text: &str, max: u64) -> (r: Option<u64>)
    ensures
        match r {
            Some(n) => bounded_reading(text@, max as nat) == Some(n as nat),
            None => bounded_reading(text@, max as nat) is None,
        },
{
    let chars = chars_of(text);
    read_bounded_chars(&chars, max)
}

/// The characters of `chars` from `from` up to `to`.
pub fn slice_of(chars: &Vec<char>, from: usize, to: usize) -> (out: Vec<char>)
    requires
        from <= to <= chars.len(),
    ensures
        out@ == chars@.subrange(from as int, to as int),
{
    let mut out: Vec<char> = Vec::new();
    let mut i: usize = from;
    while i < to
        invariant
            from <= i <= to <= chars.len(),
            out@ == chars@.subrange(from as int, i as int),
        decreases to - i,
    {
        out.push(chars[i]);
        proof {
            assert(chars@.subrange(from as int, i + 1) == chars@.subrange(
                from as int,
                i as int,
            ).push(chars@[i as int]));
        }
        i += 1;
    }
    out
}

/// Whether two texts hold the same characters.
pub fn same_text(a: &str, b: &str) -> (same: bool)
    ensures
        same == (a@ == b@),
{
    let x = chars_of(a);
    let y = chars_of(b);
    if x.len() != y.len() {
        return false;
    }
    let mut i: usize = 0;
    while i < x.len()
        invariant
            i <= x.len(),
            x.len() == y.len(),
            x@ == a@,
            y@ == b@,
            x@.take(i as int) == y@.take(i as int),
        decreases x.len() - i,
    {
        if x[i] != y[i] {
            assert(x@[i as int] != y@[i as int]);
            return false;
        }
        proof {
            assert(x@.take(i + 1) == x@.take(i as int).push(x@[i as int]));
            assert(y@.take(i + 1) == y@.take(i as int).push(y@[i as int]));
        }
        i += 1;
    }
    proof {
        assert(x@.take(x.len() as int) == x@);
        assert(y@.take(y.len() as int) == y@);
    }
    true
}

/// Whether `needle` occurs somewhere in `hay`.
pub fn contains_text(hay: &str, needle: &str) -> (found: bool)
    ensures
        found == occurs_in(hay@, needle@),
{
    let h = chars_of(hay);
    let n = chars_of(needle);
    if n.len() > h.len() {
        assert(forall|at: int| !occurs_at(h@, n@, at));
        return false;
    }
    let last: usize = h.len() - n.len();
    let mut at: usize = 0;
    while at <= last
        invariant
            at <= last + 1,
            last == h.len() - n.len(),
            n.len() <= h.len(),
            h@ == hay@,
            n@ == needle@,
            forall|earlier: int| 0 <= earlier < at ==> !occurs_at(h@, n@, earlier),
        decreases last + 1 - at,
    {
        let mut k: usize = 0;
        while k < n.len() && h[at + k] == n[k]
            invariant
                k <= n.len(),
                at + n.len() <= h.len(),
                h@.subrange(at as int, at + k) == n@.take(k as int),
            decreases n.len() - k,
        {
            proof {
                assert(h@.subrange(at as int, at + k + 1) == h@.subrange(at as int, at + k).push(
                    h@[at + k],
                ));
                assert(n@.take(k + 1) == n@.take(k as int).push(n@[k as int]));
            }
            k += 1;
        }
        if k == n.len() {
            proof {
                assert(n@.take(k as int) == n@);
                assert(h@.subrange(at as int, at + n.len()) == n@);
                assert(occurs_at(h@, n@, at as int));
            }
            return true;
        }
        proof {
            assert(!occurs_at(h@, n@, at as int)) by {
                if occurs_at(h@, n@, at as int) {
                    assert(h@.subrange(at as int, at + n.len())[k as int] == n@[k as int]);
                }
            }
        }
        at += 1;
    }
    assert(forall|p: int| !occurs_at(h@, n@, p));
    false
}

} // verus!
