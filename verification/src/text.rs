//! Verified text handling: prefixes, searches and decimal numbers.

use vstd::prelude::*;
use vstd::string::*;

verus! {

/// Whether `pattern` stands in `s` at position `at`.
pub open spec fn occurs_at(s: Seq<char>, pattern: Seq<char>, at: int) -> bool {
    0 <= at && at + pattern.len() <= s.len() && s.subrange(at, at + pattern.len()) == pattern
}

/// Whether `at` is the first place where `pattern` stands in `s`.
pub open spec fn first_occurrence(s: Seq<char>, pattern: Seq<char>, at: int) -> bool {
    occurs_at(s, pattern, at) && forall|j: int| 0 <= j < at ==> !#[trigger] occurs_at(s, pattern, j)
}

pub open spec fn occurs(s: Seq<char>, pattern: Seq<char>) -> bool {
    exists|at: int| #[trigger] occurs_at(s, pattern, at)
}

pub open spec fn begins_with(s: Seq<char>, pattern: Seq<char>) -> bool {
    occurs_at(s, pattern, 0)
}

pub open spec fn finishes_with(s: Seq<char>, pattern: Seq<char>) -> bool {
    occurs_at(s, pattern, s.len() - pattern.len())
}

pub open spec fn is_digit(c: char) -> bool {
    '0' <= c && c <= '9'
}

pub open spec fn all_digits(s: Seq<char>) -> bool {
    forall|i: int| 0 <= i < s.len() ==> is_digit(#[trigger] s[i])
}

/// The number that a run of decimal digits denotes.
pub open spec fn decimal_value(s: Seq<char>) -> int
    decreases s.len(),
{
    if s.len() == 0 {
        0
    } else {
        decimal_value(s.drop_last()) * 10 + (s.last() as int - '0' as int)
    }
}

/// The magnitude that `s` denotes if it is a nonempty run of digits of at most `max`.
pub open spec fn magnitude(s: Seq<char>, max: int) -> Option<int> {
    if s.len() > 0 && all_digits(s) && decimal_value(s) <= max {
        Some(decimal_value(s))
    } else {
        None
    }
}

/// An unsigned decimal number of at most `max`, with an optional plus sign.
pub open spec fn unsigned_number(s: Seq<char>, max: int) -> Option<int> {
    if s.len() > 0 && s[0] == '+' {
        magnitude(s.skip(1), max)
    } else {
        magnitude(s, max)
    }
}

/// A decimal number in `i32`, with an optional sign.
pub open spec fn signed_number(s: Seq<char>) -> Option<int> {
    if s.len() > 0 && s[0] == '-' {
        match magnitude(s.skip(1), 0x8000_0000) {
            Some(m) => Some(-m),
            None => None,
        }
    } else {
        unsigned_number(s, i32::MAX as int)
    }
}

/// The decimal digits of a number.
pub open spec fn decimal(n: nat) -> Seq<char>
    decreases n,
{
    if n < 10 {
        seq![digit_char(n)]
    } else {
        decimal(n / 10).push(digit_char(n % 10))
    }
}

pub open spec fn digit_char(d: nat) -> char {
    (('0' as int) + d) as char
}

/// The decimal digits of a number, after a minus sign if it is negative.
pub open spec fn signed_decimal(n: int) -> Seq<char> {
    if n < 0 {
        seq!['-'] + decimal((-n) as nat)
    } else {
        decimal(n as nat)
    }
}

/// The characters of a string.
pub fn chars_of(s: &str) -> (r: Vec<char>)
    ensures
        r@ == s@,
{
    let n: usize = s.unicode_len();
    let mut r: Vec<char> = Vec::new();
    let mut i: usize = 0;
    while i < n
        invariant
            i <= n,
            n == s@.len(),
            r@ == s@.take(i as int),
        decreases n - i,
    {
        r.push(s.get_char(i));
        assert(r@ =~= s@.take(i + 1));
        i += 1;
    }
    assert(s@.take(n as int) =~= s@);
    r
}

/// Whether two strings hold the same characters.
pub fn text_eq(a: &str, b: &str) -> (r: bool)
    ensures
        r == (a@ == b@),
{
    let x: Vec<char> = chars_of(a);
    let y: Vec<char> = chars_of(b);
    if x.len() != y.len() {
        return false;
    }
    let r = matches_at(&x, &y, 0);
    assert(x@.subrange(0, y@.len() as int) =~= x@);
    r
}

/// Whether `pattern` stands in `s` at position `at`.
pub fn matches_at(s: &Vec<char>, pattern: &Vec<char>, at: usize) -> (r: bool)
    ensures
        r == occurs_at(s@, pattern@, at as int),
{
    if at > s.len() || s.len() - at < pattern.len() {
        return false;
    }
    let n: usize = s.len();
    let mut i: usize = 0;
    while i < pattern.len()
        invariant
            i <= pattern@.len(),
            n == s@.len(),
            at + pattern@.len() <= n,
            forall|j: int| 0 <= j < i ==> #[trigger] pattern@[j] == s@[at + j],
        decreases pattern@.len() - i,
    {
        if s[at + i] != pattern[i] {
            assert(s@.subrange(at as int, at + pattern@.len())[i as int] != pattern@[i as int]);
            return false;
        }
        i += 1;
    }
    assert(s@.subrange(at as int, at + pattern@.len()) =~= pattern@);
    true
}

/// The first place at which `pattern` stands in `s`.
pub fn find(s: &Vec<char>, pattern: &Vec<char>) -> (r: Option<usize>)
    ensures
        match r {
            Some(at) => first_occurrence(s@, pattern@, at as int),
            None => !occurs(s@, pattern@),
        },
{
    if pattern.len() > s.len() {
        return None;
    }
    let last: usize = s.len() - pattern.len();
    let mut at: usize = 0;
    while at <= last
        invariant
            at <= last + 1,
            last + pattern@.len() == s@.len(),
            forall|j: int| 0 <= j < at ==> !#[trigger] occurs_at(s@, pattern@, j),
        decreases last + 1 - at,
    {
        if matches_at(s, pattern, at) {
            return Some(at);
        }
        if at == last {
            return None;
        }
        at += 1;
    }
    None
}

/// The lower-case form of an ASCII letter; any other character as it is.
pub open spec fn ascii_lower(c: char) -> char {
    if 'A' <= c && c <= 'Z' {
        ((c as int) + 32) as char
    } else {
        c
    }
}

pub open spec fn ascii_lower_seq(s: Seq<char>) -> Seq<char> {
    s.map_values(|c: char| ascii_lower(c))
}

/// The characters of `s` with ASCII letters in lower case.
pub fn lower_chars(s: &str) -> (r: Vec<char>)
    ensures
        r@ == ascii_lower_seq(s@),
{
    let x: Vec<char> = chars_of(s);
    let mut r: Vec<char> = Vec::new();
    let mut i: usize = 0;
    while i < x.len()
        invariant
            i <= x@.len(),
            x@ == s@,
            r@ == ascii_lower_seq(s@).take(i as int),
        decreases x@.len() - i,
    {
        let c: char = x[i];
        let l: char = if 'A' <= c && c <= 'Z' {
            (c as u8 + 32) as char
        } else {
            c
        };
        r.push(l);
        assert(r@ =~= ascii_lower_seq(s@).take(i + 1));
        i += 1;
    }
    assert(ascii_lower_seq(s@).take(x@.len() as int) =~= ascii_lower_seq(s@));
    r
}

/// Whether `s` contains `pattern`.
pub fn contains(s: &Vec<char>, pattern: &str) -> (r: bool)
    ensures
        r == occurs(s@, pattern@),
{
    let p: Vec<char> = chars_of(pattern);
    let r = find(s, &p);
    r.is_some()
}

/// Whether `s` ends with `pattern`.
pub fn ends_with(s: &Vec<char>, pattern: &str) -> (r: bool)
    ensures
        r == finishes_with(s@, pattern@),
{
    let p: Vec<char> = chars_of(pattern);
    if p.len() > s.len() {
        return false;
    }
    matches_at(s, &p, s.len() - p.len())
}

/// Whether `s` starts with `pattern`.
pub fn starts_with(s: &Vec<char>, pattern: &str) -> (r: bool)
    ensures
        r == begins_with(s@, pattern@),
{
    let p: Vec<char> = chars_of(pattern);
    matches_at(s, &p, 0)
}

proof fn lemma_decimal_prefix(s: Seq<char>, i: int)
    requires
        all_digits(s),
        0 <= i <= s.len(),
    ensures
        0 <= decimal_value(s.take(i)) <= decimal_value(s),
    decreases s.len() - i, i,
{
    if i == s.len() {
        assert(s.take(i) =~= s);
        if i > 0 {
            assert(all_digits(s.drop_last()));
            lemma_decimal_prefix(s.drop_last(), i - 1);
            assert(s.drop_last().take(i - 1) =~= s.drop_last());
            assert(is_digit(s[i - 1]));
        }
    } else {
        lemma_decimal_prefix(s, i + 1);
        let t = s.take(i + 1);
        assert(t.drop_last() =~= s.take(i));
        assert(is_digit(s[i]));
        assert(t.last() == s[i]);
        lemma_decimal_nonneg(s.take(i));
    }
}

proof fn lemma_decimal_nonneg(s: Seq<char>)
    requires
        all_digits(s),
    ensures
        0 <= decimal_value(s),
    decreases s.len(),
{
    if s.len() > 0 {
        assert(is_digit(s[s.len() - 1]));
        lemma_decimal_nonneg(s.drop_last());
    }
}

fn parse_magnitude(s: &Vec<char>, from: usize, to: usize, max: u64) -> (r: Option<u64>)
    requires
        from <= to <= s@.len(),
        max <= 0xffff_ffff,
    ensures
        match r {
            Some(v) => magnitude(s@.subrange(from as int, to as int), max as int) == Some(v as int),
            None => magnitude(s@.subrange(from as int, to as int), max as int) is None,
        },
{
    let ghost t = s@.subrange(from as int, to as int);
    if from == to {
        return None;
    }
    let mut value: u64 = 0;
    let mut i: usize = from;
    while i < to
        invariant
            from <= i <= to <= s@.len(),
            max <= 0xffff_ffff,
            t == s@.subrange(from as int, to as int),
            all_digits(t.take(i - from)),
            value == decimal_value(t.take(i - from)),
            value <= max,
        decreases to - i,
    {
        let c: char = s[i];
        if c < '0' || c > '9' {
            proof {
                assert(t[i - from] == c);
                assert(!is_digit(t[i - from]));
            }
            return None;
        }
        let d: u64 = c as u64 - '0' as u64;
        value = value * 10 + d;
        proof {
            let next = t.take(i + 1 - from);
            assert(next.drop_last() =~= t.take(i - from));
            assert(next.last() == c);
            assert forall|k: int| 0 <= k < next.len() implies is_digit(#[trigger] next[k]) by {
                if k < i - from {
                    assert(t.take(i - from)[k] == next[k]);
                }
            }
        }
        i += 1;
        if value > max {
            proof {
                if all_digits(t) {
                    lemma_decimal_prefix(t, i - from);
                }
            }
            return None;
        }
    }
    assert(t.take(to - from) =~= t);
    Some(value)
}

/// Reads an unsigned 32-bit number from `s[from..to]`.
pub fn parse_u32(s: &Vec<char>, from: usize, to: usize) -> (r: Option<u32>)
    requires
        from <= to <= s@.len(),
    ensures
        match r {
            Some(v) => unsigned_number(s@.subrange(from as int, to as int), u32::MAX as int) == Some(
                v as int,
            ),
            None => unsigned_number(s@.subrange(from as int, to as int), u32::MAX as int) is None,
        },
{
    let ghost t = s@.subrange(from as int, to as int);
    let start: usize = if from < to && s[from] == '+' {
        from + 1
    } else {
        from
    };
    assert(start == from + 1 ==> t.skip(1) =~= s@.subrange(start as int, to as int));
    assert(from < to ==> t[0] == s@[from as int]);
    match parse_magnitude(s, start, to, u32::MAX as u64) {
        Some(v) => Some(v as u32),
        None => None,
    }
}

/// Reads a signed 32-bit number from `s[from..to]`.
pub fn parse_i32(s: &Vec<char>, from: usize, to: usize) -> (r: Option<i32>)
    requires
        from <= to <= s@.len(),
    ensures
        match r {
            Some(v) => signed_number(s@.subrange(from as int, to as int)) == Some(v as int),
            None => signed_number(s@.subrange(from as int, to as int)) is None,
        },
{
    let ghost t = s@.subrange(from as int, to as int);
    assert(from < to ==> t[0] == s@[from as int]);
    assert(from < to ==> t.skip(1) =~= s@.subrange(from + 1, to as int));
    if from < to && s[from] == '-' {
        match parse_magnitude(s, from + 1, to, 0x8000_0000) {
            Some(v) => {
                let n: i64 = 0 - (v as i64);
                Some(n as i32)
            },
            None => None,
        }
    } else {
        let start: usize = if from < to && s[from] == '+' {
            from + 1
        } else {
            from
        };
        match parse_magnitude(s, start, to, i32::MAX as u64) {
            Some(v) => Some(v as i32),
            None => None,
        }
    }
}

fn append_digit(out: &mut String, d: u32)
    requires
        d < 10,
    ensures
        final(out)@ == old(out)@.push(digit_char(d as nat)),
{
    proof {
        reveal_strlit("0");
        reveal_strlit("1");
        reveal_strlit("2");
        reveal_strlit("3");
        reveal_strlit("4");
        reveal_strlit("5");
        reveal_strlit("6");
        reveal_strlit("7");
        reveal_strlit("8");
        reveal_strlit("9");
    }
    let text: &str = match d {
        0 => "0",
        1 => "1",
        2 => "2",
        3 => "3",
        4 => "4",
        5 => "5",
        6 => "6",
        7 => "7",
        8 => "8",
        _ => "9",
    };
    assert(text@ =~= seq![digit_char(d as nat)]);
    out.append(text);
    assert(out@ =~= old(out)@.push(digit_char(d as nat)));
}

/// Writes a number in decimal.
pub fn append_u32(out: &mut String, n: u32)
    ensures
        final(out)@ == old(out)@ + decimal(n as nat),
    decreases n,
{
    if n >= 10 {
        append_u32(out, n / 10);
    }
    append_digit(out, n % 10);
    assert(out@ =~= old(out)@ + decimal(n as nat));
}

/// Writes a large number in decimal.
pub fn append_u64(out: &mut String, n: u64)
    ensures
        final(out)@ == old(out)@ + decimal(n as nat),
    decreases n,
{
    if n >= 10 {
        append_u64(out, n / 10);
    }
    append_digit(out, (n % 10) as u32);
    assert(out@ =~= old(out)@ + decimal(n as nat));
}

/// Writes a signed number in decimal.
pub fn append_i32(out: &mut String, n: i32)
    ensures
        final(out)@ == old(out)@ + signed_decimal(n as int),
{
    if n < 0 {
        proof {
            reveal_strlit("-");
        }
        out.append("-");
        let m: i64 = 0 - (n as i64);
        append_u32(out, m as u32);
        assert("-"@ =~= seq!['-']);
        assert(out@ =~= old(out)@ + signed_decimal(n as int));
    } else {
        append_u32(out, n as u32);
    }
}

/// Printed digits are digits and denote the number that was printed.
pub proof fn lemma_decimal_round_trip(n: nat)
    ensures
        decimal(n).len() > 0,
        all_digits(decimal(n)),
        decimal_value(decimal(n)) == n,
    decreases n,
{
    reveal_with_fuel(decimal_value, 2);
    if n < 10 {
        assert(decimal(n).drop_last() =~= Seq::<char>::empty());
    } else {
        lemma_decimal_round_trip(n / 10);
        assert(decimal(n).drop_last() =~= decimal(n / 10));
        assert(decimal(n).last() == digit_char(n % 10));
        assert forall|i: int| 0 <= i < decimal(n).len() implies is_digit(
            #[trigger] decimal(n)[i],
        ) by {
            if i < decimal(n / 10).len() {
                assert(decimal(n)[i] == decimal(n / 10)[i]);
            }
        }
    }
}

/// Whether a text comes before another in the order of their characters.
pub open spec fn text_before(a: Seq<char>, b: Seq<char>) -> bool
    decreases a.len(),
{
    if b.len() == 0 {
        false
    } else if a.len() == 0 {
        true
    } else if a[0] == b[0] {
        text_before(a.drop_first(), b.drop_first())
    } else {
        a[0] < b[0]
    }
}

/// The order of texts is a strict one.
pub proof fn lemma_text_order(a: Seq<char>, b: Seq<char>, c: Seq<char>)
    ensures
        !text_before(a, a),
        text_before(a, b) ==> !text_before(b, a),
        text_before(a, b) && text_before(b, c) ==> text_before(a, c),
        !text_before(a, b) && !text_before(b, c) ==> !text_before(a, c),
        !text_before(a, b) && !text_before(b, a) ==> a == b,
    decreases a.len(),
{
    if a.len() == 0 || b.len() == 0 {
        assert(!text_before(a, b) && !text_before(b, a) ==> a =~= b);
    }
    if a.len() > 0 {
        let a1 = a.drop_first();
        let b1 = if b.len() > 0 {
            b.drop_first()
        } else {
            b
        };
        let c1 = if c.len() > 0 {
            c.drop_first()
        } else {
            c
        };
        lemma_text_order(a1, b1, c1);
        if b.len() > 0 {
            assert(a =~= seq![a[0]] + a1);
            assert(b =~= seq![b[0]] + b1);
        }
    }
}

/// Whether a text comes before another.
pub fn comes_before(a: &Vec<char>, b: &Vec<char>) -> (r: bool)
    ensures
        r == text_before(a@, b@),
{
    let mut i: usize = 0;
    assert(a@.skip(0) =~= a@ && b@.skip(0) =~= b@);
    while i < a.len() && i < b.len()
        invariant
            i <= a@.len(),
            i <= b@.len(),
            text_before(a@, b@) == text_before(a@.skip(i as int), b@.skip(i as int)),
        decreases a@.len() - i,
    {
        proof {
            assert(a@.skip(i as int).drop_first() =~= a@.skip(i + 1));
            assert(b@.skip(i as int).drop_first() =~= b@.skip(i + 1));
        }
        if a[i] != b[i] {
            return a[i] < b[i];
        }
        i += 1;
    }
    i >= a.len() && i < b.len()
}

/// A text begins or ends with another if its first or last characters are
/// just those, and holds another that stands somewhere in it.
pub proof fn law_text_begins_and_ends(s: Seq<char>, pattern: Seq<char>, at: int)
    ensures
        begins_with(s, pattern) <==> pattern.len() <= s.len() && s.take(pattern.len() as int)
            == pattern,
        finishes_with(s, pattern) <==> pattern.len() <= s.len() && s.skip(
            s.len() - pattern.len(),
        ) == pattern,
        0 <= at <= s.len() - pattern.len() && s.subrange(at, at + pattern.len()) == pattern
            ==> occurs(s, pattern),
        occurs(s, pattern) ==> pattern.len() <= s.len(),
{
    if pattern.len() <= s.len() {
        assert(s.take(pattern.len() as int) =~= s.subrange(0, pattern.len() as int));
        assert(s.skip(s.len() - pattern.len()) =~= s.subrange(
            s.len() - pattern.len(),
            s.len() as int,
        ));
    }
    if 0 <= at <= s.len() - pattern.len() && s.subrange(at, at + pattern.len()) == pattern {
        assert(occurs_at(s, pattern, at));
    }
}

/// Lower case keeps the length, takes capitals to their small letters, leaves
/// every other character, and changes nothing the second time.
pub proof fn law_lower_case(s: Seq<char>, i: int)
    requires
        0 <= i < s.len(),
    ensures
        ascii_lower_seq(s).len() == s.len(),
        'A' <= s[i] && s[i] <= 'Z' ==> ascii_lower_seq(s)[i] as int == s[i] as int + 32,
        !('A' <= s[i] && s[i] <= 'Z') ==> ascii_lower_seq(s)[i] == s[i],
        ascii_lower_seq(ascii_lower_seq(s))[i] == ascii_lower_seq(s)[i],
{
}

/// A text comes before another if it is a part of its start, or has a lower
/// character where they first differ.
pub proof fn law_text_order(a: Seq<char>, b: Seq<char>, i: int)
    ensures
        0 <= i < a.len() && i < b.len() && a[i] != b[i] && a.take(i) == b.take(i) ==> (text_before(
            a,
            b,
        ) <==> a[i] < b[i]),
        a.len() < b.len() && b.take(a.len() as int) == a ==> text_before(a, b),
    decreases a.len(),
{
    if a.len() > 0 && b.len() > 0 {
        let x = a.drop_first();
        let y = b.drop_first();
        law_text_order(x, y, i - 1);
        if 0 < i < a.len() && i < b.len() && a.take(i) == b.take(i) {
            assert(a.take(i)[0] == b.take(i)[0]);
            assert(x.take(i - 1) =~= a.take(i).drop_first());
            assert(y.take(i - 1) =~= b.take(i).drop_first());
            assert(x[i - 1] == a[i] && y[i - 1] == b[i]);
        }
        if a.len() < b.len() && b.take(a.len() as int) == a {
            assert(b.take(a.len() as int)[0] == b[0]);
            assert(y.take(x.len() as int) =~= b.take(a.len() as int).drop_first());
        }
    }
}

} // verus!
