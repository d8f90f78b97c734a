//! Text handling for table lines: the characters of a string, the search for
//! a separator, and signed decimal numbers.
use vstd::prelude::*;

verus! {

/// Whether `sep` stands in `line` at position `at`.
pub open spec fn occurs_at(line: Seq<char>, sep: Seq<char>, at: int) -> bool {
    &&& 0 <= at
    &&& at + sep.len() <= line.len()
    &&& line.subrange(at, at + sep.len()) == sep
}

/// The first position at or after `from` at which `sep` stands in `line`.
pub open spec fn first_occurrence(line: Seq<char>, sep: Seq<char>, from: int) -> Option<int>
    decreases line.len() - from + 1,
{
    if from < 0 || from + sep.len() > line.len() {
        None
    } else if occurs_at(line, sep, from) {
        Some(from)
    } else {
        first_occurrence(line, sep, from + 1)
    }
}

/// The two fields of a line that holds the separator exactly once.
///
/// The line is cut at the first place where `sep` stands. A second
/// occurrence is looked for behind the first one (one character further on
/// where `sep` is empty); where there is one, the line has three fields or
/// more and the result is `None`, as it is for a line without any separator.
pub open spec fn two_fields(line: Seq<char>, sep: Seq<char>) -> Option<(Seq<char>, Seq<char>)> {
    match first_occurrence(line, sep, 0) {
        None => None,
        Some(at) => {
            let rest = at + sep.len();
            let resume = if sep.len() == 0 {
                at + 1
            } else {
                rest
            };
            if first_occurrence(line, sep, resume) is Some {
                None
            } else {
                Some((line.subrange(0, at), line.subrange(rest, line.len() as int)))
            }
        },
    }
}

/// Where a search finds the separator: at the first place at or after the
/// start at which it stands.
pub proof fn lemma_first_occurrence(line: Seq<char>, sep: Seq<char>, from: int)
    requires
        0 <= from,
    ensures
        first_occurrence(line, sep, from) matches Some(at) ==> from <= at && occurs_at(
            line,
            sep,
            at,
        ),
        forall|i: int|
            from <= i && (first_occurrence(line, sep, from) matches Some(at) ==> i < at)
                ==> !occurs_at(line, sep, i),
    decreases line.len() - from + 1,
{
    if from + sep.len() <= line.len() && !occurs_at(line, sep, from) {
        lemma_first_occurrence(line, sep, from + 1);
    }
}

/// The two fields of a line, with the separator between them, make up the
/// line, and the separator stands nowhere before the end of the first
/// field.
pub proof fn law_two_fields_make_up_the_line(line: Seq<char>, sep: Seq<char>)
    ensures
        two_fields(line, sep) matches Some(fields) ==> {
            &&& line == fields.0 + sep + fields.1
            &&& forall|i: int| 0 <= i < fields.0.len() ==> !occurs_at(line, sep, i)
        },
{
    if two_fields(line, sep) is Some {
        lemma_first_occurrence(line, sep, 0);
        let at = first_occurrence(line, sep, 0).unwrap();
    }
}

/// Whether `c` is one of the ten ASCII digits.
pub open spec fn is_digit(c: char) -> bool {
    '0' as u32 <= c as u32 <= '9' as u32
}

/// Whether `s` consists of ASCII digits only.
pub open spec fn all_digits(s: Seq<char>) -> bool {
    forall|i: int| 0 <= i < s.len() ==> is_digit(#[trigger] s[i])
}

/// The number that a sequence of digits writes in base ten; 0 for the empty
/// sequence.
pub open spec fn digits_value(s: Seq<char>) -> int
    decreases s.len(),
{
    if s.len() == 0 {
        0
    } else {
        digits_value(s.drop_last()) * 10 + (s.last() as u32 - '0' as u32)
    }
}

/// The signed 64-bit integer that `s` writes: an optional `+` or `-`, then
/// one digit or more, with a value in the range of `i64`.
pub open spec fn signed_decimal(s: Seq<char>) -> Option<int> {
    let signed = s.len() > 0 && (s[0] == '-' || s[0] == '+');
    let digits = if signed {
        s.subrange(1, s.len() as int)
    } else {
        s
    };
    let magnitude = digits_value(digits);
    let value = if s.len() > 0 && s[0] == '-' {
        -magnitude
    } else {
        magnitude
    };
    if digits.len() == 0 || !all_digits(digits) || value < i64::MIN || value > i64::MAX {
        None
    } else {
        Some(value)
    }
}

/// A number written in digits is no smaller than the number that any of its
/// beginnings writes.
pub proof fn lemma_digits_value_grows(s: Seq<char>, n: int)
    requires
        all_digits(s),
        0 <= n <= s.len(),
    ensures
        0 <= digits_value(s.subrange(0, n)) <= digits_value(s),
    decreases s.len() - n,
{
    if n == s.len() {
        assert(s.subrange(0, n) == s);
        lemma_digits_value_nonnegative(s);
    } else {
        lemma_digits_value_grows(s, n + 1);
        let longer = s.subrange(0, n + 1);
        assert(longer.drop_last() == s.subrange(0, n));
        lemma_digits_value_nonnegative(s.subrange(0, n));
    }
}

/// A number written in digits is not negative.
pub proof fn lemma_digits_value_nonnegative(s: Seq<char>)
    requires
        all_digits(s),
    ensures
        0 <= digits_value(s),
    decreases s.len(),
{
    if s.len() > 0 {
        lemma_digits_value_nonnegative(s.drop_last());
    }
}

/// The characters of `s`, one by one.
pub fn chars_of(s: &str) -> (v: Vec<char>)
    ensures
        v@ == s@,
{
    let mut v: Vec<char> = Vec::new();
    for c in it: s.chars()
        invariant
            v@ == it.seq().take(it.index() as int),
            it.seq() == s@,
    {
        v.push(c);
    }
    v
}

/// Whether `sep` stands in `line` at position `at`.
pub fn stands_at(line: &Vec<char>, sep: &Vec<char>, at: usize) -> (b: bool)
    ensures
        b == occurs_at(line@, sep@, at as int),
{
    if sep.len() > line.len() || at > line.len() - sep.len() {
        return false;
    }
    let mut j: usize = 0;
    while j < sep.len()
        invariant
            j <= sep.len(),
            at + sep.len() <= line.len(),
            line@.subrange(at as int, at + j) == sep@.subrange(0, j as int),
        decreases sep.len() - j,
    {
        if line[at + j] != sep[j] {
            return false;
        }
        j += 1;
    }
    assert(sep@.subrange(0, j as int) == sep@);
    true
}

/// The first position at or after `from` at which `sep` stands in `line`.
pub fn find_from(line: &Vec<char>, sep: &Vec<char>, from: usize) -> (r: Option<usize>)
    ensures
        r matches Some(at) ==> first_occurrence(line@, sep@, from as int) == Some(at as int)
            && from <= at && at + sep.len() <= line.len(),
        r is None ==> first_occurrence(line@, sep@, from as int) is None,
{
    if sep.len() > line.len() {
        return None;
    }
    let last: usize = line.len() - sep.len();
    if from > last {
        return None;
    }
    let mut at: usize = from;
    loop
        invariant
            from <= at <= last,
            last + sep.len() == line.len(),
            first_occurrence(line@, sep@, from as int) == first_occurrence(line@, sep@, at as int),
        decreases last - at,
    {
        if stands_at(line, sep, at) {
            return Some(at);
        }
        if at == last {
            assert(first_occurrence(line@, sep@, at + 1) is None);
            return None;
        }
        at += 1;
    }
}

/// The signed 64-bit integer that the characters of `text` from position
/// `from` on write.
#[verifier::loop_isolation(false)]
pub fn parse_i64(text: &Vec<char>, from: usize) -> (r: Option<i64>)
    requires
        from <= text.len(),
    ensures
        r matches Some(v) ==> signed_decimal(text@.subrange(from as int, text.len() as int))
            == Some(v as int),
        r is None ==> signed_decimal(text@.subrange(from as int, text.len() as int)) is None,
{
    let ghost s = text@.subrange(from as int, text.len() as int);
    let n: usize = text.len();
    if from == n {
        return None;
    }
    let negative: bool = text[from] == '-';
    let signed: bool = negative || text[from] == '+';
    let start: usize = if signed {
        from + 1
    } else {
        from
    };
    let ghost digits = text@.subrange(start as int, n as int);
    assert(digits == if signed {
        s.subrange(1, s.len() as int)
    } else {
        s
    });
    if start == n {
        return None;
    }
    let mut magnitude: i128 = 0;
    let mut i: usize = start;
    while i < n
        invariant
            start <= i <= n,
            n == text.len(),
            digits == text@.subrange(start as int, n as int),
            all_digits(digits.subrange(0, i - start)),
            magnitude == digits_value(digits.subrange(0, i - start)),
            0 <= magnitude <= 0x8000_0000_0000_0000,
        decreases n - i,
    {
        let c: char = text[i];
        if (c as u32) < ('0' as u32) || (c as u32) > ('9' as u32) {
            assert(!is_digit(digits[i - start]));
            return None;
        }
        let digit: i128 = (c as u32 - '0' as u32) as i128;
        let ghost longer = digits.subrange(0, i + 1 - start);
        assert(longer.drop_last() == digits.subrange(0, i - start));
        assert(all_digits(longer)) by {
            assert forall|k: int| 0 <= k < longer.len() implies is_digit(#[trigger] longer[k]) by {
                if k < i - start {
                    assert(longer[k] == digits.subrange(0, i - start)[k]);
                }
            }
        }
        magnitude = magnitude * 10 + digit;
        if magnitude > 0x8000_0000_0000_0000 {
            proof {
                if all_digits(digits) {
                    lemma_digits_value_grows(digits, i + 1 - start);
                }
            }
            return None;
        }
        i += 1;
    }
    assert(digits.subrange(0, n - start) == digits);
    if negative {
        Some((-magnitude) as i64)
    } else if magnitude > 0x7fff_ffff_ffff_ffff {
        None
    } else {
        Some(magnitude as i64)
    }
}

} // verus!
