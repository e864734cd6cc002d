use vstd::prelude::*;
use vstd::string::{StrSliceExecFns, StringExecFns};

use crate::selection::PageRange;
use crate::text::{trim, trim_white_space};

verus! {

/// Why page-range text was refused.
#[derive(Debug, PartialEq, Eq)]
pub struct ParsePageRangesError {
    message: String,
}

impl ParsePageRangesError {
    pub closed spec fn spec_message(&self) -> Seq<char> {
        self.message@
    }

    pub(crate) fn new(message: String) -> (r: Self)
        ensures
            r.spec_message() == message@,
    {
        ParsePageRangesError { message }
    }

    /// A description of what was wrong with the text.
    pub fn message(&self) -> (r: &str)
        ensures
            r@ == self.spec_message(),
    {
        self.message.as_str()
    }
}

pub open spec fn is_digit(c: char) -> bool {
    48 <= (c as u32) <= 57
}

pub open spec fn all_digits(s: Seq<char>) -> bool {
    forall|i: int| 0 <= i < s.len() ==> is_digit(#[trigger] s[i])
}

/// The number that a string of decimal digits denotes.
pub open spec fn digits_value(s: Seq<char>) -> nat
    decreases s.len(),
{
    if s.len() == 0 {
        0
    } else {
        digits_value(s.drop_last()) * 10 + ((s.last() as u32) - 48) as nat
    }
}

/// `s` without one leading `+`.
pub open spec fn unsigned_part(s: Seq<char>) -> Seq<char> {
    if s.len() > 0 && s[0] == '+' {
        s.drop_first()
    } else {
        s
    }
}

/// The zero-based page index that 1-based page text denotes: an optional `+`
/// and then one or more decimal digits, with a value that fits in `usize`.
/// Page `0` is taken as the first page.
pub open spec fn page_number(s: Seq<char>) -> Option<usize> {
    let d = unsigned_part(s);
    if d.len() > 0 && all_digits(d) && digits_value(d) <= usize::MAX {
        Some(
            if digits_value(d) == 0 {
                0usize
            } else {
                (digits_value(d) - 1) as usize
            },
        )
    } else {
        None
    }
}

pub open spec fn has_char(s: Seq<char>, c: char) -> bool {
    exists|i: int| 0 <= i < s.len() && s[i] == c
}

/// `k` is the position of the first `c` in `s`.
pub open spec fn is_first(s: Seq<char>, c: char, k: int) -> bool {
    0 <= k < s.len() && s[k] == c && forall|m: int| 0 <= m < k ==> s[m] != c
}

/// The range that the text of one token denotes: a single page, or two pages
/// joined by one `-` in either order.
pub open spec fn page_range_of(t: Seq<char>) -> Option<PageRange> {
    if !has_char(t, '-') {
        match page_number(t) {
            Some(p) => Some(PageRange { start: p, end: p }),
            None => None,
        }
    } else {
        let k = choose|k: int| is_first(t, '-', k);
        if has_char(t.subrange(k + 1, t.len() as int), '-') {
            None
        } else {
            match (
                page_number(trim(t.subrange(0, k))),
                page_number(trim(t.subrange(k + 1, t.len() as int))),
            ) {
                (Some(a), Some(b)) => Some(
                    PageRange {
                        start: if a <= b {
                            a
                        } else {
                            b
                        },
                        end: if a <= b {
                            b
                        } else {
                            a
                        },
                    },
                ),
                _ => None,
            }
        }
    }
}

/// The pieces of `s` between its commas.
pub open spec fn split_commas(s: Seq<char>) -> Seq<Seq<char>>
    decreases s.len(),
{
    if s.len() == 0 {
        seq![Seq::<char>::empty()]
    } else {
        let prev = split_commas(s.drop_last());
        if s.last() == ',' {
            prev.push(Seq::<char>::empty())
        } else {
            prev.update(prev.len() - 1, prev.last().push(s.last()))
        }
    }
}

/// The range of one comma-separated token, white space around it ignored; an
/// empty token has none.
pub open spec fn token_range(token: Seq<char>) -> Option<PageRange> {
    if trim(token).len() == 0 {
        None
    } else {
        page_range_of(trim(token))
    }
}

/// The ranges that page-range text denotes, one per comma-separated token, or
/// `None` when some token is not a valid range.
pub open spec fn page_ranges_of(s: Seq<char>) -> Option<Seq<PageRange>> {
    let tokens = split_commas(s);
    if forall|t: int| 0 <= t < tokens.len() ==> (#[trigger] token_range(tokens[t])) is Some {
        Some(tokens.map_values(|tk: Seq<char>| token_range(tk)->0))
    } else {
        None
    }
}

proof fn lemma_digits_value_prefix(s: Seq<char>, k: int)
    requires
        0 <= k <= s.len(),
    ensures
        digits_value(s.subrange(0, k)) <= digits_value(s),
    decreases s.len() - k,
{
    if k < s.len() {
        lemma_digits_value_prefix(s, k + 1);
        assert(s.subrange(0, k + 1).drop_last() =~= s.subrange(0, k));
    } else {
        assert(s.subrange(0, k) =~= s);
    }
}

/// Reads 1-based page text as a zero-based page index.
pub fn parse_non_negative_page(input: &str) -> (r: Result<usize, ParsePageRangesError>)
    ensures
        match r {
            Ok(p) => page_number(input@) == Some(p),
            Err(_) => page_number(input@) is None,
        },
        r matches Err(e) ==> e.spec_message() == "invalid page number: "@ + input@,
{
    let n = input.unicode_len();
    let mut i: usize = 0;
    if n > 0 && input.get_char(0) == '+' {
        i = 1;
    }
    let first = i;
    let ghost d = unsigned_part(input@);
    assert(d =~= input@.subrange(first as int, n as int));
    if first == n {
        return Err(invalid_page_number(input));
    }
    let mut value: usize = 0;
    while i < n
        invariant
            first <= i <= n,
            n == input@.len(),
            d == input@.subrange(first as int, n as int),
            d == unsigned_part(input@),
            all_digits(d.subrange(0, i - first)),
            value == digits_value(d.subrange(0, i - first)),
        decreases n - i,
    {
        let c = input.get_char(i);
        let u = c as u32;
        if u < 48 || u > 57 {
            assert(d[i - first] == c);
            assert(!all_digits(d));
            return Err(invalid_page_number(input));
        }
        let digit = (u - 48) as usize;
        proof {
            assert(d.subrange(0, i + 1 - first).drop_last() =~= d.subrange(0, i - first));
            lemma_digits_value_prefix(d, i + 1 - first);
        }
        assert(d.subrange(0, i + 1 - first).last() == c);
        assert(digits_value(d.subrange(0, i + 1 - first)) == value * 10 + digit);
        if value > (usize::MAX - digit) / 10 {
            assert(value * 10 + digit > usize::MAX) by (nonlinear_arith)
                requires value > (usize::MAX - digit) / 10, digit <= 9;
            return Err(invalid_page_number(input));
        }
        value = value * 10 + digit;
        assert(all_digits(d.subrange(0, i + 1 - first)));
        i = i + 1;
    }
    assert(d.subrange(0, n - first) =~= d);
    Ok(value.saturating_sub(1))
}

fn contains_char(s: &str, c: char) -> (r: bool)
    ensures
        r == has_char(s@, c),
{
    let n = s.unicode_len();
    let mut i: usize = 0;
    while i < n
        invariant
            i <= n,
            n == s@.len(),
            forall|m: int| 0 <= m < i ==> s@[m] != c,
        decreases n - i,
    {
        if s.get_char(i) == c {
            return true;
        }
        i = i + 1;
    }
    false
}

/// Reads one token of page-range text: a 1-based page, or two 1-based pages
/// joined by `-` in either order, as a zero-based ascending range.
pub fn parse_page_range(input: &str) -> (r: Result<PageRange, ParsePageRangesError>)
    ensures
        match r {
            Ok(range) => page_range_of(input@) == Some(range),
            Err(_) => page_range_of(input@) is None,
        },
        r matches Ok(range) ==> range.start <= range.end,
{
    let n = input.unicode_len();
    let mut k: usize = 0;
    while k < n && input.get_char(k) != '-'
        invariant
            k <= n,
            n == input@.len(),
            forall|m: int| 0 <= m < k ==> input@[m] != '-',
        decreases n - k,
    {
        k = k + 1;
    }
    if k == n {
        let page_index = match parse_non_negative_page(input) {
            Ok(p) => p,
            Err(e) => return Err(e),
        };
        return Ok(PageRange { start: page_index, end: page_index });
    }
    assert(is_first(input@, '-', k as int));
    assert(has_char(input@, '-'));
    proof {
        let j = choose|j: int| is_first(input@, '-', j);
        assert(j == k as int) by {
            if j < k {
                assert(input@[j] != '-');
            } else if j > k {
                assert(input@[k as int] != '-');
            }
        }
    }
    let raw_start = input.substring_char(0, k);
    let raw_end = input.substring_char(k + 1, n);
    if contains_char(raw_end, '-') {
        let mut message = String::from_str("invalid range text: ");
        message.append(input);
        return Err(ParsePageRangesError::new(message));
    }
    let start = match parse_non_negative_page(trim_white_space(raw_start)) {
        Ok(p) => p,
        Err(e) => return Err(e),
    };
    let end = match parse_non_negative_page(trim_white_space(raw_end)) {
        Ok(p) => p,
        Err(e) => return Err(e),
    };
    if start <= end {
        Ok(PageRange { start, end })
    } else {
        Ok(PageRange { start: end, end: start })
    }
}

/// Reads comma-separated page-range text such as `"1, 3-5"`: each token is a
/// 1-based page or a range of them, and white space around tokens and bounds is
/// ignored. Text with an empty or malformed token is refused.
pub fn parse_page_ranges_text(input: &str) -> (r: Result<Vec<PageRange>, ParsePageRangesError>)
    ensures
        match r {
            Ok(ranges) => page_ranges_of(input@) == Some(ranges@),
            Err(_) => page_ranges_of(input@) is None,
        },
        r matches Ok(ranges) ==> forall|i: int| 0 <= i < ranges@.len() ==> (#[trigger] ranges@[i]).start <= ranges@[i].end,
{
    let n = input.unicode_len();
    let mut bounds: Vec<(usize, usize)> = Vec::new();
    let ghost mut done: Seq<Seq<char>> = Seq::empty();
    let mut token_start: usize = 0;
    let mut i: usize = 0;
    assert(input@.subrange(0, 0) =~= Seq::<char>::empty());
    assert(done.push(input@.subrange(0, 0)) =~= seq![Seq::<char>::empty()]);
    while i < n
        invariant
            token_start <= i <= n,
            n == input@.len(),
            split_commas(input@.subrange(0, i as int)) == done.push(
                input@.subrange(token_start as int, i as int),
            ),
            done.len() == bounds@.len(),
            forall|t: int|
                0 <= t < bounds@.len() ==> (#[trigger] bounds@[t]).0 <= bounds@[t].1 <= n
                    && done[t] == input@.subrange(bounds@[t].0 as int, bounds@[t].1 as int),
        decreases n - i,
    {
        let c = input.get_char(i);
        let ghost prefix = input@.subrange(0, i + 1);
        assert(prefix.drop_last() =~= input@.subrange(0, i as int));
        assert(prefix.last() == c);
        if c == ',' {
            bounds.push((token_start, i));
            proof {
                done = done.push(input@.subrange(token_start as int, i as int));
                assert(input@.subrange(i + 1, i + 1) =~= Seq::<char>::empty());
            }
            token_start = i + 1;
        } else {
            proof {
                let old_last = input@.subrange(token_start as int, i as int);
                assert(old_last.push(c) =~= input@.subrange(token_start as int, i + 1));
                assert(done.push(old_last).update(done.len() as int, old_last.push(c)) =~= done.push(
                    old_last.push(c),
                ));
            }
        }
        i = i + 1;
    }
    bounds.push((token_start, n));
    proof {
        done = done.push(input@.subrange(token_start as int, n as int));
        assert(input@.subrange(0, n as int) =~= input@);
    }
    let ghost tokens = split_commas(input@);
    assert(tokens == done);
    let mut parsed: Vec<PageRange> = Vec::new();
    let mut t: usize = 0;
    while t < bounds.len()
        invariant
            t <= bounds@.len(),
            n == input@.len(),
            tokens == split_commas(input@),
            tokens.len() == bounds@.len(),
            forall|u: int|
                0 <= u < bounds@.len() ==> (#[trigger] bounds@[u]).0 <= bounds@[u].1 <= n
                    && tokens[u] == input@.subrange(bounds@[u].0 as int, bounds@[u].1 as int),
            forall|u: int| 0 <= u < t ==> (#[trigger] token_range(tokens[u])) is Some,
            parsed@ == tokens.subrange(0, t as int).map_values(|tk: Seq<char>| token_range(tk)->0),
            forall|u: int| 0 <= u < parsed@.len() ==> (#[trigger] parsed@[u]).start <= parsed@[u].end,
        decreases bounds@.len() - t,
    {
        let (from, to) = bounds[t];
        let token = input.substring_char(from, to);
        let trimmed = trim_white_space(token);
        if trimmed.unicode_len() == 0 {
            assert(token_range(tokens[t as int]) is None);
            return Err(ParsePageRangesError::new(String::from_str("range token cannot be empty")));
        }
        let range = match parse_page_range(trimmed) {
            Ok(range) => range,
            Err(e) => {
                assert(token_range(tokens[t as int]) is None);
                return Err(e);
            },
        };
        parsed.push(range);
        assert(tokens.subrange(0, t + 1).map_values(|tk: Seq<char>| token_range(tk)->0) =~= tokens.subrange(
            0,
            t as int,
        ).map_values(|tk: Seq<char>| token_range(tk)->0).push(range));
        t = t + 1;
    }
    assert(tokens.subrange(0, t as int) =~= tokens);
    Ok(parsed)
}

fn invalid_page_number(input: &str) -> (r: ParsePageRangesError)
    ensures
        r.spec_message() == "invalid page number: "@ + input@,
{
    let mut message = String::from_str("invalid page number: ");
    message.append(input);
    ParsePageRangesError::new(message)
}

} // verus!
