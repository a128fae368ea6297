//! Query-text handling: silent truncation to a bounded length, extraction
//! of the first double-quoted sub-filter, and decimal rendering of counts
//! for the store's textual query language.

use vstd::prelude::*;

verus! {

/// Queries longer than this many characters are truncated before any
/// further processing.
pub const MAX_QUERY_CHARS: usize = 256;

/// The smallest index `i >= from` with `s[i] == '"'`, or `-1` when no
/// quote character follows `from`.
pub open spec fn find_quote(s: Seq<char>, from: int) -> int
    decreases s.len() - from,
{
    if from < 0 || from >= s.len() {
        -1
    } else if s[from] == '"' {
        from
    } else {
        find_quote(s, from + 1)
    }
}

/// What `find_quote` returns: the first quote position at or after `from`,
/// with no quote before it in that range.
pub proof fn lemma_find_quote(s: Seq<char>, from: int)
    requires
        0 <= from <= s.len(),
    ensures
        ({
            let i = find_quote(s, from);
            &&& i == -1 ==> forall|k: int| from <= k < s.len() ==> s[k] != '"'
            &&& i != -1 ==> from <= i < s.len() && s[i] == '"' && (forall|k: int|
                from <= k < i ==> s[k] != '"')
        }),
    decreases s.len() - from,
{
    if from < s.len() && s[from] != '"' {
        lemma_find_quote(s, from + 1);
    }
}

/// The text strictly between the first pair of double quotes, if a
/// complete pair exists; an unmatched opening quote yields nothing.
pub open spec fn first_quoted(s: Seq<char>) -> Option<Seq<char>> {
    let i = find_quote(s, 0);
    if i == -1 {
        None
    } else {
        let j = find_quote(s, i + 1);
        if j == -1 {
            None
        } else {
            Some(s.subrange(i + 1, j))
        }
    }
}

/// The first `max` characters of `s`, or all of `s` when it is shorter.
pub open spec fn truncated(s: Seq<char>, max: int) -> Seq<char> {
    if s.len() <= max {
        s
    } else {
        s.subrange(0, max)
    }
}

/// Index of the first quote character at or after `from`, or the length
/// `n` of the string when there is none.
fn find_quote_from(s: &str, from: usize, n: usize) -> (r: usize)
    requires
        n == s@.len(),
        from <= n,
    ensures
        from <= r <= n,
        r < n ==> r == find_quote(s@, from as int),
        r == n ==> find_quote(s@, from as int) == -1,
{
    let mut i: usize = from;
    while i < n
        invariant
            from <= i <= n,
            n == s@.len(),
            forall|k: int| from <= k < i ==> s@[k] != '"',
        decreases n - i,
    {
        if s.get_char(i) == '"' {
            proof {
                lemma_find_quote(s@, from as int);
            }
            return i;
        }
        i += 1;
    }
    proof {
        lemma_find_quote(s@, from as int);
    }
    n
}

/// Extract the first double-quoted substring of `input`: the characters
/// strictly between the first quote and the next one. A query with no
/// quote, or an opening quote that is never closed, yields `None`.
pub fn extract_first_quote(input: &str) -> (r: Option<String>)
    ensures
        r.deep_view() == first_quoted(input@),
{
    let n = input.unicode_len();
    let i = find_quote_from(input, 0, n);
    if i == n {
        return None;
    }
    let j = find_quote_from(input, i + 1, n);
    if j == n {
        return None;
    }
    let quoted = input.substring_char(i + 1, j).to_owned();
    Some(quoted)
}

/// Cut a query down to at most `MAX_QUERY_CHARS` characters. The cut is
/// by characters, never inside one, and is silent.
pub fn truncate_query(query: &str) -> (r: &str)
    ensures
        r@ == truncated(query@, MAX_QUERY_CHARS as int),
{
    let n = query.unicode_len();
    if n <= MAX_QUERY_CHARS {
        query
    } else {
        query.substring_char(0, MAX_QUERY_CHARS)
    }
}

/// Prepare a raw search query: truncate it, then pull out the optional
/// quoted sub-filter from the truncated text.
pub fn prepare_query(query: &str) -> (r: (String, Option<String>))
    ensures
        r.0@ == truncated(query@, MAX_QUERY_CHARS as int),
        r.1.deep_view() == first_quoted(truncated(query@, MAX_QUERY_CHARS as int)),
{
    let t = truncate_query(query);
    let quoted = extract_first_quote(t);
    (t.to_owned(), quoted)
}

/// The character for one decimal digit.
pub open spec fn digit_char(d: int) -> char {
    if d == 0 {
        '0'
    } else if d == 1 {
        '1'
    } else if d == 2 {
        '2'
    } else if d == 3 {
        '3'
    } else if d == 4 {
        '4'
    } else if d == 5 {
        '5'
    } else if d == 6 {
        '6'
    } else if d == 7 {
        '7'
    } else if d == 8 {
        '8'
    } else {
        '9'
    }
}

/// The decimal rendering of a non-negative integer, most significant
/// digit first, with no leading zero except for zero itself.
pub open spec fn decimal_digits(n: int) -> Seq<char>
    decreases n,
{
    if n < 10 {
        seq![digit_char(n)]
    } else {
        decimal_digits(n / 10).push(digit_char(n % 10))
    }
}

/// One decimal digit as a string slice.
fn digit_str(d: usize) -> (r: &'static str)
    requires
        d < 10,
    ensures
        r@ =~= seq![digit_char(d as int)],
{
    proof {
        reveal_strlit("0");
        reveal_strlit("1");
        reveal_strlit("2");
        reveal_strlit("3");
        reveal_strlit("4");
        reveal_strlit("5");
        reveal_strlit("6");
        reveal_strlit("7");
        reveal_strlit("8");
        reveal_strlit("9");
    }
    match d {
        0 => "0",
        1 => "1",
        2 => "2",
        3 => "3",
        4 => "4",
        5 => "5",
        6 => "6",
        7 => "7",
        8 => "8",
        _ => "9",
    }
}

/// Append the decimal rendering of `n` to `out`.
fn push_decimal(n: usize, out: &mut String)
    ensures
        final(out)@ == old(out)@ + decimal_digits(n as int),
    decreases n,
{
    if n >= 10 {
        push_decimal(n / 10, out);
    }
    let d = digit_str(n % 10);
    out.append(d);
    proof {
        assert(out@ =~= old(out)@ + decimal_digits(n as int));
    }
}

/// The decimal rendering of `n` as an owned string.
pub fn decimal_string(n: usize) -> (r: String)
    ensures
        r@ == decimal_digits(n as int),
{
    let mut out = String::new();
    push_decimal(n, &mut out);
    proof {
        assert(out@ =~= decimal_digits(n as int));
    }
    out
}

} // verus!
