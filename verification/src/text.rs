//! Character-level text operations with exact specifications.
//!
//! Strings are modelled as `Seq<char>`; executable code works on `Vec<char>`
//! so that indexing is constant-time, and converts at the boundary.

use vstd::prelude::*;

verus! {

/// The characters of `s`, in order.
pub fn chars_of(s: &str) -> (out: Vec<char>)
    ensures
        out@ == s@,
{
    let mut out: Vec<char> = Vec::new();
    for c in it: s.chars()
        invariant
            out@ == it.seq().take(it.index as int),
    {
        out.push(c);
    }
    out
}

/// The string made of the characters `v[from..to]`.
pub fn string_of_range(v: &Vec<char>, from: usize, to: usize) -> (out: String)
    requires
        from <= to <= v.len(),
    ensures
        out@ == v@.subrange(from as int, to as int),
{
    let mut out = String::new();
    let mut i: usize = from;
    while i < to
        invariant
            from <= i <= to <= v.len(),
            out@ == v@.subrange(from as int, i as int),
        decreases to - i,
    {
        out.push(v[i]);
        assert(v@.subrange(from as int, i as int).push(v@[i as int]) =~= v@.subrange(
            from as int,
            i + 1,
        ));
        i = i + 1;
    }
    out
}

/// The string made of the characters of `v`.
pub fn string_of(v: &Vec<char>) -> (out: String)
    ensures
        out@ == v@,
{
    let out = string_of_range(v, 0, v.len());
    assert(v@.subrange(0, v.len() as int) =~= v@);
    out
}

/// `s` followed by `tail`.
pub fn concat2(s: &str, tail: &str) -> (out: String)
    ensures
        out@ == s@ + tail@,
{
    let mut out = String::from_str(s);
    out.append(tail);
    out
}

// ---------------------------------------------------------------------------
// Prefixes and occurrences
// ---------------------------------------------------------------------------

/// `needle` occurs in `hay` starting at index `i`.
pub open spec fn occurs_at(hay: Seq<char>, needle: Seq<char>, i: int) -> bool {
    &&& 0 <= i
    &&& i + needle.len() <= hay.len()
    &&& hay.subrange(i, i + needle.len()) == needle
}

/// `needle` occurs somewhere in `hay`.
pub open spec fn contains_text(hay: Seq<char>, needle: Seq<char>) -> bool {
    exists|i: int| occurs_at(hay, needle, i)
}

/// `hay` begins with `prefix`.
pub open spec fn begins_with(hay: Seq<char>, prefix: Seq<char>) -> bool {
    occurs_at(hay, prefix, 0)
}

/// Tests whether `needle` occurs in `hay` at index `at`.
pub fn matches_at(hay: &Vec<char>, needle: &Vec<char>, at: usize) -> (found: bool)
    ensures
        found == occurs_at(hay@, needle@, at as int),
{
    if needle.len() > hay.len() || at > hay.len() - needle.len() {
        return false;
    }
    let mut k: usize = 0;
    while k < needle.len()
        invariant
            k <= needle.len(),
            at + needle.len() <= hay.len(),
            hay@.subrange(at as int, at + k) == needle@.take(k as int),
        decreases needle.len() - k,
    {
        if hay[at + k] != needle[k] {
            proof {
                let window = hay@.subrange(at as int, at + needle.len());
                assert(window[k as int] == hay@[at + k]);
            }
            return false;
        }
        assert(hay@.subrange(at as int, at + k).push(hay@[at + k]) =~= hay@.subrange(
            at as int,
            at + k + 1,
        ));
        assert(needle@.take(k as int).push(needle@[k as int]) =~= needle@.take(k + 1));
        k = k + 1;
    }
    assert(needle@.take(needle.len() as int) =~= needle@);
    true
}

/// Tests whether `hay` begins with `prefix`.
pub fn starts_with(hay: &Vec<char>, prefix: &Vec<char>) -> (found: bool)
    ensures
        found == begins_with(hay@, prefix@),
{
    matches_at(hay, prefix, 0)
}

/// Tests whether `needle` occurs anywhere in `hay`.
pub fn contains(hay: &Vec<char>, needle: &Vec<char>) -> (found: bool)
    ensures
        found == contains_text(hay@, needle@),
{
    if needle.len() > hay.len() {
        assert forall|i: int| !occurs_at(hay@, needle@, i) by {}
        return false;
    }
    let last: usize = hay.len() - needle.len();
    let mut i: usize = 0;
    while i < last
        invariant
            i <= last,
            last == hay.len() - needle.len(),
            forall|j: int| 0 <= j < i ==> !occurs_at(hay@, needle@, j),
        decreases last - i,
    {
        if matches_at(hay, needle, i) {
            return true;
        }
        i = i + 1;
    }
    if matches_at(hay, needle, last) {
        return true;
    }
    assert forall|j: int| !occurs_at(hay@, needle@, j) by {}
    false
}

// ---------------------------------------------------------------------------
// Whitespace
// ---------------------------------------------------------------------------

/// The code points with the Unicode property `White_Space`.
pub open spec fn is_whitespace(c: char) -> bool {
    let n = c as u32;
    ||| 0x09 <= n <= 0x0D
    ||| n == 0x20
    ||| n == 0x85
    ||| n == 0xA0
    ||| n == 0x1680
    ||| 0x2000 <= n <= 0x200A
    ||| n == 0x2028
    ||| n == 0x2029
    ||| n == 0x202F
    ||| n == 0x205F
    ||| n == 0x3000
}

/// `s` without its leading whitespace.
pub open spec fn skip_leading_space(s: Seq<char>) -> Seq<char>
    decreases s.len(),
{
    if s.len() > 0 && is_whitespace(s[0]) {
        skip_leading_space(s.drop_first())
    } else {
        s
    }
}

/// `s` without its trailing whitespace.
pub open spec fn skip_trailing_space(s: Seq<char>) -> Seq<char>
    decreases s.len(),
{
    if s.len() > 0 && is_whitespace(s.last()) {
        skip_trailing_space(s.drop_last())
    } else {
        s
    }
}

/// `s` without leading and trailing whitespace.
pub open spec fn trimmed(s: Seq<char>) -> Seq<char> {
    skip_trailing_space(skip_leading_space(s))
}

/// `s` holds nothing but whitespace.
pub open spec fn is_blank(s: Seq<char>) -> bool {
    trimmed(s).len() == 0
}

/// What is left of `s` without its leading whitespace is the end of `s`
/// from the first character on that is no whitespace.
pub proof fn lemma_skip_leading_space(s: Seq<char>, mark: int)
    requires
        0 <= mark < s.len(),
        !is_whitespace(s[mark]),
    ensures
        exists|from: int| 0 <= from <= mark && skip_leading_space(s) == s.skip(from),
    decreases s.len(),
{
    if is_whitespace(s[0]) {
        lemma_skip_leading_space(s.drop_first(), mark - 1);
        let from = choose|from: int|
            0 <= from <= mark - 1 && skip_leading_space(s.drop_first()) == s.drop_first().skip(
                from,
            );
        assert(s.drop_first().skip(from) =~= s.skip(from + 1));
    } else {
        assert(s.skip(0) =~= s);
    }
}

/// What is left of `s` without its trailing whitespace reaches beyond every
/// character of `s` that is no whitespace.
pub proof fn lemma_skip_trailing_space(s: Seq<char>, mark: int)
    requires
        0 <= mark < s.len(),
        !is_whitespace(s[mark]),
    ensures
        skip_trailing_space(s).len() > mark,
    decreases s.len(),
{
    if is_whitespace(s.last()) {
        lemma_skip_trailing_space(s.drop_last(), mark);
    }
}

/// A text that holds a character which is no whitespace is not blank.
pub proof fn lemma_text_with_a_mark_is_not_blank(s: Seq<char>, mark: int)
    requires
        0 <= mark < s.len(),
        !is_whitespace(s[mark]),
    ensures
        !is_blank(s),
{
    lemma_skip_leading_space(s, mark);
    let from = choose|from: int| 0 <= from <= mark && skip_leading_space(s) == s.skip(from);
    lemma_skip_trailing_space(s.skip(from), mark - from);
}

/// Tests whether `c` is a whitespace character.
pub fn char_is_whitespace(c: char) -> (b: bool)
    ensures
        b == is_whitespace(c),
{
    let n: u32 = c as u32;
    (0x09 <= n && n <= 0x0D) || n == 0x20 || n == 0x85 || n == 0xA0 || n == 0x1680 || (0x2000 <= n
        && n <= 0x200A) || n == 0x2028 || n == 0x2029 || n == 0x202F || n == 0x205F || n == 0x3000
}

/// The bounds `(from, to)` of `s` without its surrounding whitespace.
pub fn trim_bounds(s: &Vec<char>) -> (bounds: (usize, usize))
    ensures
        bounds.0 <= bounds.1 <= s.len(),
        s@.subrange(bounds.0 as int, bounds.1 as int) == trimmed(s@),
{
    let mut from: usize = 0;
    assert(s@.skip(0) =~= s@);
    while from < s.len() && char_is_whitespace(s[from])
        invariant
            from <= s.len(),
            skip_leading_space(s@) == skip_leading_space(s@.skip(from as int)),
        decreases s.len() - from,
    {
        assert(s@.skip(from as int).drop_first() =~= s@.skip(from + 1));
        from = from + 1;
    }
    assert(skip_leading_space(s@) == s@.skip(from as int));
    let mut to: usize = s.len();
    while to > from && char_is_whitespace(s[to - 1])
        invariant
            from <= to <= s.len(),
            trimmed(s@) == skip_trailing_space(s@.subrange(from as int, to as int)),
        decreases to,
    {
        assert(s@.subrange(from as int, to as int).drop_last() =~= s@.subrange(
            from as int,
            to - 1,
        ));
        to = to - 1;
    }
    proof {
        assert(s@.skip(from as int) =~= s@.subrange(from as int, s.len() as int));
        let rest = s@.subrange(from as int, to as int);
        if to > from {
            assert(rest.last() == s@[to - 1]);
        }
    }
    (from, to)
}

/// `s` without leading and trailing whitespace.
pub fn trim(s: &Vec<char>) -> (out: Vec<char>)
    ensures
        out@ == trimmed(s@),
{
    let (from, to) = trim_bounds(s);
    slice_of(s, from, to)
}

/// Tests whether `s` holds nothing but whitespace.
pub fn blank(s: &Vec<char>) -> (b: bool)
    ensures
        b == is_blank(s@),
{
    let (from, to) = trim_bounds(s);
    from == to
}

/// The characters `s[from..to]`.
pub fn slice_of(s: &Vec<char>, from: usize, to: usize) -> (out: Vec<char>)
    requires
        from <= to <= s.len(),
    ensures
        out@ == s@.subrange(from as int, to as int),
{
    let mut out: Vec<char> = Vec::new();
    let mut i: usize = from;
    while i < to
        invariant
            from <= i <= to <= s.len(),
            out@ == s@.subrange(from as int, i as int),
        decreases to - i,
    {
        out.push(s[i]);
        assert(s@.subrange(from as int, i as int).push(s@[i as int]) =~= s@.subrange(
            from as int,
            i + 1,
        ));
        i = i + 1;
    }
    out
}

// ---------------------------------------------------------------------------
// Splitting, replacing, joining
// ---------------------------------------------------------------------------

/// The index of the first `sep` in `s`, or `s.len()` where there is none.
pub open spec fn first_index_of(s: Seq<char>, sep: char) -> int
    decreases s.len(),
{
    if s.len() == 0 || s[0] == sep {
        0
    } else {
        1 + first_index_of(s.drop_first(), sep)
    }
}

/// The pieces of `s` between occurrences of `sep`; never empty, and the
/// pieces themselves may be empty.
pub open spec fn split_on(s: Seq<char>, sep: char) -> Seq<Seq<char>>
    decreases s.len(),
{
    let i = first_index_of(s, sep);
    if 0 <= i < s.len() {
        seq![s.take(i)] + split_on(s.skip(i + 1), sep)
    } else {
        seq![s]
    }
}

/// `first_index_of` stays within the text and stops at the first separator.
pub proof fn lemma_first_index_of(s: Seq<char>, sep: char)
    ensures
        0 <= first_index_of(s, sep) <= s.len(),
        first_index_of(s, sep) < s.len() ==> s[first_index_of(s, sep)] == sep,
        forall|k: int| 0 <= k < first_index_of(s, sep) ==> s[k] != sep,
    decreases s.len(),
{
    if s.len() == 0 || s[0] == sep {
    } else {
        lemma_first_index_of(s.drop_first(), sep);
        let rest = first_index_of(s.drop_first(), sep);
        assert forall|k: int| 0 <= k < 1 + rest implies s[k] != sep by {
            if k > 0 {
                assert(s.drop_first()[k - 1] == s[k]);
            }
        }
    }
}

/// A stretch without separators that ends at a separator, or at the end of
/// the text, fixes `first_index_of`.
pub proof fn lemma_first_index_found(s: Seq<char>, sep: char, i: int)
    requires
        0 <= i <= s.len(),
        forall|k: int| 0 <= k < i ==> s[k] != sep,
        i < s.len() ==> s[i] == sep,
    ensures
        first_index_of(s, sep) == i,
{
    lemma_first_index_of(s, sep);
}

/// The views of the pieces in `v`.
pub open spec fn views(v: Seq<Vec<char>>) -> Seq<Seq<char>> {
    Seq::new(v.len(), |i: int| v[i]@)
}

/// Splits `s` at every `sep`.
pub fn split(s: &Vec<char>, sep: char) -> (pieces: Vec<Vec<char>>)
    ensures
        views(pieces@) == split_on(s@, sep),
{
    let mut pieces: Vec<Vec<char>> = Vec::new();
    let mut start: usize = 0;
    let mut i: usize = 0;
    assert(s@.skip(0) =~= s@);
    assert(views(pieces@) + split_on(s@, sep) =~= split_on(s@, sep));
    while i < s.len()
        invariant
            start <= i <= s.len(),
            forall|k: int| start <= k < i ==> s@[k] != sep,
            split_on(s@, sep) == views(pieces@) + split_on(s@.skip(start as int), sep),
        decreases s.len() - i,
    {
        if s[i] == sep {
            let piece = slice_of(s, start, i);
            proof {
                let rest = s@.skip(start as int);
                lemma_first_index_found(rest, sep, i - start);
                assert(rest.take(i - start) =~= s@.subrange(start as int, i as int));
                assert(rest.skip(i - start + 1) =~= s@.skip(i + 1));
                assert(views(pieces@.push(piece)) =~= views(pieces@) + seq![piece@]);
                assert(views(pieces@) + (seq![piece@] + split_on(s@.skip(i + 1), sep)) =~= (views(
                    pieces@,
                ) + seq![piece@]) + split_on(s@.skip(i + 1), sep));
            }
            pieces.push(piece);
            start = i + 1;
        }
        i = i + 1;
    }
    let piece = slice_of(s, start, s.len());
    proof {
        let rest = s@.skip(start as int);
        lemma_first_index_found(rest, sep, rest.len() as int);
        assert(rest =~= s@.subrange(start as int, s.len() as int));
        assert(views(pieces@.push(piece)) =~= views(pieces@) + seq![piece@]);
    }
    pieces.push(piece);
    pieces
}

/// `s` with every `from` replaced by `to`.
pub open spec fn replaced(s: Seq<char>, from: char, to: char) -> Seq<char> {
    Seq::new(
        s.len(),
        |i: int|
            if s[i] == from {
                to
            } else {
                s[i]
            },
    )
}

/// Replaces every `from` in `s` by `to`.
pub fn replace_char(s: &Vec<char>, from: char, to: char) -> (out: Vec<char>)
    ensures
        out@ == replaced(s@, from, to),
{
    let mut out: Vec<char> = Vec::new();
    let mut i: usize = 0;
    while i < s.len()
        invariant
            i <= s.len(),
            out@ == replaced(s@, from, to).take(i as int),
        decreases s.len() - i,
    {
        let c = s[i];
        out.push(if c == from {
            to
        } else {
            c
        });
        assert(replaced(s@, from, to).take(i as int).push(replaced(s@, from, to)[i as int])
            =~= replaced(s@, from, to).take(i + 1));
        i = i + 1;
    }
    assert(replaced(s@, from, to).take(s.len() as int) =~= replaced(s@, from, to));
    out
}

/// The pieces written one after another with `sep` between neighbours.
pub open spec fn joined(pieces: Seq<Seq<char>>, sep: Seq<char>) -> Seq<char>
    decreases pieces.len(),
{
    if pieces.len() == 0 {
        Seq::empty()
    } else if pieces.len() == 1 {
        pieces[0]
    } else {
        joined(pieces.drop_last(), sep) + sep + pieces.last()
    }
}

/// The views of the strings in `v`.
pub open spec fn string_views(v: Seq<String>) -> Seq<Seq<char>> {
    Seq::new(v.len(), |i: int| v[i]@)
}

/// Joins `pieces` with `sep` between neighbours.
pub fn join(pieces: &Vec<String>, sep: &str) -> (out: String)
    ensures
        out@ == joined(string_views(pieces@), sep@),
{
    let mut out = String::new();
    let mut i: usize = 0;
    while i < pieces.len()
        invariant
            i <= pieces.len(),
            out@ == joined(string_views(pieces@).take(i as int), sep@),
        decreases pieces.len() - i,
    {
        proof {
            let all = string_views(pieces@);
            let next = all.take(i + 1);
            assert(next.drop_last() =~= all.take(i as int));
            assert(next.last() == pieces@[i as int]@);
        }
        if i > 0 {
            out.append(sep);
        }
        out.append(pieces[i].as_str());
        i = i + 1;
    }
    assert(string_views(pieces@).take(pieces.len() as int) =~= string_views(pieces@));
    out
}

/// Moves the strings of `more` to the end of `out`.
pub fn append_all(out: &mut Vec<String>, more: Vec<String>)
    ensures
        string_views(final(out)@) == string_views(old(out)@) + string_views(more@),
{
    let ghost before = string_views(out@);
    let ghost added = string_views(more@);
    let mut k: usize = 0;
    assert(before + added.take(0) =~= before);
    while k < more.len()
        invariant
            k <= more.len(),
            added == string_views(more@),
            string_views(out@) == before + added.take(k as int),
        decreases more.len() - k,
    {
        let item = more[k].clone();
        proof {
            assert(string_views(out@.push(item)) =~= string_views(out@).push(item@));
            assert((before + added.take(k as int)).push(added[k as int]) =~= before + added.take(
                k + 1,
            ));
        }
        out.push(item);
        k = k + 1;
    }
    assert(added.take(more.len() as int) =~= added);
}

// ---------------------------------------------------------------------------
// Path components
// ---------------------------------------------------------------------------

/// `/` and `\` both separate the components of a path.
pub open spec fn is_path_separator(c: char) -> bool {
    c == '/' || c == '\\'
}

/// The index just behind the last path separator of `s`, or 0.
pub open spec fn last_component_start(s: Seq<char>) -> int
    decreases s.len(),
{
    if s.len() == 0 {
        0
    } else if is_path_separator(s.last()) {
        s.len() as int
    } else {
        last_component_start(s.drop_last())
    }
}

/// What follows the last path separator of `s`; all of `s` where it has none.
pub open spec fn last_component(s: Seq<char>) -> Seq<char> {
    s.skip(last_component_start(s))
}

/// What follows the last `/` or `\` of `s`.
pub fn file_name_of(s: &Vec<char>) -> (out: Vec<char>)
    ensures
        out@ == last_component(s@),
{
    let mut start: usize = s.len();
    assert(s@.take(s.len() as int) =~= s@);
    while start > 0 && !(s[start - 1] == '/' || s[start - 1] == '\\')
        invariant
            start <= s.len(),
            last_component_start(s@) == last_component_start(s@.take(start as int)),
        decreases start,
    {
        assert(s@.take(start as int).drop_last() =~= s@.take(start - 1));
        start = start - 1;
    }
    proof {
        assert(s@.take(s.len() as int) =~= s@);
        let head = s@.take(start as int);
        if start > 0 {
            assert(head.last() == s@[start - 1]);
        }
        assert(s@.skip(start as int) =~= s@.subrange(start as int, s.len() as int));
    }
    slice_of(s, start, s.len())
}

// ---------------------------------------------------------------------------
// Letter case and numbers
// ---------------------------------------------------------------------------

/// `c` with an ASCII capital letter turned into its small letter.
pub open spec fn ascii_lower(c: char) -> char {
    if 'A' <= c <= 'Z' {
        ((c as u8) + 32) as char
    } else {
        c
    }
}

/// `s` with every ASCII capital letter turned into its small letter.
pub open spec fn ascii_lowered(s: Seq<char>) -> Seq<char> {
    Seq::new(s.len(), |i: int| ascii_lower(s[i]))
}

/// Turns the ASCII capital letters of `s` into small letters.
pub fn to_ascii_lowercase(s: &Vec<char>) -> (out: Vec<char>)
    ensures
        out@ == ascii_lowered(s@),
{
    let mut out: Vec<char> = Vec::new();
    let mut i: usize = 0;
    while i < s.len()
        invariant
            i <= s.len(),
            out@ == ascii_lowered(s@).take(i as int),
        decreases s.len() - i,
    {
        let c = s[i];
        let lowered = if 'A' <= c && c <= 'Z' {
            ((c as u8) + 32) as char
        } else {
            c
        };
        out.push(lowered);
        assert(ascii_lowered(s@).take(i as int).push(ascii_lowered(s@)[i as int])
            =~= ascii_lowered(s@).take(i + 1));
        i = i + 1;
    }
    assert(ascii_lowered(s@).take(s.len() as int) =~= ascii_lowered(s@));
    out
}

/// The decimal digit for `d`.
pub open spec fn digit_char(d: int) -> char
    recommends
        0 <= d < 10,
{
    ((48 + d) as u8) as char
}

/// The decimal digits of `n`, most significant first.
pub open spec fn decimal_digits(n: nat) -> Seq<char>
    decreases n,
{
    if n < 10 {
        seq![digit_char(n as int)]
    } else {
        decimal_digits(n / 10).push(digit_char((n % 10) as int))
    }
}

/// The decimal notation of `n`, with a leading `-` where it is negative.
pub open spec fn decimal_text(n: int) -> Seq<char> {
    if n < 0 {
        seq!['-'] + decimal_digits((-n) as nat)
    } else {
        decimal_digits(n as nat)
    }
}

/// The decimal digits of `n`.
pub fn decimal_of_u64(n: u64) -> (out: Vec<char>)
    ensures
        out@ == decimal_digits(n as nat),
{
    let mut reversed: Vec<char> = Vec::new();
    let mut rest: u64 = n;
    while rest >= 10
        invariant
            decimal_digits(n as nat) == decimal_digits(rest as nat) + reversed@.reverse(),
        decreases rest,
    {
        let digit: u8 = (rest % 10) as u8;
        let c = (48 + digit) as char;
        proof {
            let before = reversed@;
            assert(decimal_digits(rest as nat) == decimal_digits((rest / 10) as nat).push(c));
            assert(before.push(c).reverse() =~= seq![c] + before.reverse());
            assert(decimal_digits((rest / 10) as nat).push(c) + before.reverse()
                =~= decimal_digits((rest / 10) as nat) + (seq![c] + before.reverse()));
        }
        reversed.push(c);
        rest = rest / 10;
    }
    let first = (48 + (rest as u8)) as char;
    let mut out: Vec<char> = Vec::new();
    out.push(first);
    let mut i: usize = reversed.len();
    while i > 0
        invariant
            i <= reversed.len(),
            out@ == seq![first] + reversed@.reverse().take(reversed.len() - i),
        decreases i,
    {
        i = i - 1;
        out.push(reversed[i]);
        proof {
            let r = reversed@.reverse();
            let k = reversed.len() - i - 1;
            assert(r[k] == reversed@[i as int]);
            assert(r.take(k).push(r[k]) =~= r.take(k + 1));
            assert((seq![first] + r.take(k)).push(r[k]) =~= seq![first] + r.take(k + 1));
        }
    }
    proof {
        let r = reversed@.reverse();
        assert(r.take(reversed.len() as int) =~= r);
        assert(decimal_digits(rest as nat) =~= seq![first]);
    }
    out
}

/// The decimal notation of `n`.
pub fn decimal_of_i64(n: i64) -> (out: Vec<char>)
    ensures
        out@ == decimal_text(n as int),
{
    if n < 0 {
        let magnitude: u64 = if n == i64::MIN {
            9223372036854775808u64
        } else {
            (-n) as u64
        };
        let digits = decimal_of_u64(magnitude);
        let mut out: Vec<char> = Vec::new();
        out.push('-');
        let mut i: usize = 0;
        while i < digits.len()
            invariant
                i <= digits.len(),
                out@ == seq!['-'] + digits@.take(i as int),
            decreases digits.len() - i,
        {
            out.push(digits[i]);
            assert((seq!['-'] + digits@.take(i as int)).push(digits@[i as int]) =~= seq!['-']
                + digits@.take(i + 1));
            i = i + 1;
        }
        assert(digits@.take(digits.len() as int) =~= digits@);
        out
    } else {
        decimal_of_u64(n as u64)
    }
}

} // verus!
