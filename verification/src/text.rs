//! Character-level helpers shared by the parsers, with their specifications.
//!
//! Texts are modelled by their character sequences (`Seq<char>`, the view of `str`).
//! Lines are the pieces between `"\r\n"` separators, found from the left, exactly as
//! `str::split("\r\n")` yields them.

use vstd::prelude::*;

verus! {

broadcast use vstd::string::group_string_axioms;

/// Copies the characters of `s` into a vector.
pub fn chars_of(s: &str) -> (v: Vec<char>)
    ensures
        v@ == s@,
{
    let mut v: Vec<char> = Vec::new();
    for c in it: s.chars()
        invariant
            it.seq() == s@,
            v@ == it.seq().take(it.index()),
    {
        v.push(c);
    }
    v
}

/// A `"\r\n"` separator starts at index `i` of `s`.
pub open spec fn crlf_at(s: Seq<char>, i: int) -> bool {
    0 <= i && i + 1 < s.len() && s[i] == '\r' && s[i + 1] == '\n'
}

/// The end of the line that starts at `from`: the index of the first separator at or
/// after `from`, or the length of `s` when there is none.
pub open spec fn line_end(s: Seq<char>, from: int) -> int
    decreases s.len() - from,
{
    if from + 1 >= s.len() {
        s.len() as int
    } else if crlf_at(s, from) {
        from
    } else {
        line_end(s, from + 1)
    }
}

pub proof fn lemma_line_end_bounds(s: Seq<char>, from: int)
    requires
        0 <= from <= s.len(),
    ensures
        from <= line_end(s, from) <= s.len(),
        line_end(s, from) < s.len() ==> crlf_at(s, line_end(s, from)),
        forall|j: int| from <= j < line_end(s, from) ==> !crlf_at(s, j),
    decreases s.len() - from,
{
    if from + 1 >= s.len() {
    } else if crlf_at(s, from) {
    } else {
        lemma_line_end_bounds(s, from + 1);
    }
}

/// The first line of `s`: what `s.split("\r\n").next()` gives.
pub open spec fn first_line(s: Seq<char>) -> Seq<char> {
    s.subrange(0, line_end(s, 0))
}

/// Index of the end of the line of `s` that starts at `from`.
pub fn find_line_end(s: &Vec<char>, from: usize) -> (end: usize)
    requires
        from <= s@.len(),
    ensures
        end == line_end(s@, from as int),
{
    let len = s.len();
    let mut i = from;
    while len - i > 1
        invariant
            from <= i <= len,
            len == s@.len(),
            line_end(s@, from as int) == line_end(s@, i as int),
        decreases len - i,
    {
        if s[i] == '\r' && s[i + 1] == '\n' {
            return i;
        }
        i = i + 1;
    }
    len
}

/// `p` is a prefix of `s`.
pub open spec fn starts_with(s: Seq<char>, p: Seq<char>) -> bool {
    p.len() <= s.len() && s.subrange(0, p.len() as int) == p
}

/// Whether `s[from..end]` begins with `p`.
pub fn has_prefix_at(s: &Vec<char>, from: usize, end: usize, p: &Vec<char>) -> (b: bool)
    requires
        from <= end <= s@.len(),
    ensures
        b == starts_with(s@.subrange(from as int, end as int), p@),
{
    if p.len() > end - from {
        return false;
    }
    let mut k: usize = 0;
    while k < p.len()
        invariant
            from <= end <= s@.len(),
            p@.len() <= end - from,
            k <= p@.len(),
            forall|j: int| 0 <= j < k ==> s@[from + j] == p@[j],
        decreases p@.len() - k,
    {
        if s[from + k] != p[k] {
            assert(s@.subrange(from as int, end as int).subrange(0, p@.len() as int)[k as int] != p@[k as int]);
            return false;
        }
        k = k + 1;
    }
    assert(s@.subrange(from as int, end as int).subrange(0, p@.len() as int) =~= p@);
    true
}

/// Copies `s[from..end]` into a new `String`.
pub fn substring(s: &Vec<char>, from: usize, end: usize) -> (r: String)
    requires
        from <= end <= s@.len(),
    ensures
        r@ == s@.subrange(from as int, end as int),
{
    let mut v: Vec<char> = Vec::new();
    let mut i = from;
    while i < end
        invariant
            from <= i <= end <= s@.len(),
            v@ == s@.subrange(from as int, i as int),
        decreases end - i,
    {
        v.push(s[i]);
        i = i + 1;
        assert(v@ =~= s@.subrange(from as int, i as int));
    }
    crate::outside::string_from_chars(&v)
}


/// The characters of an optional string.
pub open spec fn opt_chars(o: Option<String>) -> Option<Seq<char>> {
    match o {
        Some(s) => Some(s@),
        None => None,
    }
}


/// Unicode `White_Space`, the property that `char::is_whitespace` tests.
pub open spec fn is_space(c: char) -> bool {
    let u = c as u32;
    ||| 0x9 <= u <= 0xD
    ||| u == 0x20
    ||| u == 0x85
    ||| u == 0xA0
    ||| u == 0x1680
    ||| 0x2000 <= u <= 0x200A
    ||| u == 0x2028
    ||| u == 0x2029
    ||| u == 0x202F
    ||| u == 0x205F
    ||| u == 0x3000
}

/// Whether `c` is white space in the sense of Unicode.
pub fn is_whitespace(c: char) -> (b: bool)
    ensures
        b == is_space(c),
{
    let u = c as u32;
    (0x9 <= u && u <= 0xD) || u == 0x20 || u == 0x85 || u == 0xA0 || u == 0x1680 || (0x2000
        <= u && u <= 0x200A) || u == 0x2028 || u == 0x2029 || u == 0x202F || u == 0x205F || u
        == 0x3000
}

/// The first index at or after `from` that holds no white space (or the end).
pub open spec fn skip_space(s: Seq<char>, from: int) -> int
    decreases s.len() - from,
{
    if from >= s.len() {
        s.len() as int
    } else if is_space(s[from]) {
        skip_space(s, from + 1)
    } else {
        from
    }
}

/// The first index at or after `from` that holds white space (or the end).
pub open spec fn word_end(s: Seq<char>, from: int) -> int
    decreases s.len() - from,
{
    if from >= s.len() {
        s.len() as int
    } else if is_space(s[from]) {
        from
    } else {
        word_end(s, from + 1)
    }
}

pub proof fn lemma_skip_space_bounds(s: Seq<char>, from: int)
    requires
        0 <= from <= s.len(),
    ensures
        from <= skip_space(s, from) <= s.len(),
        skip_space(s, from) < s.len() ==> !is_space(s[skip_space(s, from)]),
    decreases s.len() - from,
{
    if from < s.len() && is_space(s[from]) {
        lemma_skip_space_bounds(s, from + 1);
    }
}

pub proof fn lemma_word_end_bounds(s: Seq<char>, from: int)
    requires
        0 <= from <= s.len(),
    ensures
        from <= word_end(s, from) <= s.len(),
        from < s.len() && !is_space(s[from]) ==> from < word_end(s, from),
    decreases s.len() - from,
{
    if from < s.len() && !is_space(s[from]) {
        lemma_word_end_bounds(s, from + 1);
    }
}

/// `skip_space` computed over `s[..end]`.
pub fn find_non_space(s: &Vec<char>, from: usize, end: usize) -> (i: usize)
    requires
        from <= end <= s@.len(),
    ensures
        i == skip_space(s@.subrange(0, end as int), from as int),
{
    let ghost t = s@.subrange(0, end as int);
    let mut i = from;
    while i < end
        invariant
            from <= i <= end <= s@.len(),
            t == s@.subrange(0, end as int),
            skip_space(t, from as int) == skip_space(t, i as int),
        decreases end - i,
    {
        if !is_whitespace(s[i]) {
            return i;
        }
        i = i + 1;
    }
    i
}

/// `word_end` computed over `s[..end]`.
pub fn find_space(s: &Vec<char>, from: usize, end: usize) -> (i: usize)
    requires
        from <= end <= s@.len(),
    ensures
        i == word_end(s@.subrange(0, end as int), from as int),
{
    let ghost t = s@.subrange(0, end as int);
    let mut i = from;
    while i < end
        invariant
            from <= i <= end <= s@.len(),
            t == s@.subrange(0, end as int),
            word_end(t, from as int) == word_end(t, i as int),
        decreases end - i,
    {
        if is_whitespace(s[i]) {
            return i;
        }
        i = i + 1;
    }
    i
}

/// ASCII lower case of one character; other characters are left as they are.
pub open spec fn ascii_lower(c: char) -> char {
    if 'A' <= c <= 'Z' {
        ((c as u32) + 32) as char
    } else {
        c
    }
}

/// `a` and `b` are equal once ASCII letters are folded to lower case
/// (what `str::eq_ignore_ascii_case` tests).
pub open spec fn eq_ignore_ascii_case(a: Seq<char>, b: Seq<char>) -> bool {
    a.len() == b.len() && forall|i: int| 0 <= i < a.len() ==> ascii_lower(#[trigger] a[i]) == ascii_lower(b[i])
}

/// The ASCII lower case of one character.
pub fn to_ascii_lower(c: char) -> (r: char)
    ensures
        r == ascii_lower(c),
{
    if 'A' <= c && c <= 'Z' {
        let u = (c as u32) + 32;
        assert(0x61 <= u <= 0x7a);
        u as u8 as char
    } else {
        c
    }
}

/// Whether `s[from..end]` equals `w` once ASCII letters are folded to lower case.
pub fn range_eq_ignore_ascii_case(s: &Vec<char>, from: usize, end: usize, w: &Vec<char>) -> (b: bool)
    requires
        from <= end <= s@.len(),
    ensures
        b == eq_ignore_ascii_case(s@.subrange(from as int, end as int), w@),
{
    let ghost a = s@.subrange(from as int, end as int);
    if end - from != w.len() {
        return false;
    }
    let mut k: usize = 0;
    while k < w.len()
        invariant
            from <= end <= s@.len(),
            a == s@.subrange(from as int, end as int),
            a.len() == w@.len(),
            k <= w@.len(),
            forall|j: int| 0 <= j < k ==> ascii_lower(#[trigger] a[j]) == ascii_lower(w@[j]),
        decreases w@.len() - k,
    {
        if to_ascii_lower(s[from + k]) != to_ascii_lower(w[k]) {
            assert(ascii_lower(a[k as int]) != ascii_lower(w@[k as int]));
            return false;
        }
        k = k + 1;
    }
    true
}


/// Whether two character vectors hold the same characters.
pub fn chars_eq(a: &Vec<char>, b: &Vec<char>) -> (r: bool)
    ensures
        r == (a@ == b@),
{
    if a.len() != b.len() {
        return false;
    }
    let mut i: usize = 0;
    while i < a.len()
        invariant
            a@.len() == b@.len(),
            i <= a@.len(),
            forall|j: int| 0 <= j < i ==> a@[j] == b@[j],
        decreases a@.len() - i,
    {
        if a[i] != b[i] {
            return false;
        }
        i = i + 1;
    }
    assert(a@ =~= b@);
    true
}

/// Whether two strings hold the same characters.
pub fn str_eq(a: &str, b: &str) -> (r: bool)
    ensures
        r == (a@ == b@),
{
    chars_eq(&chars_of(a), &chars_of(b))
}

/// `line_end` is the first separator at or after `from`.
pub proof fn lemma_line_end_at(s: Seq<char>, from: int, n: int)
    requires
        0 <= from <= n,
        crlf_at(s, n),
        forall|j: int| from <= j < n ==> !crlf_at(s, j),
    ensures
        line_end(s, from) == n,
    decreases n - from,
{
    if from < n {
        lemma_line_end_at(s, from + 1, n);
    }
}


/// The index just past the last character of `s[..end]` that is not white space (0 when
/// there is none).
pub open spec fn trim_end_at(s: Seq<char>, end: int) -> int
    decreases end,
{
    if end <= 0 {
        0
    } else if is_space(s[end - 1]) {
        trim_end_at(s, end - 1)
    } else {
        end
    }
}

/// `s` without white space at either end (what `str::trim` gives).
pub open spec fn trimmed(s: Seq<char>) -> Seq<char> {
    let a = skip_space(s, 0);
    let b = trim_end_at(s, s.len() as int);
    if a >= b {
        Seq::empty()
    } else {
        s.subrange(a, b)
    }
}

/// The first word of `s`, split at white space; empty when `s` holds none.
pub open spec fn first_word(s: Seq<char>) -> Seq<char> {
    let a = skip_space(s, 0);
    s.subrange(a, word_end(s, a))
}

pub proof fn lemma_trim_end_bounds(s: Seq<char>, end: int)
    requires
        0 <= end <= s.len(),
    ensures
        0 <= trim_end_at(s, end) <= end,
        trim_end_at(s, end) > 0 ==> !is_space(s[trim_end_at(s, end) - 1]),
    decreases end,
{
    if end > 0 && is_space(s[end - 1]) {
        lemma_trim_end_bounds(s, end - 1);
    }
}

/// `trim_end_at` computed.
pub fn find_trim_end(s: &Vec<char>) -> (e: usize)
    ensures
        e == trim_end_at(s@, s@.len() as int),
{
    let mut e = s.len();
    while e > 0
        invariant
            e <= s@.len(),
            trim_end_at(s@, s@.len() as int) == trim_end_at(s@, e as int),
        decreases e,
    {
        if !is_whitespace(s[e - 1]) {
            return e;
        }
        e = e - 1;
    }
    0
}

/// `s` without white space at either end.
pub fn trim_chars(s: &Vec<char>) -> (t: Vec<char>)
    ensures
        t@ == trimmed(s@),
{
    let a = find_non_space(s, 0, s.len());
    assert(s@.subrange(0, s@.len() as int) =~= s@);
    let b = find_trim_end(s);
    let mut t: Vec<char> = Vec::new();
    if a >= b {
        return t;
    }
    proof {
        lemma_skip_space_bounds(s@, 0);
        lemma_trim_end_bounds(s@, s@.len() as int);
    }
    let mut i = a;
    while i < b
        invariant
            a <= i <= b <= s@.len(),
            t@ == s@.subrange(a as int, i as int),
        decreases b - i,
    {
        t.push(s[i]);
        i = i + 1;
        assert(t@ =~= s@.subrange(a as int, i as int));
    }
    t
}

/// Whether `s` begins with `p`.
pub fn vec_starts_with(s: &Vec<char>, p: &Vec<char>) -> (r: bool)
    ensures
        r == starts_with(s@, p@),
{
    assert(s@.subrange(0, s@.len() as int) =~= s@);
    has_prefix_at(s, 0, s.len(), p)
}

/// `s[from..]` as a new vector.
pub fn skip_chars(s: &Vec<char>, from: usize) -> (t: Vec<char>)
    requires
        from <= s@.len(),
    ensures
        t@ == s@.skip(from as int),
{
    let mut t: Vec<char> = Vec::new();
    let mut i = from;
    while i < s.len()
        invariant
            from <= i <= s@.len(),
            t@ == s@.subrange(from as int, i as int),
        decreases s@.len() - i,
    {
        t.push(s[i]);
        i = i + 1;
        assert(t@ =~= s@.subrange(from as int, i as int));
    }
    assert(t@ =~= s@.skip(from as int));
    t
}

/// `s` with every occurrence of `m` removed, occurrences taken from the left without
/// overlap (what `str::replace(m, "")` gives).
pub open spec fn remove_all(s: Seq<char>, m: Seq<char>) -> Seq<char>
    decreases s.len(),
{
    if s.len() == 0 {
        s
    } else if m.len() > 0 && starts_with(s, m) {
        remove_all(s.skip(m.len() as int), m)
    } else {
        seq![s[0]] + remove_all(s.skip(1), m)
    }
}

/// `s` with every occurrence of `m` removed.
pub fn remove_occurrences(s: &Vec<char>, m: &Vec<char>) -> (r: Vec<char>)
    requires
        m@.len() > 0,
    ensures
        r@ == remove_all(s@, m@),
{
    let len = s.len();
    let mut out: Vec<char> = Vec::new();
    let mut i: usize = 0;
    assert(s@.skip(0) =~= s@);
    assert(out@ + remove_all(s@, m@) =~= remove_all(s@, m@));
    while i < len
        invariant
            len == s@.len(),
            i <= len,
            m@.len() > 0,
            out@ + remove_all(s@.skip(i as int), m@) == remove_all(s@, m@),
        decreases len - i,
    {
        let ghost rest = s@.skip(i as int);
        assert(s@.subrange(i as int, len as int) =~= rest);
        if has_prefix_at(s, i, len, m) {
            assert(rest.skip(m@.len() as int) =~= s@.skip(i + m@.len()));
            i = i + m.len();
        } else {
            assert(rest.skip(1) =~= s@.skip(i + 1));
            assert(seq![rest[0]] =~= seq![s@[i as int]]);
            let ghost before = out@;
            out.push(s[i]);
            assert(out@ + remove_all(s@.skip(i + 1), m@) =~= before + (seq![rest[0]] + remove_all(
                rest.skip(1),
                m@,
            )));
            i = i + 1;
        }
    }
    assert(s@.skip(len as int) =~= Seq::<char>::empty());
    assert(out@ + Seq::<char>::empty() =~= out@);
    out
}

} // verus!
