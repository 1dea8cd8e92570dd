//! Character-sequence utilities: substring search, ASCII case folding, blank
//! detection and splitting into fields. Every contract is stated over
//! `Seq<char>`, the view of `str` and `String`.

use vstd::prelude::*;

verus! {

/// `needle` occurs in `hay` starting at index `at`.
pub open spec fn occurs_at(hay: Seq<char>, needle: Seq<char>, at: int) -> bool {
    &&& 0 <= at
    &&& at + needle.len() <= hay.len()
    &&& hay.subrange(at, at + needle.len()) == needle
}

/// `needle` occurs somewhere in `hay`.
pub open spec fn contains(hay: Seq<char>, needle: Seq<char>) -> bool {
    exists|at: int| occurs_at(hay, needle, at)
}

/// Number of occurrences of `needle` in `hay` found by scanning from index
/// `from` to the right, each occurrence starting after the previous one ends.
/// An empty needle is never counted.
pub open spec fn match_count_from(hay: Seq<char>, needle: Seq<char>, from: int) -> nat
    decreases hay.len() - from,
{
    if needle.len() == 0 || from < 0 || from + needle.len() > hay.len() {
        0
    } else if occurs_at(hay, needle, from) {
        1 + match_count_from(hay, needle, from + needle.len())
    } else {
        match_count_from(hay, needle, from + 1)
    }
}

/// Number of non-overlapping occurrences of `needle` in `hay`, left to right.
pub open spec fn match_count(hay: Seq<char>, needle: Seq<char>) -> nat {
    match_count_from(hay, needle, 0)
}

/// The ASCII lower-case form of a character; only `'A'..='Z'` change.
pub open spec fn lower_ascii(c: char) -> char {
    if 'A' <= c && c <= 'Z' {
        ((c as u8) + 32) as char
    } else {
        c
    }
}

/// A text with every ASCII upper-case letter replaced by its lower-case form.
pub open spec fn fold_ascii(s: Seq<char>) -> Seq<char> {
    Seq::new(s.len(), |i: int| lower_ascii(s[i]))
}

/// `needle` occurs in `hay` when ASCII letter case in `hay` is ignored.
/// `needle` is compared as given, so it should be lower-case already.
pub open spec fn contains_folded(hay: Seq<char>, needle: Seq<char>) -> bool {
    contains(fold_ascii(hay), needle)
}

/// The characters that carry the Unicode `White_Space` property.
pub open spec fn is_white_space(c: char) -> bool {
    let n = c as u32;
    ||| 0x09 <= n <= 0x0D
    ||| n == 0x20
    ||| n == 0x85
    ||| n == 0xA0
    ||| n == 0x1680
    ||| 0x2000 <= n <= 0x200A
    ||| n == 0x2028
    ||| n == 0x2029
    ||| n == 0x202F
    ||| n == 0x205F
    ||| n == 0x3000
}

/// A text is blank when it holds nothing but white space.
pub open spec fn is_blank(s: Seq<char>) -> bool {
    forall|i: int| 0 <= i < s.len() ==> is_white_space(#[trigger] s[i])
}

/// Index of the first `c` in `s` at or after `from`; the length of `s` where
/// there is none.
pub open spec fn first_index(s: Seq<char>, c: char, from: int) -> int
    decreases s.len() - from,
{
    if from < 0 || from >= s.len() {
        s.len() as int
    } else if s[from] == c {
        from
    } else {
        first_index(s, c, from + 1)
    }
}

/// The fields of `s` between occurrences of `sep`: one more field than there
/// are separators, so an empty text has one empty field.
pub open spec fn split(s: Seq<char>, sep: char) -> Seq<Seq<char>>
    decreases s.len(),
{
    let at = first_index(s, sep, 0);
    if 0 <= at < s.len() {
        seq![s.take(at)] + split(s.skip(at + 1), sep)
    } else {
        seq![s]
    }
}

/// The characters of a string slice, in order.
pub fn chars_of(s: &str) -> (v: Vec<char>)
    ensures
        v@ == s@,
{
    broadcast use vstd::string::group_string_axioms;

    let mut v: Vec<char> = Vec::new();
    for c in it: s.chars()
        invariant
            v@ == it.seq().take(it.index() as int),
            it.seq() == s@,
    {
        v.push(c);
    }
    v
}

/// Tests whether `needle` occurs in `hay` at index `at`.
pub fn starts_at(hay: &[char], needle: &[char], at: usize) -> (r: bool)
    ensures
        r == occurs_at(hay@, needle@, at as int),
{
    if needle.len() > hay.len() || at > hay.len() - needle.len() {
        return false;
    }
    let mut k: usize = 0;
    while k < needle.len()
        invariant
            k <= needle.len(),
            at + needle.len() <= hay.len(),
            forall|j: int| 0 <= j < k ==> hay@[at + j] == needle@[j],
        decreases needle.len() - k,
    {
        if hay[at + k] != needle[k] {
            assert(hay@.subrange(at as int, at + needle.len())[k as int] == hay@[at + k]);
            return false;
        }
        k += 1;
    }
    assert(hay@.subrange(at as int, at + needle.len()) =~= needle@);
    true
}

/// Finds the first index at or after `from` where `needle` occurs in `hay`.
pub fn find_from(hay: &[char], needle: &[char], from: usize) -> (r: Option<usize>)
    ensures
        match r {
            Some(at) => {
                &&& from <= at
                &&& occurs_at(hay@, needle@, at as int)
                &&& forall|k: int| from <= k < at ==> !occurs_at(hay@, needle@, k)
            },
            None => forall|k: int| from <= k ==> !occurs_at(hay@, needle@, k),
        },
{
    if needle.len() > hay.len() {
        return None;
    }
    let last: usize = hay.len() - needle.len();
    let mut at: usize = from;
    while at <= last
        invariant
            from <= at,
            last == hay.len() - needle.len(),
            forall|k: int| from <= k < at ==> !occurs_at(hay@, needle@, k),
        decreases last + 1 - at,
    {
        if starts_at(hay, needle, at) {
            return Some(at);
        }
        if at == last {
            return None;
        }
        at += 1;
    }
    None
}

/// Tests whether `needle` occurs anywhere in `hay`.
pub fn contains_chars(hay: &[char], needle: &[char]) -> (r: bool)
    ensures
        r == contains(hay@, needle@),
{
    match find_from(hay, needle, 0) {
        Some(at) => true,
        None => false,
    }
}

/// Counts the non-overlapping occurrences of `needle` in `hay`.
pub fn count_matches(hay: &[char], needle: &[char]) -> (n: usize)
    ensures
        n == match_count(hay@, needle@),
{
    if needle.len() == 0 || needle.len() > hay.len() {
        return 0;
    }
    let last: usize = hay.len() - needle.len();
    let mut at: usize = 0;
    let mut n: usize = 0;
    while at <= last
        invariant
            needle.len() > 0,
            last == hay.len() - needle.len(),
            n <= at,
            at <= hay.len(),
            n + match_count_from(hay@, needle@, at as int) == match_count(hay@, needle@),
        decreases hay.len() - at,
    {
        if starts_at(hay, needle, at) {
            n += 1;
            at += needle.len();
        } else {
            at += 1;
        }
    }
    n
}

/// The ASCII lower-case form of one character.
pub fn to_lower_ascii(c: char) -> (r: char)
    ensures
        r == lower_ascii(c),
{
    if 'A' <= c && c <= 'Z' {
        ((c as u8) + 32) as char
    } else {
        c
    }
}

/// Folds the ASCII upper-case letters of a text to lower case.
pub fn fold_chars(s: &[char]) -> (r: Vec<char>)
    ensures
        r@ == fold_ascii(s@),
{
    let mut r: Vec<char> = Vec::new();
    let mut i: usize = 0;
    while i < s.len()
        invariant
            i <= s.len(),
            r@.len() == i,
            forall|j: int| 0 <= j < i ==> r@[j] == lower_ascii(s@[j]),
        decreases s.len() - i,
    {
        r.push(to_lower_ascii(s[i]));
        i += 1;
    }
    assert(r@ =~= fold_ascii(s@));
    r
}

/// Tests whether a character is Unicode white space.
pub fn white_space(c: char) -> (r: bool)
    ensures
        r == is_white_space(c),
{
    let n: u32 = c as u32;
    (0x09 <= n && n <= 0x0D) || n == 0x20 || n == 0x85 || n == 0xA0 || n == 0x1680 || (0x2000 <= n
        && n <= 0x200A) || n == 0x2028 || n == 0x2029 || n == 0x202F || n == 0x205F || n == 0x3000
}

/// Tests whether a text holds nothing but white space.
pub fn blank(s: &[char]) -> (r: bool)
    ensures
        r == is_blank(s@),
{
    let mut i: usize = 0;
    while i < s.len()
        invariant
            i <= s.len(),
            forall|j: int| 0 <= j < i ==> is_white_space(#[trigger] s@[j]),
        decreases s.len() - i,
    {
        if !white_space(s[i]) {
            return false;
        }
        i += 1;
    }
    true
}

/// Tests whether two character sequences are the same.
pub fn chars_eq(a: &[char], b: &[char]) -> (r: bool)
    ensures
        r == (a@ == b@),
{
    if a.len() != b.len() {
        return false;
    }
    let r = starts_at(a, b, 0);
    assert(a@.subrange(0, a@.len() as int) =~= a@);
    r
}

/// Tests whether two string slices hold the same text.
pub fn str_eq(a: &str, b: &str) -> (r: bool)
    ensures
        r == (a@ == b@),
{
    let x = chars_of(a);
    let y = chars_of(b);
    chars_eq(x.as_slice(), y.as_slice())
}

/// Tests whether `needle` occurs anywhere in `hay`.
pub fn str_contains(hay: &str, needle: &str) -> (r: bool)
    ensures
        r == contains(hay@, needle@),
{
    let h = chars_of(hay);
    let n = chars_of(needle);
    contains_chars(h.as_slice(), n.as_slice())
}

/// Tests whether `needle` occurs in `hay` when the ASCII letter case of
/// `hay` is ignored.
pub fn str_contains_folded(hay: &str, needle: &str) -> (r: bool)
    ensures
        r == contains_folded(hay@, needle@),
{
    let h = chars_of(hay);
    let folded = fold_chars(h.as_slice());
    let n = chars_of(needle);
    contains_chars(folded.as_slice(), n.as_slice())
}

/// Splits a text into its fields between occurrences of `sep`.
pub fn split_fields(s: &str, sep: char) -> (r: Vec<String>)
    ensures
        r.deep_view() == split(s@, sep),
{
    let chars = chars_of(s);
    let n = chars.len();
    let mut out: Vec<String> = Vec::new();
    let mut start: usize = 0;
    let mut i: usize = 0;
    assert(s@.skip(0) =~= s@);
    assert(out.deep_view() =~= Seq::<Seq<char>>::empty());
    while i < n
        invariant
            chars@ == s@,
            n == chars.len(),
            start <= i <= n,
            forall|j: int| start <= j < i ==> s@[j] != sep,
            split(s@, sep) == out.deep_view() + split(s@.skip(start as int), sep),
        decreases n - i,
    {
        if chars[i] == sep {
            let field = String::from_str(s.substring_char(start, i));
            let ghost rest = s@.skip(start as int);
            let ghost before = out.deep_view();
            proof {
                lemma_first_index_skips(rest, sep, 0, i - start);
                assert(rest.take(i - start) =~= s@.subrange(start as int, i as int));
                assert(rest.skip(i - start + 1) =~= s@.skip(i + 1));
            }
            out.push(field);
            proof {
                assert(out.deep_view() =~= before.push(field@));
                assert(before.push(field@) + split(s@.skip(i + 1), sep) =~= before + split(
                    rest,
                    sep,
                ));
            }
            start = i + 1;
        }
        i += 1;
    }
    let field = String::from_str(s.substring_char(start, n));
    let ghost rest = s@.skip(start as int);
    let ghost before = out.deep_view();
    proof {
        lemma_first_index_skips(rest, sep, 0, n - start);
        assert(rest =~= s@.subrange(start as int, n as int));
    }
    out.push(field);
    proof {
        assert(out.deep_view() =~= before.push(field@));
        assert(before.push(field@) =~= before + split(rest, sep));
    }
    out
}

/// Counting from `from` finds an occurrence exactly when one starts at or
/// after `from`.
pub proof fn lemma_count_positive(hay: Seq<char>, needle: Seq<char>, from: int)
    requires
        needle.len() > 0,
        0 <= from,
    ensures
        match_count_from(hay, needle, from) > 0 <==> exists|at: int|
            from <= at && occurs_at(hay, needle, at),
    decreases hay.len() - from,
{
    if from + needle.len() > hay.len() {
    } else if occurs_at(hay, needle, from) {
    } else {
        lemma_count_positive(hay, needle, from + 1);
        if match_count_from(hay, needle, from) > 0 {
            let at = choose|at: int| from + 1 <= at && occurs_at(hay, needle, at);
            assert(from <= at && occurs_at(hay, needle, at));
        }
        if exists|at: int| from <= at && occurs_at(hay, needle, at) {
            let at = choose|at: int| from <= at && occurs_at(hay, needle, at);
            assert(from + 1 <= at && occurs_at(hay, needle, at));
        }
    }
}

/// A text holds at least one counted occurrence of a non-empty needle exactly
/// when it contains the needle.
pub proof fn lemma_count_is_contains(hay: Seq<char>, needle: Seq<char>)
    requires
        needle.len() > 0,
    ensures
        match_count(hay, needle) > 0 <==> contains(hay, needle),
{
    lemma_count_positive(hay, needle, 0);
    if contains(hay, needle) {
        let at = choose|at: int| occurs_at(hay, needle, at);
        assert(0 <= at && occurs_at(hay, needle, at));
    }
}

/// A text that contains, letter case aside, a needle starting with a
/// character that is not white space is not blank.
pub proof fn lemma_marker_is_not_blank(hay: Seq<char>, needle: Seq<char>)
    requires
        needle.len() > 0,
        !is_white_space(needle[0]),
        contains_folded(hay, needle),
    ensures
        !is_blank(hay),
{
    let at = choose|at: int| occurs_at(fold_ascii(hay), needle, at);
    assert(fold_ascii(hay).subrange(at, at + needle.len())[0] == needle[0]);
    assert(fold_ascii(hay)[at] == lower_ascii(hay[at]));
    assert(!is_white_space(hay[at]));
}

/// Skipping characters other than `c` does not change where the first `c` is.
pub proof fn lemma_first_index_skips(s: Seq<char>, c: char, from: int, to: int)
    requires
        0 <= from <= to <= s.len(),
        forall|j: int| from <= j < to ==> s[j] != c,
    ensures
        first_index(s, c, from) == first_index(s, c, to),
    decreases to - from,
{
    if from < to {
        lemma_first_index_skips(s, c, from + 1, to);
    }
}

} // verus!
