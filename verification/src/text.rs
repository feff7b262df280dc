//! Text as a sequence of characters: the pieces of string handling that the
//! detection rules are stated in.

use vstd::prelude::*;
use vstd::string::StrSliceExecFns;

verus! {

/// ASCII whitespace: space, tab, line feed, form feed and carriage return.
pub open spec fn is_ascii_space(c: char) -> bool {
    c == ' ' || c == '\t' || c == '\n' || c == '\x0C' || c == '\r'
}

/// `s` without its leading ASCII whitespace.
pub open spec fn trim_start(s: Seq<char>) -> Seq<char>
    decreases s.len(),
{
    if s.len() > 0 && is_ascii_space(s[0]) {
        trim_start(s.drop_first())
    } else {
        s
    }
}

/// `s` without its trailing ASCII whitespace.
pub open spec fn trim_end(s: Seq<char>) -> Seq<char>
    decreases s.len(),
{
    if s.len() > 0 && is_ascii_space(s.last()) {
        trim_end(s.drop_last())
    } else {
        s
    }
}

/// `s` without leading and trailing ASCII whitespace.
pub open spec fn trimmed(s: Seq<char>) -> Seq<char> {
    trim_end(trim_start(s))
}

/// Whether `needle` stands in `s` at position `at`.
pub open spec fn occurs_at(s: Seq<char>, needle: Seq<char>, at: int) -> bool {
    0 <= at && at + needle.len() <= s.len() && s.subrange(at, at + needle.len()) == needle
}

/// Whether `needle` stands somewhere in `s`.
pub open spec fn has_substring(s: Seq<char>, needle: Seq<char>) -> bool {
    exists|at: int| occurs_at(s, needle, at)
}

/// The position of the first `c` in `s`, or the length of `s` where there is none.
pub open spec fn find(s: Seq<char>, c: char) -> int
    decreases s.len(),
{
    if s.len() == 0 || s[0] == c {
        0
    } else {
        1 + find(s.drop_first(), c)
    }
}

/// The piece of `s` before its first `c`; all of `s` where there is none.
pub open spec fn before_first(s: Seq<char>, c: char) -> Seq<char> {
    s.take(find(s, c))
}

/// The piece of `s` after its last `c`; all of `s` where there is none.
pub open spec fn after_last(s: Seq<char>, c: char) -> Seq<char>
    decreases s.len(),
{
    if s.len() == 0 {
        s
    } else if s.last() == c {
        Seq::empty()
    } else {
        after_last(s.drop_last(), c).push(s.last())
    }
}

/// `s` without the leading `prefix`; `s` itself where it does not begin with it.
pub open spec fn without_prefix(s: Seq<char>, prefix: Seq<char>) -> Seq<char> {
    if prefix.is_prefix_of(s) {
        s.skip(prefix.len() as int)
    } else {
        s
    }
}

/// Whether `c` is one of the digits `0` to `9`.
pub open spec fn is_digit(c: char) -> bool {
    '0' <= c <= '9'
}

/// The number that a string of decimal digits writes.
pub open spec fn digits_value(s: Seq<char>) -> nat
    decreases s.len(),
{
    if s.len() == 0 {
        0
    } else {
        (digits_value(s.drop_last()) * 10 + (s.last() as u32 - '0' as u32)) as nat
    }
}

/// Whether every character of `s` is a decimal digit.
pub open spec fn all_digits(s: Seq<char>) -> bool {
    forall|i: int| 0 <= i < s.len() ==> is_digit(#[trigger] s[i])
}

/// `s` without one leading `+`.
pub open spec fn unsigned_body(s: Seq<char>) -> Seq<char> {
    if s.len() > 0 && s[0] == '+' {
        s.skip(1)
    } else {
        s
    }
}

/// The number that `s` writes in decimal, where it writes one that fits in 32
/// bits: an optional `+`, then at least one digit, and nothing else.
pub open spec fn parsed_u32(s: Seq<char>) -> Option<u32> {
    let body = unsigned_body(s);
    if body.len() > 0 && all_digits(body) && digits_value(body) <= u32::MAX {
        Some(digits_value(body) as u32)
    } else {
        None
    }
}

/// The lowercase form of a text, as the Unicode character database defines it.
pub uninterp spec fn lowercase(s: Seq<char>) -> Seq<char>;

/// Whether `c` is an ASCII character and no capital letter.
pub open spec fn is_plain_char(c: char) -> bool {
    c <= '\x7f' && !('A' <= c <= 'Z')
}

/// Whether `s` is plain: it holds ASCII characters only, and no capital
/// letter among them. A plain text is in lowercase as it stands.
pub open spec fn is_plain(s: Seq<char>) -> bool {
    forall|i: int| 0 <= i < s.len() ==> is_plain_char(#[trigger] s[i])
}

/// `s` in lowercase: `s` itself where it is plain, and else its lowercase
/// form.
pub open spec fn lowered(s: Seq<char>) -> Seq<char> {
    if is_plain(s) {
        s
    } else {
        lowercase(s)
    }
}

/// Calls `str::to_lowercase` of the standard library. Believed, not proved:
/// the result is the lowercase form of `s`, which is named and not written out.
#[verifier::external_body]
fn to_lowercase(s: &str) -> (r: String)
    ensures
        r@ == lowercase(s@),
{
    s.to_lowercase()
}

/// Whether `s` is plain.
pub fn is_plain_text(s: &str) -> (r: bool)
    ensures
        r == is_plain(s@),
{
    let v = chars(s);
    let n = v.len();
    let mut at: usize = 0;
    while at < n
        invariant
            at <= n,
            n == v.len(),
            v@ == s@,
            forall|i: int| 0 <= i < at ==> is_plain_char(#[trigger] v@[i]),
        decreases n - at,
    {
        let c = v[at];
        if c > '\x7f' || ('A' <= c && c <= 'Z') {
            return false;
        }
        at += 1;
    }
    true
}

/// `s` in lowercase. A plain text is copied; any other is handed to the
/// standard library.
pub fn to_lowered(s: &str) -> (r: String)
    ensures
        r@ == lowered(s@),
{
    if is_plain_text(s) {
        s.to_owned()
    } else {
        to_lowercase(s)
    }
}

/// The characters of `s`.
pub fn chars(s: &str) -> (out: Vec<char>)
    ensures
        out@ == s@,
{
    let mut out: Vec<char> = Vec::new();
    for c in it: s.chars()
        invariant
            it.seq() == s@,
            out@ == s@.take(it.index() as int),
    {
        out.push(c);
    }
    out
}

fn is_space(c: char) -> (r: bool)
    ensures
        r == is_ascii_space(c),
{
    c == ' ' || c == '\t' || c == '\n' || c == '\x0C' || c == '\r'
}

proof fn lemma_trim_start_skips(s: Seq<char>, n: int)
    requires
        0 <= n <= s.len(),
        forall|i: int| 0 <= i < n ==> is_ascii_space(#[trigger] s[i]),
    ensures
        trim_start(s) == trim_start(s.skip(n)),
    decreases n,
{
    if n > 0 {
        assert(s.drop_first().skip(n - 1) =~= s.skip(n));
        lemma_trim_start_skips(s.drop_first(), n - 1);
    } else {
        assert(s.skip(0) =~= s);
    }
}

proof fn lemma_trim_end_takes(s: Seq<char>, n: int)
    requires
        0 <= n <= s.len(),
        forall|i: int| n <= i < s.len() ==> is_ascii_space(#[trigger] s[i]),
    ensures
        trim_end(s) == trim_end(s.take(n)),
    decreases s.len() - n,
{
    if n < s.len() {
        assert(s.drop_last().take(n) =~= s.take(n));
        lemma_trim_end_takes(s.drop_last(), n);
    } else {
        assert(s.take(n) =~= s);
    }
}

/// `s` without leading and trailing ASCII whitespace.
pub fn trim_ascii(s: &str) -> (r: &str)
    ensures
        r@ == trimmed(s@),
{
    let v = chars(s);
    let n = v.len();
    let mut start: usize = 0;
    while start < n && is_space(v[start])
        invariant
            start <= n,
            n == v.len(),
            forall|i: int| 0 <= i < start ==> is_ascii_space(#[trigger] v@[i]),
        decreases n - start,
    {
        start += 1;
    }
    let mut end: usize = n;
    while end > start && is_space(v[end - 1])
        invariant
            start <= end <= n,
            n == v.len(),
            forall|i: int| end <= i < n ==> is_ascii_space(#[trigger] v@[i]),
        decreases end,
    {
        end -= 1;
    }
    proof {
        let rest = v@.skip(start as int);
        lemma_trim_start_skips(v@, start as int);
        assert(trim_start(v@) == rest) by {
            if start < n {
                assert(rest[0] == v@[start as int]);
            }
        }
        assert forall|i: int| end - start <= i < rest.len() implies is_ascii_space(
            #[trigger] rest[i],
        ) by {
            assert(rest[i] == v@[i + start]);
        }
        lemma_trim_end_takes(rest, end - start);
        let mid = rest.take(end - start);
        assert(trim_end(mid) == mid) by {
            if end > start {
                assert(mid.last() == v@[end - 1]);
            }
        }
        assert(mid =~= v@.subrange(start as int, end as int));
    }
    s.substring_char(start, end)
}

/// Whether `needle` stands in `hay` at position `at`.
pub(crate) fn matches_at(hay: &Vec<char>, at: usize, needle: &Vec<char>) -> (r: bool)
    requires
        at + needle.len() <= hay.len(),
    ensures
        r == occurs_at(hay@, needle@, at as int),
{
    let m = needle.len();
    let mut k: usize = 0;
    while k < m
        invariant
            k <= m,
            m == needle.len(),
            at + m <= hay.len(),
            forall|j: int| 0 <= j < k ==> hay@[at + j] == needle@[j],
        decreases m - k,
    {
        if hay[at + k] != needle[k] {
            proof {
                assert(hay@.subrange(at as int, at + m)[k as int] == hay@[at + k]);
            }
            return false;
        }
        k += 1;
    }
    proof {
        assert(hay@.subrange(at as int, at + m) =~= needle@);
    }
    true
}

/// Whether `needle` stands somewhere in the piece of `hay` from `from` to `to`.
pub(crate) fn contains_in(hay: &Vec<char>, from: usize, to: usize, needle: &Vec<char>) -> (r: bool)
    requires
        from <= to <= hay.len(),
    ensures
        r == has_substring(hay@.subrange(from as int, to as int), needle@),
{
    let m = needle.len();
    let ghost piece = hay@.subrange(from as int, to as int);
    if m > to - from {
        return false;
    }
    let last = to - m;
    let mut at: usize = from;
    loop
        invariant
            from <= at <= last,
            last == to - m,
            m == needle.len(),
            from <= to <= hay.len(),
            piece == hay@.subrange(from as int, to as int),
            forall|j: int| 0 <= j < at - from ==> !occurs_at(piece, needle@, j),
        decreases last - at,
    {
        let here = matches_at(hay, at, needle);
        proof {
            assert(piece.subrange(at - from, at - from + m) =~= hay@.subrange(
                at as int,
                at + m,
            ));
        }
        if here {
            assert(occurs_at(piece, needle@, at - from));
            return true;
        }
        if at == last {
            return false;
        }
        at += 1;
    }
}

/// Whether `needle` stands somewhere in `s`.
pub fn contains(s: &str, needle: &str) -> (r: bool)
    ensures
        r == has_substring(s@, needle@),
{
    let hay = chars(s);
    let pattern = chars(needle);
    proof {
        assert(hay@.subrange(0, hay@.len() as int) =~= hay@);
    }
    contains_in(&hay, 0, hay.len(), &pattern)
}

/// `s` without the leading `prefix`; `s` itself where it does not begin with it.
pub fn strip_prefix<'a>(s: &'a str, prefix: &str) -> (r: &'a str)
    ensures
        r@ == without_prefix(s@, prefix@),
{
    let hay = chars(s);
    let pattern = chars(prefix);
    if pattern.len() <= hay.len() && matches_at(&hay, 0, &pattern) {
        proof {
            assert(s@.subrange(pattern@.len() as int, hay@.len() as int) =~= s@.skip(
                pattern@.len() as int,
            ));
        }
        s.substring_char(pattern.len(), hay.len())
    } else {
        s
    }
}

/// A text that begins and ends with something other than ASCII whitespace,
/// or is empty, is trimmed as it stands.
pub proof fn lemma_trimmed_whole(s: Seq<char>)
    requires
        s.len() > 0 ==> !is_ascii_space(s[0]) && !is_ascii_space(s.last()),
    ensures
        trimmed(s) == s,
{
}

/// A text without `c` is in one piece: all of it comes after the last `c`
/// and before the first.
pub proof fn lemma_one_piece(s: Seq<char>, c: char)
    requires
        forall|i: int| 0 <= i < s.len() ==> s[i] != c,
    ensures
        after_last(s, c) == s,
        before_first(s, c) == s,
{
    lemma_after_last(s, c, 0);
    assert(s.take(0) =~= Seq::<char>::empty());
    assert(Seq::<char>::empty() + s.skip(0) =~= s);
    lemma_find_is(s, c, s.len() as int);
    assert(s.take(s.len() as int) =~= s);
}

/// Whether two texts are the same.
pub fn equal(a: &str, b: &str) -> (r: bool)
    ensures
        r == (a@ == b@),
{
    let left = chars(a);
    let right = chars(b);
    if left.len() != right.len() {
        return false;
    }
    let same = matches_at(&left, 0, &right);
    proof {
        assert(left@.subrange(0, left@.len() as int) =~= left@);
    }
    same
}

proof fn lemma_find(s: Seq<char>, c: char)
    ensures
        0 <= find(s, c) <= s.len(),
        find(s, c) < s.len() ==> s[find(s, c)] == c,
        forall|i: int| 0 <= i < find(s, c) ==> s[i] != c,
    decreases s.len(),
{
    if s.len() > 0 && s[0] != c {
        lemma_find(s.drop_first(), c);
        assert forall|i: int| 0 <= i < find(s, c) implies s[i] != c by {
            if i > 0 {
                assert(s[i] == s.drop_first()[i - 1]);
            }
        }
    }
}

proof fn lemma_find_is(s: Seq<char>, c: char, at: int)
    requires
        0 <= at <= s.len(),
        forall|i: int| 0 <= i < at ==> s[i] != c,
        at < s.len() ==> s[at] == c,
    ensures
        find(s, c) == at,
{
    lemma_find(s, c);
}

/// The position of the first `c` at or after `from` in `v`, or the length of
/// `v` where there is none.
pub(crate) fn find_from(v: &Vec<char>, from: usize, c: char) -> (at: usize)
    requires
        from <= v.len(),
    ensures
        from <= at <= v.len(),
        at - from == find(v@.skip(from as int), c),
{
    let n = v.len();
    let mut at: usize = from;
    while at < n && v[at] != c
        invariant
            from <= at <= n,
            n == v.len(),
            forall|i: int| from <= i < at ==> v@[i] != c,
        decreases n - at,
    {
        at += 1;
    }
    proof {
        lemma_find_is(v@.skip(from as int), c, at - from);
    }
    at
}

/// The piece of `s` before its first `c`; all of `s` where there is none.
pub fn take_before_first(s: &str, c: char) -> (r: &str)
    ensures
        r@ == before_first(s@, c),
{
    let v = chars(s);
    let at = find_from(&v, 0, c);
    proof {
        assert(v@.skip(0) =~= v@);
        assert(s@.subrange(0, at as int) =~= s@.take(at as int));
    }
    s.substring_char(0, at)
}

proof fn lemma_after_last(s: Seq<char>, c: char, from: int)
    requires
        0 <= from <= s.len(),
        forall|i: int| from <= i < s.len() ==> s[i] != c,
    ensures
        after_last(s, c) == after_last(s.take(from), c) + s.skip(from),
    decreases s.len() - from,
{
    if from < s.len() {
        assert(s.drop_last().take(from) =~= s.take(from));
        lemma_after_last(s.drop_last(), c, from);
        assert(after_last(s.take(from), c) + s.skip(from) =~= (after_last(s.take(from), c)
            + s.drop_last().skip(from)).push(s.last()));
    } else {
        assert(s.take(from) =~= s);
        assert(after_last(s, c) + s.skip(from) =~= after_last(s, c));
    }
}

/// The piece of `s` after its last `c`; all of `s` where there is none.
pub fn take_after_last(s: &str, c: char) -> (r: &str)
    ensures
        r@ == after_last(s@, c),
{
    let v = chars(s);
    let n = v.len();
    let mut from: usize = n;
    while from > 0 && v[from - 1] != c
        invariant
            from <= n,
            n == v.len(),
            forall|i: int| from <= i < n ==> v@[i] != c,
        decreases from,
    {
        from -= 1;
    }
    proof {
        lemma_after_last(v@, c, from as int);
        let head = v@.take(from as int);
        if from > 0 {
            assert(head.last() == c);
        }
        assert(after_last(head, c) =~= Seq::<char>::empty());
        assert(Seq::<char>::empty() + v@.skip(from as int) =~= v@.subrange(from as int, n as int));
    }
    s.substring_char(from, n)
}

proof fn lemma_digits_value_grows(s: Seq<char>, n: int)
    requires
        0 <= n <= s.len(),
        all_digits(s),
    ensures
        digits_value(s.take(n)) <= digits_value(s),
    decreases s.len() - n,
{
    if n < s.len() {
        assert(s.drop_last().take(n) =~= s.take(n));
        assert(all_digits(s.drop_last())) by {
            assert forall|i: int| 0 <= i < s.drop_last().len() implies is_digit(
                #[trigger] s.drop_last()[i],
            ) by {
                assert(s.drop_last()[i] == s[i]);
            }
        }
        lemma_digits_value_grows(s.drop_last(), n);
        assert(is_digit(s[s.len() - 1]));
    } else {
        assert(s.take(n) =~= s);
    }
}

/// The number that `s` writes in decimal, if it writes one that fits in 32 bits.
pub fn parse_u32(s: &str) -> (r: Option<u32>)
    ensures
        r == parsed_u32(s@),
{
    let v = chars(s);
    let n = v.len();
    let first: usize = if n > 0 && v[0] == '+' {
        1
    } else {
        0
    };
    let ghost body = unsigned_body(v@);
    proof {
        assert(body =~= v@.skip(first as int));
    }
    if first == n {
        return None;
    }
    let mut value: u64 = 0;
    let mut at: usize = first;
    while at < n
        invariant
            first <= at <= n,
            n == v.len(),
            body == v@.skip(first as int),
            body == unsigned_body(s@),
            all_digits(body.take(at - first)),
            value == digits_value(body.take(at - first)),
            value <= u32::MAX,
        decreases n - at,
    {
        let c = v[at];
        let ghost seen = body.take(at - first);
        let ghost next = body.take(at - first + 1);
        proof {
            assert(next.drop_last() =~= seen);
            assert(next.last() == c);
        }
        if c < '0' || c > '9' {
            proof {
                assert(body[at - first] == c);
                assert(!all_digits(body));
            }
            return None;
        }
        let digit: u64 = (c as u32 - '0' as u32) as u64;
        value = value * 10 + digit;
        proof {
            assert forall|i: int| 0 <= i < next.len() implies is_digit(#[trigger] next[i]) by {
                if i < next.len() - 1 {
                    assert(next[i] == seen[i]);
                }
            }
        }
        if value > u32::MAX as u64 {
            proof {
                if all_digits(body) {
                    lemma_digits_value_grows(body, at - first + 1);
                }
            }
            return None;
        }
        at += 1;
    }
    proof {
        assert(body.take(at - first) =~= body);
    }
    Some(value as u32)
}

} // verus!
