//! Texts as sequences of characters: searching, trimming, splitting and
//! rewriting, each stated over `Seq<char>` and computed on `Vec<char>`.

use vstd::prelude::*;
use vstd::string::*;

verus! {

/// `pat` stands in `s` at index `i`.
pub open spec fn occurs_at(s: Seq<char>, pat: Seq<char>, i: int) -> bool {
    0 <= i && i + pat.len() <= s.len() && s.subrange(i, i + pat.len()) == pat
}

/// The least index at or after `from` at which `pat` stands in `s`.
pub open spec fn find_from(s: Seq<char>, pat: Seq<char>, from: int) -> Option<int>
    decreases s.len() - from,
{
    if from < 0 || from + pat.len() > s.len() {
        None
    } else if occurs_at(s, pat, from) {
        Some(from)
    } else if from < s.len() {
        find_from(s, pat, from + 1)
    } else {
        None
    }
}

/// The least index at which `pat` stands in `s`.
pub open spec fn find(s: Seq<char>, pat: Seq<char>) -> Option<int> {
    find_from(s, pat, 0)
}

/// `pat` stands somewhere in `s`.
pub open spec fn contains(s: Seq<char>, pat: Seq<char>) -> bool {
    find(s, pat) is Some
}

/// `s` begins with `pat`.
pub open spec fn starts_with(s: Seq<char>, pat: Seq<char>) -> bool {
    occurs_at(s, pat, 0)
}

/// The characters that Unicode gives the property `White_Space`.
pub open spec fn is_whitespace(c: char) -> bool {
    let u = c as u32;
    (0x09 <= u <= 0x0D) || u == 0x20 || u == 0x85 || u == 0xA0 || u == 0x1680 || (0x2000 <= u
        <= 0x200A) || u == 0x2028 || u == 0x2029 || u == 0x202F || u == 0x205F || u == 0x3000
}

/// `s` without the white space it begins with.
pub open spec fn trim_start(s: Seq<char>) -> Seq<char>
    decreases s.len(),
{
    if s.len() > 0 && is_whitespace(s[0]) {
        trim_start(s.skip(1))
    } else {
        s
    }
}

/// `s` without the white space it ends with.
pub open spec fn trim_end(s: Seq<char>) -> Seq<char>
    decreases s.len(),
{
    if s.len() > 0 && is_whitespace(s.last()) {
        trim_end(s.drop_last())
    } else {
        s
    }
}

/// `s` without the white space at either end.
pub open spec fn trim(s: Seq<char>) -> Seq<char> {
    trim_end(trim_start(s))
}

/// `s` with every occurrence of `pat` replaced by `rep`, the occurrences taken
/// from the left and not overlapping. An empty `pat` occurs nowhere.
pub open spec fn replace(s: Seq<char>, pat: Seq<char>, rep: Seq<char>) -> Seq<char>
    decreases s.len(),
{
    if pat.len() == 0 || s.len() < pat.len() {
        s
    } else if occurs_at(s, pat, 0) {
        rep + replace(s.skip(pat.len() as int), pat, rep)
    } else {
        seq![s[0]] + replace(s.skip(1), pat, rep)
    }
}

/// The test that a character is not `c`.
pub open spec fn is_not(c: char) -> spec_fn(char) -> bool {
    |x: char| x != c
}

/// `s` without the characters equal to `c`.
pub open spec fn remove_char(s: Seq<char>, c: char) -> Seq<char> {
    s.filter(is_not(c))
}

/// `s` with `to` in the place of every `from`.
pub open spec fn map_char(s: Seq<char>, from: char, to: char) -> Seq<char> {
    Seq::new(s.len(), |i: int| if s[i] == from { to } else { s[i] })
}

/// The parts, with `sep` between each two neighbours.
pub open spec fn join(parts: Seq<Seq<char>>, sep: Seq<char>) -> Seq<char>
    decreases parts.len(),
{
    if parts.len() == 0 {
        Seq::empty()
    } else if parts.len() == 1 {
        parts[0]
    } else {
        join(parts.drop_last(), sep) + sep + parts.last()
    }
}

/// The index of the first `c` in `s` at or after `from`, or the length of `s`
/// where there is none.
pub open spec fn index_of_char_from(s: Seq<char>, c: char, from: int) -> int
    decreases s.len() - from,
{
    if from < 0 || from >= s.len() {
        s.len() as int
    } else if s[from] == c {
        from
    } else {
        index_of_char_from(s, c, from + 1)
    }
}

/// The first line of `s`, among those that begin at or after `from`, that
/// begins with `prefix`. Lines end at a line feed or at the end of `s`; what
/// follows the last line feed is a line only where it is not empty.
pub open spec fn line_with_prefix_from(s: Seq<char>, prefix: Seq<char>, from: int) -> Option<
    Seq<char>,
>
    decreases s.len() - from,
{
    if from < 0 || from >= s.len() {
        None
    } else {
        let end = index_of_char_from(s, '\n', from);
        let line = s.subrange(from, end);
        if starts_with(line, prefix) {
            Some(line)
        } else if from <= end < s.len() {
            line_with_prefix_from(s, prefix, end + 1)
        } else {
            None
        }
    }
}

/// The first line of `s` that begins with `prefix`.
pub open spec fn line_with_prefix(s: Seq<char>, prefix: Seq<char>) -> Option<Seq<char>> {
    line_with_prefix_from(s, prefix, 0)
}

/// The text that the last entry under `key` holds.
pub open spec fn last_value(entries: Seq<(Seq<char>, Seq<char>)>, key: Seq<char>) -> Option<
    Seq<char>,
>
    decreases entries.len(),
{
    if entries.len() == 0 {
        None
    } else if entries.last().0 == key {
        Some(entries.last().1)
    } else {
        last_value(entries.drop_last(), key)
    }
}

/// What `find_from` finds is the first occurrence: `pat` stands at the index
/// found and nowhere between `from` and it; where nothing is found, `pat`
/// stands nowhere at or after `from`.
pub proof fn lemma_find_from_is_first(s: Seq<char>, pat: Seq<char>, from: int)
    requires
        0 <= from,
    ensures
        match find_from(s, pat, from) {
            Some(at) => from <= at && occurs_at(s, pat, at) && forall|i: int|
                from <= i < at ==> !occurs_at(s, pat, i),
            None => forall|i: int| from <= i ==> !occurs_at(s, pat, i),
        },
    decreases s.len() - from,
{
    if from + pat.len() <= s.len() && !occurs_at(s, pat, from) && from < s.len() {
        lemma_find_from_is_first(s, pat, from + 1);
    }
}

/// `trim_start` cuts white space off the front and nothing else: what is
/// left is the rest of `s` from some index on, white space stands before
/// that index, and none at it.
pub proof fn lemma_trim_start(s: Seq<char>) -> (cut: int)
    ensures
        0 <= cut <= s.len(),
        trim_start(s) == s.skip(cut),
        forall|i: int| 0 <= i < cut ==> is_whitespace(s[i]),
        cut < s.len() ==> !is_whitespace(s[cut]),
    decreases s.len(),
{
    if s.len() > 0 && is_whitespace(s[0]) {
        let rest = lemma_trim_start(s.skip(1));
        assert(s.skip(1).skip(rest) == s.skip(rest + 1));
        assert forall|i: int| 0 <= i < rest + 1 implies is_whitespace(s[i]) by {
            if i > 0 {
                assert(s[i] == s.skip(1)[i - 1]);
            }
        }
        if rest + 1 < s.len() {
            assert(s[rest + 1] == s.skip(1)[rest]);
        }
        rest + 1
    } else {
        assert(s.skip(0) == s);
        0
    }
}

/// `trim_end` cuts white space off the back and nothing else: what is left
/// is `s` up to some index, white space stands from that index on, and none
/// before it.
pub proof fn lemma_trim_end(s: Seq<char>) -> (kept: int)
    ensures
        0 <= kept <= s.len(),
        trim_end(s) == s.take(kept),
        forall|i: int| kept <= i < s.len() ==> is_whitespace(s[i]),
        kept > 0 ==> !is_whitespace(s[kept - 1]),
    decreases s.len(),
{
    if s.len() > 0 && is_whitespace(s.last()) {
        let kept = lemma_trim_end(s.drop_last());
        assert(s.drop_last().take(kept) == s.take(kept));
        assert forall|i: int| kept <= i < s.len() implies is_whitespace(s[i]) by {
            if i < s.len() - 1 {
                assert(s[i] == s.drop_last()[i]);
            }
        }
        if kept > 0 {
            assert(s[kept - 1] == s.drop_last()[kept - 1]);
        }
        kept
    } else {
        assert(s.take(s.len() as int) == s);
        s.len() as int
    }
}

/// `String::from_iter` on the characters of `v`: the text that holds them, in
/// order.
#[verifier::external_body]
pub(crate) fn string_of(v: &Vec<char>) -> (s: String)
    ensures
        s@ == v@,
{
    v.iter().collect()
}

/// The characters of `s`, in order.
pub fn chars_of(s: &str) -> (v: Vec<char>)
    ensures
        v@ == s@,
{
    let mut v: Vec<char> = Vec::new();
    for c in it: s.chars()
        invariant
            v@ == it.seq().take(it.index() as int),
            it.seq() == s@,
    {
        v.push(c);
    }
    v
}

/// Whether two texts hold the same characters.
pub fn str_eq(a: &str, b: &str) -> (r: bool)
    ensures
        r == (a@ == b@),
{
    let x = chars_of(a);
    let y = chars_of(b);
    chars_eq(&x, &y)
}

/// Whether two vectors hold the same characters.
pub fn chars_eq(a: &Vec<char>, b: &Vec<char>) -> (r: bool)
    ensures
        r == (a@ == b@),
{
    if a.len() != b.len() {
        return false;
    }
    let mut i: usize = 0;
    while i < a.len()
        invariant
            a.len() == b.len(),
            i <= a.len(),
            a@.subrange(0, i as int) == b@.subrange(0, i as int),
        decreases a.len() - i,
    {
        if a[i] != b[i] {
            assert(a@[i as int] != b@[i as int]);
            return false;
        }
        assert(a@.subrange(0, i + 1) == a@.subrange(0, i as int).push(a@[i as int]));
        assert(b@.subrange(0, i + 1) == b@.subrange(0, i as int).push(b@[i as int]));
        i = i + 1;
    }
    assert(a@.subrange(0, a.len() as int) == a@);
    assert(b@.subrange(0, b.len() as int) == b@);
    true
}

/// Whether `pat` stands in `s` at index `i`.
pub fn occurs_at_exec(s: &Vec<char>, pat: &Vec<char>, i: usize) -> (r: bool)
    ensures
        r == occurs_at(s@, pat@, i as int),
{
    if pat.len() > s.len() || i > s.len() - pat.len() {
        return false;
    }
    let mut k: usize = 0;
    while k < pat.len()
        invariant
            i + pat.len() <= s.len(),
            k <= pat.len(),
            s@.subrange(i as int, i + k) == pat@.subrange(0, k as int),
        decreases pat.len() - k,
    {
        if s[i + k] != pat[k] {
            assert(s@.subrange(i as int, i + pat.len())[k as int] != pat@[k as int]);
            return false;
        }
        assert(s@.subrange(i as int, i + k + 1) == s@.subrange(i as int, i + k).push(
            s@[i + k],
        ));
        assert(pat@.subrange(0, k + 1) == pat@.subrange(0, k as int).push(pat@[k as int]));
        k = k + 1;
    }
    assert(pat@.subrange(0, pat.len() as int) == pat@);
    true
}

/// The least index at or after `from` at which `pat` stands in `s`.
pub fn find_from_exec(s: &Vec<char>, pat: &Vec<char>, from: usize) -> (r: Option<usize>)
    ensures
        match r {
            Some(i) => find_from(s@, pat@, from as int) == Some(i as int) && from <= i && i
                + pat.len() <= s.len(),
            None => find_from(s@, pat@, from as int) is None,
        },
        match r {
            Some(at) => occurs_at(s@, pat@, at as int) && forall|i: int|
                from <= i < at ==> !occurs_at(s@, pat@, i),
            None => forall|i: int| from <= i ==> !occurs_at(s@, pat@, i),
        },
{
    proof {
        lemma_find_from_is_first(s@, pat@, from as int);
    }
    if pat.len() > s.len() {
        return None;
    }
    let last: usize = s.len() - pat.len();
    let mut i: usize = from;
    while i <= last
        invariant
            last == s.len() - pat.len(),
            from <= i,
            find_from(s@, pat@, from as int) == find_from(s@, pat@, i as int),
        decreases last + 1 - i,
    {
        proof {
            lemma_find_from_is_first(s@, pat@, from as int);
        }
        if occurs_at_exec(s, pat, i) {
            return Some(i);
        }
        if i == last {
            assert(find_from(s@, pat@, i + 1) is None);
            return None;
        }
        i = i + 1;
    }
    None
}

/// Whether `pat` stands somewhere in `s`.
pub fn contains_exec(s: &Vec<char>, pat: &Vec<char>) -> (r: bool)
    ensures
        r == contains(s@, pat@),
{
    find_from_exec(s, pat, 0).is_some()
}

/// Whether the text `s` holds the text `pat`.
pub fn str_contains(s: &str, pat: &str) -> (r: bool)
    ensures
        r == contains(s@, pat@),
{
    let a = chars_of(s);
    let b = chars_of(pat);
    contains_exec(&a, &b)
}

/// Whether `c` is white space.
pub fn is_whitespace_exec(c: char) -> (r: bool)
    ensures
        r == is_whitespace(c),
{
    let u: u32 = c as u32;
    (0x09 <= u && u <= 0x0D) || u == 0x20 || u == 0x85 || u == 0xA0 || u == 0x1680 || (0x2000
        <= u && u <= 0x200A) || u == 0x2028 || u == 0x2029 || u == 0x202F || u == 0x205F || u
        == 0x3000
}

/// The characters of `s` from index `from` up to, not including, index `to`.
pub fn slice(s: &Vec<char>, from: usize, to: usize) -> (r: Vec<char>)
    requires
        from <= to <= s.len(),
    ensures
        r@ == s@.subrange(from as int, to as int),
{
    let mut r: Vec<char> = Vec::new();
    let mut i: usize = from;
    while i < to
        invariant
            from <= i <= to,
            to <= s.len(),
            r@ == s@.subrange(from as int, i as int),
        decreases to - i,
    {
        r.push(s[i]);
        i = i + 1;
    }
    r
}

/// `s` without the white space at either end.
pub fn trim_exec(s: &Vec<char>) -> (r: Vec<char>)
    ensures
        r@ == trim(s@),
        r@.len() > 0 ==> !is_whitespace(r@[0]) && !is_whitespace(r@.last()),
{
    proof {
        let cut = lemma_trim_start(s@);
        let kept = lemma_trim_end(s@.skip(cut));
        if kept > 0 {
            assert(s@.skip(cut).take(kept)[0] == s@[cut]);
            assert(s@.skip(cut).take(kept).last() == s@.skip(cut)[kept - 1]);
        }
    }
    let mut a: usize = 0;
    assert(s@.skip(0) == s@);
    while a < s.len() && is_whitespace_exec(s[a])
        invariant
            a <= s.len(),
            trim_start(s@) == trim_start(s@.skip(a as int)),
        decreases s.len() - a,
    {
        assert(s@.skip(a as int).skip(1) == s@.skip(a + 1));
        a = a + 1;
    }
    let ghost t = s@.skip(a as int);
    assert(trim_start(s@) == t);
    let mut b: usize = s.len();
    while b > a && is_whitespace_exec(s[b - 1])
        invariant
            a <= b <= s.len(),
            t == s@.skip(a as int),
            trim_end(t) == trim_end(s@.subrange(a as int, b as int)),
        decreases b,
    {
        assert(s@.subrange(a as int, b as int).drop_last() == s@.subrange(a as int, b - 1));
        b = b - 1;
    }
    assert(s@.subrange(a as int, s.len() as int) == t);
    slice(s, a, b)
}

/// `s` without the characters equal to `c`.
pub fn remove_char_exec(s: &Vec<char>, c: char) -> (r: Vec<char>)
    ensures
        r@ == remove_char(s@, c),
{
    let mut r: Vec<char> = Vec::new();
    let mut i: usize = 0;
    let ghost keep = is_not(c);
    proof {
        assert(s@.take(0) == Seq::<char>::empty());
        assert(Seq::<char>::empty().filter(keep) == Seq::<char>::empty()) by {
            reveal(Seq::filter);
        }
    }
    while i < s.len()
        invariant
            i <= s.len(),
            keep == is_not(c),
            r@ == s@.take(i as int).filter(keep),
        decreases s.len() - i,
    {
        proof {
            assert(s@.take(i + 1).drop_last() == s@.take(i as int));
            reveal(Seq::filter);
        }
        if s[i] != c {
            r.push(s[i]);
        }
        i = i + 1;
    }
    assert(s@.take(s.len() as int) == s@);
    r
}

/// `s` with `to` in the place of every `from`.
pub fn map_char_exec(s: &Vec<char>, from: char, to: char) -> (r: Vec<char>)
    ensures
        r@ == map_char(s@, from, to),
{
    let mut r: Vec<char> = Vec::new();
    let mut i: usize = 0;
    while i < s.len()
        invariant
            i <= s.len(),
            r@.len() == i,
            forall|k: int| 0 <= k < i ==> r@[k] == (if s@[k] == from { to } else { s@[k] }),
        decreases s.len() - i,
    {
        r.push(if s[i] == from { to } else { s[i] });
        i = i + 1;
    }
    r
}

/// `a` followed by `b`.
pub fn append_chars(a: &mut Vec<char>, b: &Vec<char>)
    ensures
        final(a)@ == old(a)@ + b@,
{
    let mut i: usize = 0;
    while i < b.len()
        invariant
            i <= b.len(),
            a@ == old(a)@ + b@.subrange(0, i as int),
        decreases b.len() - i,
    {
        a.push(b[i]);
        i = i + 1;
    }
    assert(b@.subrange(0, b.len() as int) == b@);
}

/// `s` with every occurrence of `pat` replaced by `rep`.
pub fn replace_exec(s: &Vec<char>, pat: &Vec<char>, rep: &Vec<char>) -> (r: Vec<char>)
    ensures
        r@ == replace(s@, pat@, rep@),
{
    let mut r: Vec<char> = Vec::new();
    let mut i: usize = 0;
    assert(s@.skip(0) == s@);
    assert(r@ + replace(s@, pat@, rep@) == replace(s@, pat@, rep@));
    while i < s.len()
        invariant
            i <= s.len(),
            r@ + replace(s@.skip(i as int), pat@, rep@) == replace(s@, pat@, rep@),
        decreases s.len() - i,
    {
        let ghost rest = s@.skip(i as int);
        if pat.len() == 0 || s.len() - i < pat.len() {
            let tail = slice(s, i, s.len());
            assert(tail@ == rest);
            append_chars(&mut r, &tail);
            return r;
        }
        if occurs_at_exec(s, pat, i) {
            assert(rest.subrange(0, pat.len() as int) == s@.subrange(i as int, i + pat.len()));
            assert(occurs_at(rest, pat@, 0));
            assert(rest.skip(pat.len() as int) == s@.skip(i + pat.len()));
            let ghost before = r@;
            append_chars(&mut r, rep);
            assert(r@ + replace(s@.skip(i + pat.len()), pat@, rep@) == before + (rep@ + replace(
                s@.skip(i + pat.len()),
                pat@,
                rep@,
            )));
            i = i + pat.len();
        } else {
            assert(rest.subrange(0, pat.len() as int) == s@.subrange(i as int, i + pat.len()));
            assert(!occurs_at(rest, pat@, 0));
            assert(rest.skip(1) == s@.skip(i + 1));
            assert(rest[0] == s@[i as int]);
            let ghost before = r@;
            r.push(s[i]);
            assert(r@ + replace(s@.skip(i + 1), pat@, rep@) == before + (seq![s@[i as int]]
                + replace(s@.skip(i + 1), pat@, rep@)));
            i = i + 1;
        }
    }
    assert(s@.skip(s.len() as int).len() == 0);
    assert(r@ + Seq::<char>::empty() == r@);
    r
}

/// The parts, with `sep` between each two neighbours.
pub fn join_exec(parts: &Vec<String>, sep: &Vec<char>) -> (r: Vec<char>)
    ensures
        r@ == join(parts.deep_view(), sep@),
{
    let mut r: Vec<char> = Vec::new();
    let mut i: usize = 0;
    let ghost views = parts.deep_view();
    while i < parts.len()
        invariant
            i <= parts.len(),
            views == parts.deep_view(),
            views.len() == parts.len(),
            r@ == join(views.take(i as int), sep@),
        decreases parts.len() - i,
    {
        let part = chars_of(parts[i].as_str());
        assert(views[i as int] == parts[i as int]@);
        assert(views.take(i + 1).drop_last() == views.take(i as int));
        assert(views.take(i + 1).last() == part@);
        if i > 0 {
            append_chars(&mut r, sep);
        }
        append_chars(&mut r, &part);
        assert(Seq::<char>::empty() + part@ == part@);
        i = i + 1;
    }
    assert(views.take(parts.len() as int) == views);
    r
}

/// The index of the first `c` in `s` at or after `from`, or the length of `s`.
pub fn index_of_char_from_exec(s: &Vec<char>, c: char, from: usize) -> (r: usize)
    requires
        from <= s.len(),
    ensures
        r == index_of_char_from(s@, c, from as int),
        from <= r <= s.len(),
{
    let mut i: usize = from;
    while i < s.len() && s[i] != c
        invariant
            from <= i <= s.len(),
            index_of_char_from(s@, c, from as int) == index_of_char_from(s@, c, i as int),
        decreases s.len() - i,
    {
        i = i + 1;
    }
    i
}

/// The first line of `s` that begins with `prefix`.
pub fn line_with_prefix_exec(s: &Vec<char>, prefix: &Vec<char>) -> (r: Option<Vec<char>>)
    ensures
        match r {
            Some(line) => line_with_prefix(s@, prefix@) == Some(line@),
            None => line_with_prefix(s@, prefix@) is None,
        },
{
    let mut from: usize = 0;
    while from < s.len()
        invariant
            from <= s.len(),
            line_with_prefix(s@, prefix@) == line_with_prefix_from(s@, prefix@, from as int),
        decreases s.len() - from,
    {
        let end = index_of_char_from_exec(s, '\n', from);
        let line = slice(s, from, end);
        if occurs_at_exec(&line, prefix, 0) {
            return Some(line);
        }
        if end == s.len() {
            return None;
        }
        from = end + 1;
    }
    None
}

/// The text that the last entry under `key` holds.
pub fn get_last_value(entries: &Vec<(String, String)>, key: &str) -> (r: Option<String>)
    ensures
        r.deep_view() == last_value(entries.deep_view(), key@),
{
    let ghost views = entries.deep_view();
    let mut i: usize = entries.len();
    assert(views.take(i as int) == views);
    while i > 0
        invariant
            i <= entries.len(),
            views == entries.deep_view(),
            last_value(views, key@) == last_value(views.take(i as int), key@),
        decreases i,
    {
        assert(views.take(i as int).drop_last() == views.take(i - 1));
        assert(views.take(i as int).last() == entries@[i - 1].deep_view());
        assert(views.take(i as int).last().0 == entries@[i - 1].0@);
        assert(views.take(i as int).last().1 == entries@[i - 1].1@);
        if str_eq(entries[i - 1].0.as_str(), key) {
            return Some(entries[i - 1].1.clone());
        }
        i = i - 1;
    }
    None
}

} // verus!
