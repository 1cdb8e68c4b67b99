//! Text as a sequence of characters: what each operation means, and the
//! operations themselves on `&str` and `String`.
use vstd::prelude::*;

verus! {

/// The text inside each element.
pub open spec fn texts(parts: Seq<String>) -> Seq<Seq<char>> {
    parts.map_values(|s: String| s@)
}

/// The text inside an optional string.
pub open spec fn opt_text(s: Option<String>) -> Option<Seq<char>> {
    match s {
        Some(s) => Some(s@),
        None => None,
    }
}

/// The text inside an optional string slice.
pub open spec fn opt_str(s: Option<&str>) -> Option<Seq<char>> {
    match s {
        Some(s) => Some(s@),
        None => None,
    }
}

/// `String::push` puts one character at the end.
pub assume_specification[ String::push ](s: &mut String, c: char)
    ensures
        final(s)@ == old(s)@.push(c),
;

/// Adds a copy of `word` to the list.
pub fn push_text(list: &mut Vec<String>, word: &str)
    ensures
        texts(final(list)@) == texts(old(list)@).push(word@),
{
    list.push(word.to_owned());
    proof {
        assert(texts(list@) =~= texts(old(list)@).push(word@));
    }
}

/// An empty list of texts.
pub fn no_texts() -> (r: Vec<String>)
    ensures
        texts(r@) == Seq::<Seq<char>>::empty(),
{
    let r: Vec<String> = Vec::new();
    proof {
        assert(texts(r@) =~= Seq::empty());
    }
    r
}

/// The characters of `s`, in order.
pub fn chars_of(s: &str) -> (v: Vec<char>)
    ensures
        v@ == s@,
{
    let mut v: Vec<char> = Vec::new();
    for c in it: s.chars()
        invariant
            v@ == s@.take(it.index() as int),
            it.seq() == s@,
    {
        v.push(c);
    }
    v
}

/// The text made of `v[from..to]`.
pub fn text_of(v: &Vec<char>, from: usize, to: usize) -> (s: String)
    requires
        from <= to <= v@.len(),
    ensures
        s@ == v@.subrange(from as int, to as int),
{
    let mut s = String::new();
    let mut i: usize = from;
    while i < to
        invariant
            from <= i <= to <= v@.len(),
            s@ == v@.subrange(from as int, i as int),
        decreases to - i,
    {
        s.push(v[i]);
        i += 1;
    }
    s
}

// ---------------------------------------------------------------- comparing

/// `needle` stands in `hay` from index `at` on.
pub open spec fn occurs_at(hay: Seq<char>, needle: Seq<char>, at: int) -> bool {
    0 <= at && at + needle.len() <= hay.len() && hay.subrange(at, at + needle.len()) == needle
}

/// `needle` stands somewhere in `hay`.
pub open spec fn has_text(hay: Seq<char>, needle: Seq<char>) -> bool {
    exists|at: int| occurs_at(hay, needle, at)
}

/// `s` begins with `prefix`.
pub open spec fn begins(s: Seq<char>, prefix: Seq<char>) -> bool {
    occurs_at(s, prefix, 0)
}

/// Does `needle` stand in `hay` at index `at`?
pub fn stands_at(hay: &Vec<char>, needle: &Vec<char>, at: usize) -> (r: bool)
    ensures
        r == occurs_at(hay@, needle@, at as int),
{
    if at > hay.len() || needle.len() > hay.len() - at {
        return false;
    }
    let size: usize = hay.len();
    let mut i: usize = 0;
    while i < needle.len()
        invariant
            i <= needle@.len(),
            size == hay@.len(),
            at + needle@.len() <= hay@.len(),
            forall|j: int| 0 <= j < i ==> hay@[at + j] == needle@[j],
        decreases needle.len() - i,
    {
        if hay[at + i] != needle[i] {
            proof {
                assert(hay@.subrange(at as int, at + needle@.len())[i as int] != needle@[i as int]);
            }
            return false;
        }
        i += 1;
    }
    proof {
        assert(hay@.subrange(at as int, at + needle@.len()) =~= needle@);
    }
    true
}

/// Are the two texts the same?
pub fn same_text(a: &str, b: &str) -> (r: bool)
    ensures
        r == (a@ == b@),
{
    let x = chars_of(a);
    let y = chars_of(b);
    if x.len() != y.len() {
        return false;
    }
    let r = stands_at(&x, &y, 0);
    proof {
        assert(x@.subrange(0, y@.len() as int) =~= x@);
    }
    r
}

/// Does `s` begin with `prefix`?
pub fn starts_with(s: &str, prefix: &str) -> (r: bool)
    ensures
        r == begins(s@, prefix@),
{
    let v = chars_of(s);
    let p = chars_of(prefix);
    stands_at(&v, &p, 0)
}

/// What follows `prefix` in `s`, where `s` begins with it.
pub open spec fn without_prefix(s: Seq<char>, prefix: Seq<char>) -> Option<Seq<char>> {
    if begins(s, prefix) {
        Some(s.skip(prefix.len() as int))
    } else {
        None
    }
}

/// What follows `prefix` in `s`, where `s` begins with it.
pub fn strip_prefix<'a>(s: &'a str, prefix: &str) -> (r: Option<&'a str>)
    ensures
        opt_str(r) == without_prefix(s@, prefix@),
{
    if starts_with(s, prefix) {
        let r = s.substring_char(prefix.unicode_len(), s.unicode_len());
        proof {
            assert(r@ =~= s@.skip(prefix@.len() as int));
        }
        Some(r)
    } else {
        None
    }
}

/// The index at or after `from` at which `needle` first stands in `hay`.
pub fn find_from(hay: &Vec<char>, needle: &Vec<char>, from: usize) -> (r: Option<usize>)
    ensures
        r matches Some(i) ==> from <= i && occurs_at(hay@, needle@, i as int) && (forall|j: int|
            from <= j < i ==> !occurs_at(hay@, needle@, j)),
        r is None ==> forall|j: int| from <= j ==> !occurs_at(hay@, needle@, j),
{
    if needle.len() > hay.len() {
        return None;
    }
    let last: usize = hay.len() - needle.len();
    let mut i: usize = from;
    while i < last
        invariant
            from <= i,
            last == hay@.len() - needle@.len(),
            forall|j: int| from <= j < i ==> !occurs_at(hay@, needle@, j),
        decreases last - i,
    {
        if stands_at(hay, needle, i) {
            return Some(i);
        }
        i += 1;
    }
    if stands_at(hay, needle, i) {
        Some(i)
    } else {
        None
    }
}

/// Does `needle` stand somewhere in `hay`?
pub fn contains(hay: &str, needle: &str) -> (r: bool)
    ensures
        r == has_text(hay@, needle@),
{
    let h = chars_of(hay);
    let n = chars_of(needle);
    find_from(&h, &n, 0).is_some()
}

/// A text without the character `c` that stands around one stands before or behind
/// it.
pub proof fn lemma_found_beside(x: Seq<char>, c: char, y: Seq<char>, q: Seq<char>)
    requires
        q.len() > 0,
        !q.contains(c),
        has_text(x + seq![c] + y, q),
    ensures
        has_text(x, q) || has_text(y, q),
{
    let all = x + seq![c] + y;
    let i = choose|i: int| occurs_at(all, q, i);
    let n = x.len() as int;
    if i + q.len() <= n {
        assert(x.subrange(i, i + q.len()) =~= all.subrange(i, i + q.len()));
        assert(occurs_at(x, q, i));
    } else if i > n {
        let k = i - n - 1;
        assert(y.subrange(k, k + q.len()) =~= all.subrange(i, i + q.len()));
        assert(occurs_at(y, q, k));
    } else {
        assert(all.subrange(i, i + q.len())[n - i] == c);
        assert(q.contains(q[n - i]));
    }
}

/// What stands in a part of a text stands in the text.
pub proof fn lemma_found_in_part(s: Seq<char>, from: int, to: int, q: Seq<char>)
    requires
        0 <= from <= to <= s.len(),
        has_text(s.subrange(from, to), q),
    ensures
        has_text(s, q),
{
    let part = s.subrange(from, to);
    let i = choose|i: int| occurs_at(part, q, i);
    assert(s.subrange(from + i, from + i + q.len()) =~= part.subrange(i, i + q.len()));
    assert(occurs_at(s, q, from + i));
}

/// Do two texts agree as far as the shorter goes?
pub open spec fn agree(a: Seq<char>, b: Seq<char>) -> bool {
    forall|k: int| 0 <= k < a.len() && k < b.len() ==> #[trigger] a[k] == b[k]
}

/// Can `q`, wherever it stands in a text, never run into a `mark` in it?
pub open spec fn clear_of(q: Seq<char>, mark: Seq<char>) -> bool {
    &&& q.len() > 0
    &&& forall|s: int| 0 <= s < q.len() ==> !agree(#[trigger] q.skip(s), mark)
    &&& forall|i: int| 0 < i < mark.len() ==> !agree(q, #[trigger] mark.skip(i))
}

/// Can `q`, wherever it stands in a text that ends in `end`, never run into that?
pub open spec fn clear_of_end(q: Seq<char>, end: Seq<char>) -> bool {
    &&& q.len() > 0
    &&& !has_text(end, q)
    &&& forall|s: int| 0 < s < q.len() ==> !begins(end, #[trigger] q.skip(s))
}

/// `s` ends with `suffix`.
pub open spec fn ends(s: Seq<char>, suffix: Seq<char>) -> bool {
    occurs_at(s, suffix, s.len() - suffix.len())
}

/// Can `q`, wherever it stands in a text that begins with `start`, never run into
/// that?
pub open spec fn clear_of_start(q: Seq<char>, start: Seq<char>) -> bool {
    &&& q.len() > 0
    &&& !has_text(start, q)
    &&& forall|n: int| 0 < n < q.len() ==> !ends(start, #[trigger] q.take(n))
}

/// What is clear of a mark and stands in a text around it stands before or behind
/// it.
pub proof fn lemma_found_around(x: Seq<char>, mark: Seq<char>, y: Seq<char>, q: Seq<char>)
    requires
        clear_of(q, mark),
        has_text(x + mark + y, q),
    ensures
        has_text(x, q) || has_text(y, q),
{
    let all = x + mark + y;
    let i = choose|i: int| occurs_at(all, q, i);
    let at = all.subrange(i, i + q.len());
    let n = x.len() as int;
    let m = mark.len() as int;
    if i + q.len() <= n {
        assert(x.subrange(i, i + q.len()) =~= at);
        assert(occurs_at(x, q, i));
    } else if i >= n + m {
        assert(y.subrange(i - n - m, i - n - m + q.len()) =~= at);
        assert(occurs_at(y, q, i - n - m));
    } else if i <= n {
        let rest = q.skip(n - i);
        assert forall|k: int| 0 <= k < rest.len() && k < m implies #[trigger] rest[k] == mark[k] by {
            assert(rest[k] == at[n - i + k]);
        }
        assert(agree(q.skip(n - i), mark));
    } else {
        let rest = mark.skip(i - n);
        assert forall|k: int| 0 <= k < q.len() && k < rest.len() implies #[trigger] q[k] == rest[
            k] by {
            assert(q[k] == at[k]);
        }
        assert(agree(q, mark.skip(i - n)));
    }
}

/// What is clear of the end of a text stands before it.
pub proof fn lemma_found_before_end(x: Seq<char>, end: Seq<char>, q: Seq<char>)
    requires
        clear_of_end(q, end),
        has_text(x + end, q),
    ensures
        has_text(x, q),
{
    let all = x + end;
    let i = choose|i: int| occurs_at(all, q, i);
    let at = all.subrange(i, i + q.len());
    let n = x.len() as int;
    if i + q.len() <= n {
        assert(x.subrange(i, i + q.len()) =~= at);
        assert(occurs_at(x, q, i));
    } else if i >= n {
        assert(end.subrange(i - n, i - n + q.len()) =~= at);
        assert(occurs_at(end, q, i - n));
    } else {
        let rest = q.skip(n - i);
        assert(end.subrange(0, rest.len() as int) =~= rest) by {
            assert forall|k: int| 0 <= k < rest.len() implies end[k] == rest[k] by {
                assert(rest[k] == at[n - i + k]);
            }
        }
        assert(begins(end, q.skip(n - i)));
    }
}

/// What is clear of the start of a text stands behind it.
pub proof fn lemma_found_behind_start(start: Seq<char>, y: Seq<char>, q: Seq<char>)
    requires
        clear_of_start(q, start),
        has_text(start + y, q),
    ensures
        has_text(y, q),
{
    let all = start + y;
    let i = choose|i: int| occurs_at(all, q, i);
    let at = all.subrange(i, i + q.len());
    let n = start.len() as int;
    if i + q.len() <= n {
        assert(start.subrange(i, i + q.len()) =~= at);
        assert(occurs_at(start, q, i));
    } else if i >= n {
        assert(y.subrange(i - n, i - n + q.len()) =~= at);
        assert(occurs_at(y, q, i - n));
    } else {
        let head = q.take(n - i);
        assert(start.subrange(i, n) =~= head) by {
            assert forall|k: int| 0 <= k < n - i implies start[i + k] == head[k] by {
                assert(head[k] == at[k]);
            }
        }
        assert(ends(start, q.take(n - i)));
    }
}

// ----------------------------------------------------------------- trimming

/// The characters with the Unicode property `White_Space`.
pub open spec fn is_white_space(c: char) -> bool {
    let n = c as u32;
    ||| 0x9 <= n <= 0xd
    ||| n == 0x20
    ||| n == 0x85
    ||| n == 0xa0
    ||| n == 0x1680
    ||| 0x2000 <= n <= 0x200a
    ||| n == 0x2028
    ||| n == 0x2029
    ||| n == 0x202f
    ||| n == 0x205f
    ||| n == 0x3000
}

/// Is `c` white space?
pub fn white_space(c: char) -> (r: bool)
    ensures
        r == is_white_space(c),
{
    let n: u32 = c as u32;
    (0x9 <= n && n <= 0xd) || n == 0x20 || n == 0x85 || n == 0xa0 || n == 0x1680 || (0x2000 <= n
        && n <= 0x200a) || n == 0x2028 || n == 0x2029 || n == 0x202f || n == 0x205f || n == 0x3000
}

/// `s` without the characters at its start that satisfy `p`.
pub open spec fn trim_start_by(s: Seq<char>, p: spec_fn(char) -> bool) -> Seq<char>
    decreases s.len(),
{
    if s.len() > 0 && p(s[0]) {
        trim_start_by(s.drop_first(), p)
    } else {
        s
    }
}

/// `s` without the characters at its end that satisfy `p`.
pub open spec fn trim_end_by(s: Seq<char>, p: spec_fn(char) -> bool) -> Seq<char>
    decreases s.len(),
{
    if s.len() > 0 && p(s.last()) {
        trim_end_by(s.drop_last(), p)
    } else {
        s
    }
}

/// `s` without the characters at either end that satisfy `p`.
pub open spec fn trim_by(s: Seq<char>, p: spec_fn(char) -> bool) -> Seq<char> {
    trim_end_by(trim_start_by(s, p), p)
}

/// Holds of white space.
pub open spec fn blank() -> spec_fn(char) -> bool {
    |c: char| is_white_space(c)
}

/// Holds of `a` and of `b`.
pub open spec fn either(a: char, b: char) -> spec_fn(char) -> bool {
    |c: char| c == a || c == b
}

/// `s` without the white space at either end.
pub open spec fn trimmed(s: Seq<char>) -> Seq<char> {
    trim_by(s, blank())
}

/// One step of trimming at the start.
proof fn lemma_trim_start_step(s: Seq<char>, p: spec_fn(char) -> bool, i: int)
    requires
        0 <= i < s.len(),
        p(s[i]),
    ensures
        trim_start_by(s.skip(i), p) == trim_start_by(s.skip(i + 1), p),
{
    assert(s.skip(i).drop_first() =~= s.skip(i + 1));
}

/// One step of trimming at the end.
proof fn lemma_trim_end_step(s: Seq<char>, p: spec_fn(char) -> bool, i: int, j: int)
    requires
        0 <= i < j <= s.len(),
        p(s[j - 1]),
    ensures
        trim_end_by(s.subrange(i, j), p) == trim_end_by(s.subrange(i, j - 1), p),
{
    assert(s.subrange(i, j).drop_last() =~= s.subrange(i, j - 1));
}

/// `s` without the white space at either end.
pub fn trim(s: &str) -> (r: &str)
    ensures
        r@ == trimmed(s@),
{
    let v = chars_of(s);
    let n: usize = v.len();
    let mut i: usize = 0;
    proof {
        assert(s@.skip(0) =~= s@);
    }
    while i < n && white_space(v[i])
        invariant
            v@ == s@,
            n == v@.len(),
            i <= n,
            trim_start_by(s@, blank()) == trim_start_by(s@.skip(i as int), blank()),
        decreases n - i,
    {
        proof {
            lemma_trim_start_step(s@, blank(), i as int);
        }
        i += 1;
    }
    let mut j: usize = n;
    proof {
        assert(s@.skip(i as int) =~= s@.subrange(i as int, n as int));
    }
    while j > i && white_space(v[j - 1])
        invariant
            v@ == s@,
            n == v@.len(),
            i <= j <= n,
            trimmed(s@) == trim_end_by(s@.subrange(i as int, j as int), blank()),
        decreases j,
    {
        proof {
            lemma_trim_end_step(s@, blank(), i as int, j as int);
        }
        j -= 1;
    }
    s.substring_char(i, j)
}

/// `s` without the characters `a` and `b` at either end.
pub fn trim_either(s: &str, a: char, b: char) -> (r: &str)
    ensures
        r@ == trim_by(s@, either(a, b)),
{
    let v = chars_of(s);
    let n: usize = v.len();
    let mut i: usize = 0;
    proof {
        assert(s@.skip(0) =~= s@);
    }
    while i < n && (v[i] == a || v[i] == b)
        invariant
            v@ == s@,
            n == v@.len(),
            i <= n,
            trim_start_by(s@, either(a, b)) == trim_start_by(s@.skip(i as int), either(a, b)),
        decreases n - i,
    {
        proof {
            lemma_trim_start_step(s@, either(a, b), i as int);
        }
        i += 1;
    }
    let mut j: usize = n;
    proof {
        assert(s@.skip(i as int) =~= s@.subrange(i as int, n as int));
    }
    while j > i && (v[j - 1] == a || v[j - 1] == b)
        invariant
            v@ == s@,
            n == v@.len(),
            i <= j <= n,
            trim_by(s@, either(a, b)) == trim_end_by(s@.subrange(i as int, j as int), either(a, b)),
        decreases j,
    {
        proof {
            lemma_trim_end_step(s@, either(a, b), i as int, j as int);
        }
        j -= 1;
    }
    s.substring_char(i, j)
}

// ------------------------------------------------------------ changing case

/// `c` with an ASCII capital made small.
pub open spec fn lower_char(c: char) -> char {
    if 'A' <= c <= 'Z' {
        (c as u32 + 32) as char
    } else {
        c
    }
}

/// `s` with its ASCII capitals made small.
pub open spec fn lower(s: Seq<char>) -> Seq<char> {
    s.map_values(|c: char| lower_char(c))
}

/// `s` with its ASCII capitals made small.
pub fn to_ascii_lowercase(s: &str) -> (r: String)
    ensures
        r@ == lower(s@),
{
    let v = chars_of(s);
    let mut r = String::new();
    let mut i: usize = 0;
    while i < v.len()
        invariant
            v@ == s@,
            i <= v@.len(),
            r@ == lower(s@.take(i as int)),
        decreases v.len() - i,
    {
        let c: char = v[i];
        if 'A' <= c && c <= 'Z' {
            r.push((c as u8 + 32) as char);
        } else {
            r.push(c);
        }
        i += 1;
        proof {
            assert(lower(s@.take(i as int)) =~= lower(s@.take(i - 1)).push(lower_char(s@[i - 1])));
        }
    }
    proof {
        assert(s@.take(i as int) =~= s@);
    }
    r
}

// ---------------------------------------------------------------- splitting

/// The index of the first `c` in `s`; the length of `s` where there is none.
pub open spec fn first_index(s: Seq<char>, c: char) -> int
    decreases s.len(),
{
    if s.len() == 0 || s[0] == c {
        0
    } else {
        1 + first_index(s.drop_first(), c)
    }
}

/// Where the first `c` is.
pub proof fn lemma_first_index(s: Seq<char>, c: char)
    ensures
        0 <= first_index(s, c) <= s.len(),
        first_index(s, c) < s.len() ==> s[first_index(s, c)] == c,
        forall|i: int| 0 <= i < first_index(s, c) ==> s[i] != c,
    decreases s.len(),
{
    if s.len() > 0 && s[0] != c {
        let t = s.drop_first();
        lemma_first_index(t, c);
        assert forall|i: int| 0 <= i < first_index(s, c) implies s[i] != c by {
            if i > 0 {
                assert(s[i] == t[i - 1]);
            }
        }
    }
}

/// An index with `c` at it and none before it is the first.
proof fn lemma_first_index_is(s: Seq<char>, c: char, k: int)
    requires
        0 <= k <= s.len(),
        k < s.len() ==> s[k] == c,
        forall|i: int| 0 <= i < k ==> s[i] != c,
    ensures
        first_index(s, c) == k,
{
    lemma_first_index(s, c);
}

/// The index of the first `c` in `v[from..]`, counted from `from`.
pub fn index_from(v: &Vec<char>, c: char, from: usize) -> (r: usize)
    requires
        from <= v@.len(),
    ensures
        r <= v@.len() - from,
        r == first_index(v@.skip(from as int), c),
{
    let mut i: usize = from;
    while i < v.len() && v[i] != c
        invariant
            from <= i <= v@.len(),
            forall|j: int| from <= j < i ==> v@[j] != c,
        decreases v.len() - i,
    {
        i += 1;
    }
    proof {
        let t = v@.skip(from as int);
        assert forall|j: int| 0 <= j < i - from implies t[j] != c by {
            assert(t[j] == v@[from + j]);
        }
        lemma_first_index_is(t, c, i - from);
    }
    i - from
}

/// What stands before and after the first `c`.
pub open spec fn split_first(s: Seq<char>, c: char) -> Option<(Seq<char>, Seq<char>)> {
    let k = first_index(s, c);
    if k < s.len() {
        Some((s.take(k), s.skip(k + 1)))
    } else {
        None
    }
}

/// The two texts of a pair.
pub open spec fn opt_pair(r: Option<(&str, &str)>) -> Option<(Seq<char>, Seq<char>)> {
    match r {
        Some((a, b)) => Some((a@, b@)),
        None => None,
    }
}

/// What stands before and after the first `c`.
pub fn split_once<'a>(s: &'a str, c: char) -> (r: Option<(&'a str, &'a str)>)
    ensures
        opt_pair(r) == split_first(s@, c),
{
    let v = chars_of(s);
    let n: usize = v.len();
    let k: usize = index_from(&v, c, 0);
    proof {
        assert(v@.skip(0) =~= s@);
    }
    if k < n {
        let a = s.substring_char(0, k);
        let b = s.substring_char(k + 1, n);
        proof {
            assert(a@ =~= s@.take(k as int));
            assert(b@ =~= s@.skip(k + 1));
        }
        Some((a, b))
    } else {
        None
    }
}

/// What stands before and after the last `c`.
pub open spec fn split_last(s: Seq<char>, c: char) -> Option<(Seq<char>, Seq<char>)>
    decreases s.len(),
{
    if s.len() == 0 {
        None
    } else if s.last() == c {
        Some((s.drop_last(), Seq::empty()))
    } else {
        match split_last(s.drop_last(), c) {
            Some((a, b)) => Some((a, b.push(s.last()))),
            None => None,
        }
    }
}

/// The split is at the last `c`.
pub proof fn lemma_split_last_is(s: Seq<char>, c: char, k: int)
    requires
        -1 <= k < s.len(),
        k >= 0 ==> s[k] == c,
        forall|i: int| k < i < s.len() ==> s[i] != c,
    ensures
        split_last(s, c) == (if k >= 0 {
            Some((s.take(k), s.skip(k + 1)))
        } else {
            None
        }),
    decreases s.len(),
{
    if s.len() > 0 {
        if k == s.len() - 1 {
            assert(s.drop_last() =~= s.take(k));
            assert(s.skip(k + 1) =~= Seq::empty());
        } else {
            let t = s.drop_last();
            lemma_split_last_is(t, c, k);
            if k >= 0 {
                assert(t.take(k) =~= s.take(k));
                assert(t.skip(k + 1).push(s.last()) =~= s.skip(k + 1));
            }
        }
    }
}

/// What stands before and after the last `c`.
pub fn rsplit_once<'a>(s: &'a str, c: char) -> (r: Option<(&'a str, &'a str)>)
    ensures
        opt_pair(r) == split_last(s@, c),
{
    let v = chars_of(s);
    let n: usize = v.len();
    let mut k: usize = n;
    while k > 0 && v[k - 1] != c
        invariant
            k <= n,
            n == v@.len(),
            forall|i: int| k <= i < n ==> v@[i] != c,
        decreases k,
    {
        k -= 1;
    }
    proof {
        lemma_split_last_is(s@, c, k - 1);
    }
    if k > 0 {
        let a = s.substring_char(0, k - 1);
        let b = s.substring_char(k, n);
        proof {
            assert(a@ =~= s@.take(k - 1));
            assert(b@ =~= s@.skip(k as int));
        }
        Some((a, b))
    } else {
        None
    }
}

// -------------------------------------------------------------------- lines

/// `s` without a carriage return at its end.
pub open spec fn without_return(s: Seq<char>) -> Seq<char> {
    if s.len() > 0 && s.last() == '\r' {
        s.drop_last()
    } else {
        s
    }
}

/// The lines of `s`: each ends at a line feed, or a carriage return and a line
/// feed, or at the end of the text.
pub open spec fn lines_of(s: Seq<char>) -> Seq<Seq<char>>
    decreases s.len(),
    via lines_of_decreases
{
    let k = first_index(s, '\n');
    if s.len() == 0 {
        Seq::empty()
    } else if k >= s.len() {
        seq![s]
    } else {
        seq![without_return(s.take(k))] + lines_of(s.skip(k + 1))
    }
}

#[via_fn]
proof fn lines_of_decreases(s: Seq<char>) {
    lemma_first_index(s, '\n');
}

/// The first line, where there is one.
pub open spec fn first_line_of(s: Seq<char>) -> Option<Seq<char>> {
    if s.len() == 0 {
        None
    } else {
        Some(lines_of(s)[0])
    }
}

/// The line of `v` that starts at `from`, as text, and where the next one starts.
fn line_at(v: &Vec<char>, from: usize) -> (r: (String, usize))
    requires
        from < v@.len(),
    ensures
        from < r.1 <= v@.len(),
        ({
            let t = v@.skip(from as int);
            lines_of(t) == seq![r.0@] + lines_of(v@.skip(r.1 as int))
        }),
{
    let k: usize = index_from(v, '\n', from);
    let ghost t = v@.skip(from as int);
    if k < v.len() - from {
        let end: usize = from + k;
        let next: usize = end + 1;
        proof {
            assert(t.take(k as int) =~= v@.subrange(from as int, end as int));
            assert(t.skip(k + 1) =~= v@.skip(next as int));
        }
        if k > 0 && v[end - 1] == '\r' {
            let line = text_of(v, from, end - 1);
            proof {
                assert(line@ =~= without_return(t.take(k as int)));
            }
            (line, next)
        } else {
            let line = text_of(v, from, end);
            (line, next)
        }
    } else {
        let n: usize = v.len();
        let line = text_of(v, from, n);
        proof {
            assert(line@ =~= t);
            assert(v@.skip(n as int) =~= Seq::empty());
            assert(lines_of(v@.skip(n as int)) =~= Seq::empty());
            assert(lines_of(t) =~= seq![line@] + lines_of(v@.skip(n as int)));
        }
        (line, n)
    }
}

/// The lines of `s`.
pub fn lines(s: &str) -> (r: Vec<String>)
    ensures
        texts(r@) == lines_of(s@),
{
    let v = chars_of(s);
    let n: usize = v.len();
    let mut r: Vec<String> = Vec::new();
    let mut at: usize = 0;
    proof {
        assert(v@.skip(0) =~= s@);
        assert(texts(r@) =~= Seq::empty());
        assert(texts(r@) + lines_of(s@) =~= lines_of(s@));
    }
    while at < n
        invariant
            v@ == s@,
            n == v@.len(),
            at <= n,
            lines_of(s@) == texts(r@) + lines_of(v@.skip(at as int)),
        decreases n - at,
    {
        let (line, next) = line_at(&v, at);
        let ghost before = texts(r@);
        r.push(line);
        proof {
            assert(texts(r@) =~= before + seq![line@]);
            assert(before + (seq![line@] + lines_of(v@.skip(next as int))) =~= texts(r@) + lines_of(
                v@.skip(next as int),
            ));
        }
        at = next;
    }
    proof {
        assert(v@.skip(at as int) =~= Seq::empty());
        assert(lines_of(v@.skip(at as int)) =~= Seq::empty());
        assert(lines_of(s@) =~= texts(r@));
    }
    r
}

/// The first line, where there is one.
pub fn first_line(s: &str) -> (r: Option<String>)
    ensures
        opt_text(r) == first_line_of(s@),
{
    let v = chars_of(s);
    if v.len() == 0 {
        None
    } else {
        let (line, next) = line_at(&v, 0);
        proof {
            assert(v@.skip(0) =~= s@);
            assert((seq![line@] + lines_of(v@.skip(next as int)))[0] == line@);
        }
        Some(line)
    }
}

// ------------------------------------------------------- joining, replacing

/// The parts in order, with `sep` between each two.
pub open spec fn joined(parts: Seq<Seq<char>>, sep: Seq<char>) -> Seq<char>
    decreases parts.len(),
{
    if parts.len() == 0 {
        Seq::empty()
    } else if parts.len() == 1 {
        parts[0]
    } else {
        parts[0] + (sep + joined(parts.drop_first(), sep))
    }
}

/// A further part goes behind a separator.
pub proof fn lemma_joined_push(parts: Seq<Seq<char>>, sep: Seq<char>, last: Seq<char>)
    requires
        parts.len() > 0,
    ensures
        joined(parts.push(last), sep) == joined(parts, sep) + sep + last,
    decreases parts.len(),
{
    let all = parts.push(last);
    if parts.len() == 1 {
        assert(all.drop_first() =~= seq![last]);
        assert(joined(seq![last], sep) == last);
        assert(joined(all, sep) =~= parts[0] + (sep + last));
        assert(joined(parts, sep) + sep + last =~= parts[0] + (sep + last));
    } else {
        lemma_joined_push(parts.drop_first(), sep, last);
        assert(all.drop_first() =~= parts.drop_first().push(last));
        let rest = joined(parts.drop_first(), sep);
        assert(joined(all, sep) =~= parts[0] + (sep + (rest + sep + last)));
        assert(joined(parts, sep) + sep + last =~= parts[0] + (sep + (rest + sep + last)));
    }
}

/// The parts in order, with `sep` between each two.
pub fn join(parts: &Vec<String>, sep: &str) -> (r: String)
    ensures
        r@ == joined(texts(parts@), sep@),
{
    let mut r = String::new();
    let mut i: usize = 0;
    proof {
        assert(texts(parts@).take(0) =~= Seq::empty());
    }
    while i < parts.len()
        invariant
            i <= parts@.len(),
            r@ == joined(texts(parts@).take(i as int), sep@),
        decreases parts.len() - i,
    {
        let ghost all = texts(parts@);
        if i > 0 {
            r.append(sep);
        }
        r.append(parts[i].as_str());
        proof {
            assert(all.take(i + 1) =~= all.take(i as int).push(all[i as int]));
            if i > 0 {
                lemma_joined_push(all.take(i as int), sep@, all[i as int]);
            } else {
                assert(all.take(1) =~= seq![all[0]]);
                assert(r@ =~= all[0]);
            }
        }
        i += 1;
    }
    proof {
        assert(texts(parts@).take(i as int) =~= texts(parts@));
    }
    r
}

/// `s` with each `old`, from the left and without overlap, made `new`.
pub open spec fn replaced(s: Seq<char>, old: Seq<char>, new: Seq<char>) -> Seq<char>
    decreases s.len(),
{
    if s.len() == 0 || old.len() == 0 {
        s
    } else if begins(s, old) {
        new + replaced(s.skip(old.len() as int), old, new)
    } else {
        seq![s[0]] + replaced(s.drop_first(), old, new)
    }
}

/// `s` with each `old`, from the left and without overlap, made `new`.
pub fn replace(s: &str, old: &str, new: &str) -> (r: String)
    requires
        old@.len() > 0,
    ensures
        r@ == replaced(s@, old@, new@),
{
    let v = chars_of(s);
    let o = chars_of(old);
    let n: usize = v.len();
    let mut r = String::new();
    let mut i: usize = 0;
    proof {
        assert(v@.skip(0) =~= s@);
        assert(r@ + replaced(s@, old@, new@) =~= replaced(s@, old@, new@));
    }
    while i < n
        invariant
            v@ == s@,
            o@ == old@,
            old@.len() > 0,
            n == v@.len(),
            i <= n,
            replaced(s@, old@, new@) == r@ + replaced(s@.skip(i as int), old@, new@),
        decreases n - i,
    {
        let ghost rest = s@.skip(i as int);
        let ghost done = r@;
        proof {
            assert(rest.subrange(0, old@.len() as int) =~= s@.subrange(
                i as int,
                i + old@.len(),
            ) || i + old@.len() > n);
        }
        if stands_at(&v, &o, i) {
            r.append(new);
            proof {
                assert(rest.skip(old@.len() as int) =~= s@.skip(i + old@.len()));
                assert(done + (new@ + replaced(s@.skip(i + old@.len()), old@, new@)) =~= r@
                    + replaced(s@.skip(i + old@.len()), old@, new@));
            }
            i += o.len();
        } else {
            r.push(v[i]);
            proof {
                assert(rest.drop_first() =~= s@.skip(i + 1));
                assert(done + (seq![rest[0]] + replaced(s@.skip(i + 1), old@, new@)) =~= r@
                    + replaced(s@.skip(i + 1), old@, new@));
            }
            i += 1;
        }
    }
    proof {
        assert(s@.skip(i as int) =~= Seq::empty());
        assert(r@ + replaced(s@.skip(i as int), old@, new@) =~= r@);
    }
    r
}

/// What is clear of `new` and begins a text in which each `old` was made `new`
/// began the text, and no `old` stood there.
proof fn lemma_began_before_replacing(t: Seq<char>, old: Seq<char>, new: Seq<char>, q: Seq<char>)
    requires
        old.len() > 0,
        forall|s: int| 0 <= s < q.len() ==> !agree(#[trigger] q.skip(s), new),
        begins(replaced(t, old, new), q),
    ensures
        begins(t, q),
        q.len() > 0 ==> !begins(t, old),
    decreases t.len(),
{
    let r = replaced(t, old, new);
    if q.len() == 0 {
        assert(t.subrange(0, 0) =~= q);
    } else if t.len() == 0 {
    } else if begins(t, old) {
        let at = r.subrange(0, q.len() as int);
        assert(r == new + replaced(t.skip(old.len() as int), old, new));
        assert(q.skip(0) =~= q);
        assert forall|k: int| 0 <= k < q.len() && k < new.len() implies #[trigger] q[k]
            == new[k] by {
            assert(q[k] == at[k]);
        }
        assert(agree(q.skip(0), new));
    } else {
        let rest = t.drop_first();
        let more = replaced(rest, old, new);
        assert(r == seq![t[0]] + more);
        assert(q[0] == r.subrange(0, q.len() as int)[0]);
        let tail = q.drop_first();
        assert(more.subrange(0, tail.len() as int) =~= r.subrange(1, q.len() as int));
        assert(r.subrange(0, q.len() as int).drop_first() =~= r.subrange(1, q.len() as int));
        assert forall|s: int| 0 <= s < tail.len() implies !agree(#[trigger] tail.skip(s), new) by {
            assert(tail.skip(s) =~= q.skip(s + 1));
        }
        lemma_began_before_replacing(rest, old, new, tail);
        assert(t.subrange(0, q.len() as int) =~= seq![t[0]] + rest.subrange(
            0,
            tail.len() as int,
        ));
        assert(q =~= seq![q[0]] + tail);
    }
}

/// What is clear of `new` and stands in a text in which each `old` was made `new`
/// stood in the text, and is not `old`.
pub proof fn lemma_found_before_replacing(
    t: Seq<char>,
    old: Seq<char>,
    new: Seq<char>,
    q: Seq<char>,
)
    requires
        clear_of(q, new),
        has_text(replaced(t, old, new), q),
    ensures
        has_text(t, q),
        q != old,
    decreases t.len(),
{
    let r = replaced(t, old, new);
    let i = choose|i: int| occurs_at(r, q, i);
    let at = r.subrange(i, i + q.len());
    if t.len() == 0 || old.len() == 0 {
    } else if i == 0 {
        lemma_began_before_replacing(t, old, new, q);
        assert(occurs_at(t, q, 0));
    } else if begins(t, old) {
        let n = old.len() as int;
        let rest = t.skip(n);
        let more = replaced(rest, old, new);
        assert(r =~= Seq::empty() + new + more);
        lemma_found_around(Seq::empty(), new, more, q);
        if has_text(Seq::empty(), q) {
            let j = choose|j: int| occurs_at(Seq::<char>::empty(), q, j);
        }
        lemma_found_before_replacing(rest, old, new, q);
        let j = choose|j: int| occurs_at(rest, q, j);
        assert(t.subrange(j + n, j + n + q.len()) =~= rest.subrange(j, j + q.len()));
        assert(occurs_at(t, q, j + n));
    } else {
        let rest = t.drop_first();
        let more = replaced(rest, old, new);
        assert(r == seq![t[0]] + more);
        assert(more.subrange(i - 1, i - 1 + q.len()) =~= at);
        assert(occurs_at(more, q, i - 1));
        lemma_found_before_replacing(rest, old, new, q);
        let j = choose|j: int| occurs_at(rest, q, j);
        assert(t.subrange(j + 1, j + 1 + q.len()) =~= rest.subrange(j, j + q.len()));
        assert(occurs_at(t, q, j + 1));
    }
}

/// The first `n` characters of `s`; all of it where it has fewer.
pub open spec fn first_chars(s: Seq<char>, n: nat) -> Seq<char> {
    if s.len() <= n {
        s
    } else {
        s.take(n as int)
    }
}

/// The first `n` characters of `s`; all of it where it has fewer.
pub fn take_chars(s: &str, n: usize) -> (r: &str)
    ensures
        r@ == first_chars(s@, n as nat),
{
    let size: usize = s.unicode_len();
    if size <= n {
        s
    } else {
        let r = s.substring_char(0, n);
        proof {
            assert(r@ =~= s@.take(n as int));
        }
        r
    }
}

/// How many bytes `s` takes in UTF-8.
pub open spec fn byte_size(s: Seq<char>) -> nat {
    vstd::utf8::encode_utf8(s).len()
}

/// How many bytes `s` takes in UTF-8.
pub fn byte_len(s: &str) -> (n: usize)
    ensures
        n == byte_size(s@),
{
    s.as_bytes().len()
}

/// Texts one behind the other take the bytes of both.
pub proof fn lemma_byte_size_add(a: Seq<char>, b: Seq<char>)
    ensures
        byte_size(a + b) == byte_size(a) + byte_size(b),
    decreases a.len(),
{
    if a.len() == 0 {
        assert(a + b =~= b);
    } else {
        lemma_byte_size_add(a.drop_first(), b);
        assert((a + b).drop_first() =~= a.drop_first() + b);
    }
}

/// A text has at most as many characters as bytes.
pub proof fn lemma_len_within_byte_size(s: Seq<char>)
    ensures
        s.len() <= byte_size(s),
    decreases s.len(),
{
    if s.len() > 0 {
        lemma_len_within_byte_size(s.drop_first());
        vstd::utf8::char_is_scalar(s[0]);
    }
}

/// A text of ASCII characters has as many bytes as characters.
pub proof fn lemma_ascii_byte_size(s: Seq<char>)
    requires
        forall|i: int| 0 <= i < s.len() ==> '\0' <= #[trigger] s[i] <= '\u{7f}',
    ensures
        byte_size(s) == s.len(),
{
    vstd::utf8::is_ascii_chars_encode_utf8(s);
}

/// How many bytes `c` takes in UTF-8.
pub open spec fn char_size(c: char) -> nat {
    vstd::utf8::encode_scalar(c as u32).len()
}

/// A character takes the bytes of its code.
pub proof fn lemma_char_size(c: char)
    ensures
        byte_size(seq![c]) == char_size(c),
        c as u32 <= 0x7f ==> char_size(c) == 1,
        0x800 <= c as u32 <= 0xffff ==> char_size(c) == 3,
{
    vstd::utf8::char_is_scalar(c);
    assert(seq![c].drop_first() =~= Seq::empty());
    reveal_with_fuel(vstd::utf8::encode_utf8, 2);
}

/// The start of `s` that takes `n` bytes in UTF-8, where a character ends there.
pub open spec fn byte_prefix(s: Seq<char>, n: int) -> Option<Seq<char>>
    decreases s.len(),
{
    if n == 0 {
        Some(Seq::empty())
    } else if n < 0 || s.len() == 0 {
        None
    } else {
        match byte_prefix(s.drop_first(), n - char_size(s[0])) {
            Some(t) => Some(seq![s[0]] + t),
            None => None,
        }
    }
}

/// The start that `byte_prefix` gives is a start of `s` and has that size.
pub proof fn lemma_byte_prefix(s: Seq<char>, n: int)
    requires
        byte_prefix(s, n) is Some,
    ensures
        byte_size(byte_prefix(s, n)->0) == n,
        begins(s, byte_prefix(s, n)->0),
    decreases s.len(),
{
    if n == 0 {
        assert(s.subrange(0, 0) =~= Seq::empty());
    } else {
        let m = n - char_size(s[0]);
        lemma_byte_prefix(s.drop_first(), m);
        let t = byte_prefix(s.drop_first(), m)->0;
        let r = byte_prefix(s, n)->0;
        assert(r.drop_first() =~= t);
        let k = t.len() as int;
        assert(s.subrange(0, k + 1) =~= seq![s[0]] + s.drop_first().subrange(0, k));
    }
}

/// A text of ASCII characters can be cut anywhere.
pub proof fn lemma_ascii_byte_prefix(s: Seq<char>, n: int)
    requires
        forall|i: int| 0 <= i < s.len() ==> '\0' <= #[trigger] s[i] <= '\u{7f}',
        0 <= n <= s.len(),
    ensures
        byte_prefix(s, n) is Some,
    decreases s.len(),
{
    if n > 0 {
        lemma_char_size(s[0]);
        lemma_ascii_byte_prefix(s.drop_first(), n - 1);
    }
}

/// The start of `s` that takes `n` bytes in UTF-8, where a character ends there.
pub fn get_bytes<'a>(s: &'a str, n: usize) -> (r: Option<&'a str>)
    ensures
        opt_str(r) == byte_prefix(s@, n as int),
{
    let v = chars_of(s);
    let mut left: usize = n;
    let mut i: usize = 0;
    proof {
        assert(s@.skip(0) =~= s@);
        match byte_prefix(s@, n as int) {
            Some(t) => {
                assert(s@.take(0) + t =~= t);
            },
            None => {},
        }
    }
    while i < v.len() && left > 0
        invariant
            v@ == s@,
            i <= v@.len(),
            byte_prefix(s@, n as int) == (match byte_prefix(s@.skip(i as int), left as int) {
                Some(t) => Some(s@.take(i as int) + t),
                None => None,
            }),
        decreases v.len() - i,
    {
        let first: char = v[i];
        let c: u32 = first as u32;
        proof {
            vstd::utf8::char_is_scalar(first);
        }
        let width: usize = if c < 0x80 {
            1
        } else if c < 0x800 {
            2
        } else if c < 0x10000 {
            3
        } else {
            4
        };
        let ghost rest = s@.skip(i as int);
        proof {
            assert(rest.drop_first() =~= s@.skip(i + 1));
            assert(width == char_size(s@[i as int]));
            match byte_prefix(s@.skip(i + 1), left - width) {
                Some(t) => {
                    assert(s@.take(i as int) + (seq![rest[0]] + t) =~= s@.take(i + 1) + t);
                },
                None => {},
            }
        }
        if width > left {
            return None;
        }
        left -= width;
        i += 1;
    }
    if left > 0 {
        None
    } else {
        let r = s.substring_char(0, i);
        proof {
            assert(r@ =~= s@.take(i as int) + Seq::empty());
        }
        Some(r)
    }
}

// ------------------------------------------------------------------ numbers

/// The decimal digit for `d`.
pub open spec fn digit(d: nat) -> char {
    (48 + d) as char
}

/// `n` in decimal.
pub open spec fn decimal(n: nat) -> Seq<char>
    decreases n,
{
    if n < 10 {
        seq![digit(n)]
    } else {
        decimal(n / 10).push(digit(n % 10))
    }
}

/// `n` in decimal.
pub fn to_decimal(n: u64) -> (r: String)
    ensures
        r@ == decimal(n as nat),
    decreases n,
{
    let last: char = (48 + (n % 10) as u8) as char;
    let mut r = String::new();
    if n >= 10 {
        r = to_decimal(n / 10);
    }
    r.push(last);
    proof {
        if n < 10 {
            assert(r@ =~= seq![digit(n as nat)]);
        }
    }
    r
}

/// Is each character a decimal digit?
pub open spec fn all_digits(s: Seq<char>) -> bool {
    forall|i: int| 0 <= i < s.len() ==> '0' <= #[trigger] s[i] <= '9'
}

/// The number that the decimal digits `s` write.
pub open spec fn digits_value(s: Seq<char>) -> nat
    decreases s.len(),
{
    if s.len() == 0 {
        0
    } else {
        digits_value(s.drop_last()) * 10 + (s.last() as u32 - 48) as nat
    }
}

/// `s` without a plus sign at its start.
pub open spec fn without_plus(s: Seq<char>) -> Seq<char> {
    if s.len() > 0 && s[0] == '+' {
        s.drop_first()
    } else {
        s
    }
}

/// The number up to `max` that `s` writes: an optional plus sign, then digits.
pub open spec fn number_in(s: Seq<char>, max: nat) -> Option<nat> {
    let body = without_plus(s);
    if body.len() > 0 && all_digits(body) && digits_value(body) <= max {
        Some(digits_value(body))
    } else {
        None
    }
}

/// More digits write no smaller number.
proof fn lemma_digits_value_grows(s: Seq<char>, k: int)
    requires
        0 <= k <= s.len(),
    ensures
        digits_value(s.take(k)) <= digits_value(s),
    decreases s.len() - k,
{
    if k == s.len() {
        assert(s.take(k) =~= s);
    } else {
        lemma_digits_value_grows(s, k + 1);
        assert(s.take(k + 1).drop_last() =~= s.take(k));
    }
}

/// The optional number as a natural number.
pub open spec fn opt_nat(n: Option<u64>) -> Option<nat> {
    match n {
        Some(n) => Some(n as nat),
        None => None,
    }
}

/// The number that `s` writes, where it writes one that a `u64` holds.
pub fn parse_u64(s: &str) -> (r: Option<u64>)
    ensures
        opt_nat(r) == number_in(s@, u64::MAX as nat),
{
    let v = chars_of(s);
    let n: usize = v.len();
    let mut start: usize = 0;
    if n > 0 && v[0] == '+' {
        start = 1;
    }
    let ghost body = without_plus(s@);
    proof {
        assert(body =~= s@.skip(start as int));
    }
    if start == n {
        return None;
    }
    let mut value: u64 = 0;
    let mut i: usize = start;
    proof {
        assert(body.take(0) =~= Seq::empty());
    }
    while i < n
        invariant
            v@ == s@,
            n == v@.len(),
            start <= i <= n,
            start < n,
            body == without_plus(s@),
            body == s@.skip(start as int),
            forall|j: int| 0 <= j < i - start ==> '0' <= #[trigger] body[j] <= '9',
            value == digits_value(body.take(i - start)),
        decreases n - i,
    {
        let c: char = v[i];
        let ghost k = i - start;
        proof {
            assert(body[k] == c);
            assert(body.take(k + 1).drop_last() =~= body.take(k));
        }
        if c < '0' || c > '9' {
            return None;
        }
        let d: u64 = (c as u8 - 48) as u64;
        proof {
            lemma_digits_value_grows(body, k + 1);
        }
        if value > (u64::MAX - d) / 10 {
            return None;
        }
        value = value * 10 + d;
        i += 1;
    }
    proof {
        assert(body.take(i - start) =~= body);
    }
    Some(value)
}

/// What is written in decimal is read back.
pub proof fn law_decimal_reads_back(n: nat, max: nat)
    requires
        n <= max,
    ensures
        number_in(decimal(n), max) == Some(n),
{
    lemma_decimal(n);
}

/// The digits of a number.
pub proof fn lemma_decimal(n: nat)
    ensures
        decimal(n).len() > 0,
        all_digits(decimal(n)),
        digits_value(decimal(n)) == n,
    decreases n,
{
    if n >= 10 {
        lemma_decimal(n / 10);
        assert(decimal(n).drop_last() =~= decimal(n / 10));
    } else {
        assert(decimal(n).drop_last() =~= Seq::empty());
        assert(digits_value(Seq::empty()) == 0);
    }
}

/// Ten to the power `k`.
pub open spec fn ten_to(k: nat) -> nat
    decreases k,
{
    if k == 0 {
        1
    } else {
        10 * ten_to((k - 1) as nat)
    }
}

/// A number below ten to the power `k` has at most `k` digits.
pub proof fn lemma_decimal_len(n: nat, k: nat)
    requires
        k > 0,
        n < ten_to(k),
    ensures
        decimal(n).len() <= k,
    decreases k,
{
    if n >= 10 {
        assert(k > 1) by {
            if k == 1 {
                assert(ten_to(1) == 10 * ten_to(0));
            }
        }
        lemma_decimal_len(n / 10, (k - 1) as nat);
    }
}

/// A number that a `u64` holds has at most twenty digits.
pub proof fn lemma_u64_decimal_len(n: nat)
    requires
        n <= u64::MAX,
    ensures
        decimal(n).len() <= 20,
{
    reveal_with_fuel(ten_to, 21);
    lemma_decimal_len(n, 20);
}

// ---------------------------------------------------- what holds of any text

/// What stands in a part of a text that stands in `hay` stands in `hay`.
pub proof fn law_parts_of_parts_are_found(hay: Seq<char>, part: Seq<char>, needle: Seq<char>)
    requires
        has_text(hay, part),
        has_text(part, needle),
    ensures
        has_text(hay, needle),
{
    let i = choose|i: int| occurs_at(hay, part, i);
    lemma_found_in_part(hay, i, i + part.len(), needle);
}

/// A text holds each of its parts: what stands between any two others, at its
/// start, at its end, and itself.
pub proof fn law_parts_are_found(a: Seq<char>, b: Seq<char>, c: Seq<char>)
    ensures
        has_text(a + b + c, b),
        has_text(a + b, a),
        has_text(a + b, b),
        has_text(b, b),
        begins(a + b, a),
        ends(a + b, b),
{
    assert((a + b + c).subrange(a.len() as int, (a.len() + b.len()) as int) =~= b);
    assert(occurs_at(a + b + c, b, a.len() as int));
    assert((a + b).subrange(0, a.len() as int) =~= a);
    assert(occurs_at(a + b, a, 0));
    assert((a + b).subrange(a.len() as int, (a + b).len() as int) =~= b);
    assert(occurs_at(a + b, b, a.len() as int));
    assert(b.subrange(0, b.len() as int) =~= b);
    assert(occurs_at(b, b, 0));
}

/// Lower case changes the letters from `A` to `Z` and nothing else, each in its
/// place.
pub proof fn law_lower_case_changes_letters_only(s: Seq<char>, i: int)
    requires
        0 <= i < s.len(),
    ensures
        lower(s).len() == s.len(),
        'A' <= s[i] <= 'Z' ==> lower(s)[i] as u32 == s[i] as u32 + 32,
        !('A' <= s[i] <= 'Z') ==> lower(s)[i] == s[i],
        lower(lower(s)) == lower(s),
{
    assert(lower(lower(s)) =~= lower(s)) by {
        assert forall|j: int| 0 <= j < s.len() implies lower(lower(s))[j] == lower(s)[j] by {
            assert(lower(s)[j] == lower_char(s[j]));
        }
    }
}

/// What stands in a text stands in it in lower case too.
pub proof fn law_lower_case_keeps_parts(s: Seq<char>, part: Seq<char>)
    requires
        has_text(s, part),
    ensures
        has_text(lower(s), lower(part)),
{
    let i = choose|i: int| occurs_at(s, part, i);
    assert(lower(s).subrange(i, i + part.len()) =~= lower(part)) by {
        assert forall|j: int| 0 <= j < part.len() implies lower(s)[i + j] == lower(part)[j] by {
            assert(s.subrange(i, i + part.len())[j] == part[j]);
        }
    }
    assert(occurs_at(lower(s), lower(part), i));
}

/// Where trimming at the start stops.
proof fn lemma_trim_start(s: Seq<char>, p: spec_fn(char) -> bool) -> (n: int)
    ensures
        0 <= n <= s.len(),
        trim_start_by(s, p) == s.skip(n),
        forall|i: int| 0 <= i < n ==> p(#[trigger] s[i]),
        n < s.len() ==> !p(s[n]),
    decreases s.len(),
{
    if s.len() > 0 && p(s[0]) {
        let rest = s.drop_first();
        let n = lemma_trim_start(rest, p);
        assert(rest.skip(n) =~= s.skip(n + 1));
        assert forall|i: int| 0 <= i < n + 1 implies p(#[trigger] s[i]) by {
            if i > 0 {
                assert(s[i] == rest[i - 1]);
            }
        }
        n + 1
    } else {
        assert(s.skip(0) =~= s);
        0
    }
}

/// Where trimming at the end stops.
proof fn lemma_trim_end(s: Seq<char>, p: spec_fn(char) -> bool) -> (n: int)
    ensures
        0 <= n <= s.len(),
        trim_end_by(s, p) == s.take(n),
        forall|i: int| n <= i < s.len() ==> p(#[trigger] s[i]),
        n > 0 ==> !p(s[n - 1]),
    decreases s.len(),
{
    if s.len() > 0 && p(s.last()) {
        let rest = s.drop_last();
        let n = lemma_trim_end(rest, p);
        assert(rest.take(n) =~= s.take(n));
        assert forall|i: int| n <= i < s.len() implies p(#[trigger] s[i]) by {
            if i < s.len() - 1 {
                assert(s[i] == rest[i]);
            }
        }
        n
    } else {
        assert(s.take(s.len() as int) =~= s);
        s.len() as int
    }
}

/// Trimming takes from both ends the characters of the kind it is asked to take,
/// and no others: with them before and behind any text that neither begins nor ends
/// in one, it gives back that text.
pub proof fn law_trimming_leaves_the_middle(
    before: Seq<char>,
    middle: Seq<char>,
    behind: Seq<char>,
    p: spec_fn(char) -> bool,
)
    requires
        forall|i: int| 0 <= i < before.len() ==> p(#[trigger] before[i]),
        forall|i: int| 0 <= i < behind.len() ==> p(#[trigger] behind[i]),
        middle.len() > 0 ==> !p(middle[0]) && !p(middle.last()),
    ensures
        trim_by(before + middle + behind, p) == middle,
{
    let s = before + middle + behind;
    let n = lemma_trim_start(s, p);
    if middle.len() == 0 {
        if n < s.len() {
            if n < before.len() {
                assert(s[n] == before[n]);
            } else {
                assert(s[n] == behind[n - before.len()]);
            }
        }
        assert(s.skip(n) =~= Seq::empty());
        assert(trim_by(s, p) =~= middle);
    } else {
        let k = before.len() as int;
        assert(s[k] == middle[0]);
        if n < k {
            assert(s[n] == before[n]);
        }
        assert(n == k);
        let t = s.skip(n);
        assert(t =~= middle + behind);
        let m = lemma_trim_end(t, p);
        let last = middle.len() - 1;
        assert(t[last] == middle.last());
        if m > middle.len() {
            assert(t[m - 1] == behind[m - 1 - middle.len()]);
        }
        assert(m == middle.len());
        assert(t.take(m) =~= middle);
    }
}

/// White space around a text is taken off, and a text that neither begins nor ends
/// in white space stays as it is.
pub proof fn law_trimmed_of_white_space(before: Seq<char>, middle: Seq<char>, behind: Seq<char>)
    requires
        forall|i: int| 0 <= i < before.len() ==> is_white_space(#[trigger] before[i]),
        forall|i: int| 0 <= i < behind.len() ==> is_white_space(#[trigger] behind[i]),
        middle.len() > 0 ==> !is_white_space(middle[0]) && !is_white_space(middle.last()),
    ensures
        trimmed(before + middle + behind) == middle,
        trimmed(middle) == middle,
{
    law_trimming_leaves_the_middle(before, middle, behind, blank());
    law_trimming_leaves_the_middle(Seq::empty(), middle, Seq::empty(), blank());
    assert(Seq::empty() + middle + Seq::empty() =~= middle);
}

/// The white space of ASCII is white space, and no printable character of ASCII is.
pub proof fn law_white_space_of_ascii(c: char)
    requires
        (c as u32) < 0x80,
    ensures
        is_white_space(c) <==> (c == ' ' || c == '\t' || c == '\n' || c == '\r' || c as u32 == 0xb
            || c as u32 == 0xc),
{
}

/// A text is split at the first of a character: what stands before it holds none,
/// what stands behind it is kept whole, whatever it holds.
pub proof fn law_split_at_the_first(a: Seq<char>, c: char, b: Seq<char>)
    requires
        !a.contains(c),
    ensures
        split_first(a + seq![c] + b, c) == Some((a, b)),
        split_first(a, c) is None,
{
    let s = a + seq![c] + b;
    let k = a.len() as int;
    assert forall|i: int| 0 <= i < k implies s[i] != c by {
        assert(s[i] == a[i]);
    }
    lemma_first_index_is(s, c, k);
    assert(s.take(k) =~= a);
    assert(s.skip(k + 1) =~= b);
    assert forall|i: int| 0 <= i < a.len() implies a[i] != c by {
        assert(a.contains(a[i]));
    }
    lemma_first_index_is(a, c, k);
}

/// A text is split at the last of a character: what stands behind it holds none,
/// what stands before it is kept whole, whatever it holds.
pub proof fn law_split_at_the_last(a: Seq<char>, c: char, b: Seq<char>)
    requires
        !b.contains(c),
    ensures
        split_last(a + seq![c] + b, c) == Some((a, b)),
        split_last(b, c) is None,
    decreases b.len(),
{
    let s = a + seq![c] + b;
    if b.len() == 0 {
        assert(s.drop_last() =~= a);
        assert(s.last() == c);
        assert(split_last(s, c).unwrap().0 =~= a);
        assert(split_last(s, c).unwrap().1 =~= b);
    } else {
        assert(b.contains(b.last()));
        let rest = b.drop_last();
        assert forall|i: int| 0 <= i < rest.len() implies rest[i] != c by {
            assert(b.contains(b[i]));
        }
        law_split_at_the_last(a, c, rest);
        assert(s.drop_last() =~= a + seq![c] + rest);
        assert(rest.push(b.last()) =~= b);
    }
}

/// A text of lines that each end in a line break, and hold none besides, has these
/// lines and then those of what follows; a carriage return before the break is no
/// part of the line.
pub proof fn law_lines_are_told_apart(line: Seq<char>, rest: Seq<char>)
    requires
        !line.contains('\n'),
    ensures
        line.len() == 0 || line.last() != '\r' ==> lines_of(line + seq!['\n'] + rest) == seq![line]
            + lines_of(rest),
        lines_of(line + seq!['\r', '\n'] + rest) == seq![line] + lines_of(rest),
        line.len() > 0 ==> lines_of(line) == seq![line],
        lines_of(Seq::empty()) == Seq::<Seq<char>>::empty(),
{
    let s = line + seq!['\n'] + rest;
    law_split_at_the_first(line, '\n', rest);
    lemma_first_index(s, '\n');
    let k = first_index(s, '\n');
    assert(s.take(k) == line && s.skip(k + 1) == rest);
    let back = line.push('\r');
    assert forall|i: int| 0 <= i < back.len() implies back[i] != '\n' by {
        if i < line.len() {
            assert(line.contains(line[i]));
        }
    }
    let t = back + seq!['\n'] + rest;
    assert(line + seq!['\r', '\n'] + rest =~= t);
    law_split_at_the_first(back, '\n', rest);
    lemma_first_index(t, '\n');
    let m = first_index(t, '\n');
    assert(t.take(m) == back && t.skip(m + 1) == rest);
    assert(back.drop_last() =~= line);
    assert(without_return(back) == line);
    lemma_first_index(line, '\n');
}

/// Joined texts hold each part whole, with the separator before each part but the
/// first and behind each but the last.
pub proof fn law_joined_texts_hold_each_part(parts: Seq<Seq<char>>, sep: Seq<char>, i: int)
    requires
        0 <= i < parts.len(),
    ensures
        has_text(joined(parts, sep), parts[i]),
        i == 0 ==> begins(joined(parts, sep), parts[0]),
        i > 0 ==> has_text(joined(parts, sep), sep + parts[i]),
        i + 1 < parts.len() ==> has_text(joined(parts, sep), parts[i] + sep),
    decreases i,
{
    let all = joined(parts, sep);
    if parts.len() == 1 {
        law_parts_are_found(all, all, all);
        assert(all.subrange(0, all.len() as int) =~= all);
    } else {
        let rest = joined(parts.drop_first(), sep);
        assert(all == parts[0] + (sep + rest));
        if i == 0 {
            law_parts_are_found(parts[0], sep + rest, rest);
            law_parts_are_found(parts[0] + sep, rest, rest);
            assert(all =~= parts[0] + sep + rest);
        } else {
            law_joined_texts_hold_each_part(parts.drop_first(), sep, i - 1);
            assert(parts.drop_first()[i - 1] == parts[i]);
            assert(all =~= parts[0] + sep + rest);
            law_parts_are_found(parts[0] + sep, rest, rest);
            law_parts_of_parts_are_found(all, rest, parts[i]);
            if i == 1 {
                let more = rest.skip(parts[1].len() as int);
                assert(rest =~= parts[1] + more) by {
                    assert(rest.subrange(0, parts[1].len() as int) == parts[1]);
                    assert(rest =~= rest.subrange(0, parts[1].len() as int) + more);
                }
                assert(all =~= parts[0] + (sep + parts[1]) + more);
                law_parts_are_found(parts[0], sep + parts[1], more);
            } else {
                law_parts_of_parts_are_found(all, rest, sep + parts[i]);
            }
            if i + 1 < parts.len() {
                law_parts_of_parts_are_found(all, rest, parts[i] + sep);
            }
        }
    }
}

/// Joining takes each part once and in order: the first part alone is itself, and a
/// part more comes last, behind a separator.
pub proof fn law_joined_texts_keep_the_order(parts: Seq<Seq<char>>, sep: Seq<char>, last: Seq<char>)
    ensures
        parts.len() == 0 ==> joined(parts, sep) == Seq::<char>::empty(),
        parts.len() == 0 ==> joined(parts.push(last), sep) == last,
        parts.len() > 0 ==> joined(parts.push(last), sep) == joined(parts, sep) + sep + last,
{
    if parts.len() > 0 {
        lemma_joined_push(parts, sep, last);
    }
}

/// Where `old` first stands in a text, `new` takes its place: what is before it
/// stays, and what is behind it is treated in the same way.
pub proof fn law_the_first_is_replaced(
    a: Seq<char>,
    old: Seq<char>,
    new: Seq<char>,
    b: Seq<char>,
)
    requires
        old.len() > 0,
        forall|i: int| 0 <= i < a.len() ==> !occurs_at(a + old + b, old, i),
    ensures
        replaced(a + old + b, old, new) == a + new + replaced(b, old, new),
    decreases a.len(),
{
    let s = a + old + b;
    if a.len() == 0 {
        assert(s =~= old + b);
        assert(s.subrange(0, old.len() as int) =~= old);
        assert(s.skip(old.len() as int) =~= b);
        assert(a + new + replaced(b, old, new) =~= new + replaced(b, old, new));
    } else {
        let rest = a.drop_first();
        assert(s.drop_first() =~= rest + old + b);
        assert forall|i: int| 0 <= i < rest.len() implies !occurs_at(rest + old + b, old, i) by {
            assert((rest + old + b).subrange(i, i + old.len()) =~= s.subrange(
                i + 1,
                i + 1 + old.len(),
            ));
            assert(!occurs_at(s, old, i + 1));
        }
        law_the_first_is_replaced(rest, old, new, b);
        assert(!occurs_at(s, old, 0));
        assert(seq![s[0]] + (rest + new + replaced(b, old, new)) =~= a + new + replaced(
            b,
            old,
            new,
        ));
    }
}

/// A text in which `old` does not stand stays as it is.
pub proof fn law_nothing_else_is_replaced(s: Seq<char>, old: Seq<char>, new: Seq<char>)
    requires
        !has_text(s, old),
    ensures
        replaced(s, old, new) == s,
    decreases s.len(),
{
    if s.len() > 0 && old.len() > 0 {
        assert(!occurs_at(s, old, 0));
        let rest = s.drop_first();
        if has_text(rest, old) {
            assert(rest =~= s.subrange(1, s.len() as int));
            lemma_found_in_part(s, 1, s.len() as int, old);
        }
        law_nothing_else_is_replaced(rest, old, new);
        assert(seq![s[0]] + rest =~= s);
    }
}

/// The first characters of a text are its beginning: as many as are asked for, or
/// all.
pub proof fn law_first_characters(s: Seq<char>, n: nat)
    ensures
        begins(s, first_chars(s, n)),
        first_chars(s, n).len() == if s.len() < n { s.len() } else { n },
{
    assert(s.subrange(0, first_chars(s, n).len() as int) =~= first_chars(s, n));
}

/// What is written in decimal is the number's digits from the highest down, without
/// a zero in front.
pub proof fn law_decimal_digits(n: nat, d: nat)
    requires
        d < 10,
    ensures
        n == 0 ==> decimal(d) == seq![(48 + d) as char],
        n > 0 ==> decimal(10 * n + d) == decimal(n).push((48 + d) as char),
{
    if n > 0 {
        assert((10 * n + d) / 10 == n && (10 * n + d) % 10 == d);
    }
}

/// What is read as a number is digits, behind at most one plus sign, and is not
/// larger than allowed.
pub proof fn law_numbers_are_digits(s: Seq<char>, max: nat, digits: Seq<char>)
    requires
        s == digits || s == seq!['+'] + digits,
        digits.len() == 0 || digits[0] != '+',
    ensures
        number_in(s, max) matches Some(n) ==> n <= max,
        number_in(s, max) is Some ==> digits.len() > 0 && forall|i: int|
            0 <= i < digits.len() ==> '0' <= #[trigger] digits[i] <= '9',
        number_in(s, max) == number_in(digits, max),
{
    if s == seq!['+'] + digits {
        assert(s.drop_first() =~= digits);
    }
    if s != digits || digits.len() == 0 || digits[0] != '+' {
        assert(without_plus(s) == digits);
    }
    assert(without_plus(digits) == digits);
}

/// Parts that follow one another stand so in the joined text, with the separator
/// between them; the last part ends it.
pub proof fn law_joined_texts_keep_neighbours(parts: Seq<Seq<char>>, sep: Seq<char>, i: int)
    requires
        0 <= i < parts.len(),
    ensures
        i + 1 < parts.len() ==> has_text(joined(parts, sep), parts[i] + sep + parts[i + 1]),
        i + 1 == parts.len() ==> ends(joined(parts, sep), parts[i]),
    decreases parts.len(),
{
    let all = joined(parts, sep);
    let front = parts.drop_last();
    let last = parts.last();
    assert(front.push(last) =~= parts);
    if front.len() > 0 {
        lemma_joined_push(front, sep, last);
        let before = joined(front, sep);
        assert(all == before + sep + last);
        law_parts_are_found(before, sep, last);
        law_parts_are_found(before + sep, last, last);
        if i + 2 < parts.len() {
            law_joined_texts_keep_neighbours(front, sep, i);
            assert(all =~= before + (sep + last));
            law_parts_are_found(before, sep + last, last);
            law_parts_of_parts_are_found(all, before, parts[i] + sep + parts[i + 1]);
        } else if i + 2 == parts.len() {
            law_joined_texts_keep_neighbours(front, sep, i);
            let head = before.take(before.len() - front[i].len());
            assert(before =~= head + front[i]) by {
                assert(before.subrange(before.len() - front[i].len(), before.len() as int)
                    == front[i]);
                assert(before =~= head + before.subrange(
                    before.len() - front[i].len(),
                    before.len() as int,
                ));
            }
            assert(all =~= head + (parts[i] + sep + parts[i + 1]));
            law_parts_are_found(head, parts[i] + sep + parts[i + 1], last);
        }
    } else {
        assert(all.subrange(0, all.len() as int) =~= all);
    }
}

/// A part between two others stands in the joined text with a separator on either
/// side.
pub proof fn law_joined_texts_frame_each_part(parts: Seq<Seq<char>>, sep: Seq<char>, i: int)
    requires
        0 < i < parts.len() - 1,
    ensures
        has_text(joined(parts, sep), sep + parts[i] + sep),
    decreases parts.len(),
{
    let rest = parts.drop_first();
    let more = joined(rest, sep);
    let all = joined(parts, sep);
    assert(all =~= parts[0] + sep + more);
    if i == 1 {
        let last = joined(rest.drop_first(), sep);
        assert(more == rest[0] + (sep + last));
        assert(all =~= parts[0] + (sep + parts[1] + sep) + last);
        law_parts_are_found(parts[0], sep + parts[1] + sep, last);
    } else {
        law_joined_texts_frame_each_part(rest, sep, i - 1);
        law_parts_are_found(parts[0] + sep, more, more);
        law_parts_of_parts_are_found(all, more, sep + parts[i] + sep);
    }
}

/// A text that goes on still holds what it held, and begins as it began.
pub proof fn law_texts_go_on(s: Seq<char>, more: Seq<char>, q: Seq<char>)
    ensures
        has_text(s, q) ==> has_text(s + more, q),
        has_text(s, q) ==> has_text(more + s, q),
        begins(s, q) ==> begins(s + more, q),
        ends(s, q) ==> ends(more + s, q),
{
    if has_text(s, q) {
        let i = choose|i: int| occurs_at(s, q, i);
        assert((s + more).subrange(i, i + q.len()) =~= s.subrange(i, i + q.len()));
        assert(occurs_at(s + more, q, i));
        let k = more.len() + i;
        assert((more + s).subrange(k, k + q.len()) =~= s.subrange(i, i + q.len()));
        assert(occurs_at(more + s, q, k));
    }
    if begins(s, q) {
        assert((s + more).subrange(0, q.len() as int) =~= s.subrange(0, q.len() as int));
    }
    if ends(s, q) {
        let i = s.len() - q.len();
        let k = more.len() + i;
        assert((more + s).subrange(k, k + q.len()) =~= s.subrange(i, i + q.len()));
    }
}

/// The last pieces that a text is made of end it.
pub proof fn law_last_pieces_end_a_text(x: Seq<char>, a: Seq<char>, b: Seq<char>, c: Seq<char>)
    ensures
        x + a + b + c == x + (a + b + c),
        x + a + b == x + (a + b),
        ends(x + a + b + c, a + b + c),
        ends(x + a + b, a + b),
        has_text(x + a + b + c, a + b + c),
        has_text(x + a + b, a + b),
{
    assert(x + a + b + c =~= x + (a + b + c));
    assert(x + a + b =~= x + (a + b));
    law_parts_are_found(x, a + b + c, c);
    law_parts_are_found(x, a + b, c);
}

/// A text that does not begin in white space is trimmed at its end alone, and so
/// begins as it did.
pub proof fn law_trimming_keeps_a_start(s: Seq<char>)
    requires
        s.len() > 0,
        !is_white_space(s[0]),
    ensures
        trimmed(s).len() > 0,
        begins(s, trimmed(s)),
        forall|i: int| trimmed(s).len() <= i < s.len() ==> is_white_space(#[trigger] s[i]),
{
    let n = lemma_trim_start(s, blank());
    assert(n == 0) by {
        if n > 0 {
            assert(blank()(s[0]));
        }
    }
    assert(s.skip(0) =~= s);
    let m = lemma_trim_end(s, blank());
    if m == 0 {
        assert(blank()(s[0]));
    }
    assert(s.subrange(0, m) =~= s.take(m));
}

/// A text stands in another where that has the same characters one by one; it begins
/// or ends it where they are the first or the last.
pub proof fn law_occurrences_are_exact(hay: Seq<char>, needle: Seq<char>, at: int)
    ensures
        occurs_at(hay, needle, at) <==> 0 <= at && at + needle.len() <= hay.len() && forall|i: int|
            0 <= i < needle.len() ==> hay[at + i] == #[trigger] needle[i],
        begins(hay, needle) <==> occurs_at(hay, needle, 0),
        ends(hay, needle) <==> occurs_at(hay, needle, hay.len() - needle.len()),
        has_text(hay, needle) <==> exists|i: int| occurs_at(hay, needle, i),
{
    if 0 <= at && at + needle.len() <= hay.len() {
        let part = hay.subrange(at, at + needle.len());
        if part == needle {
            assert forall|i: int| 0 <= i < needle.len() implies hay[at + i]
                == #[trigger] needle[i] by {
                assert(part[i] == hay[at + i]);
            }
        }
        if forall|i: int| 0 <= i < needle.len() ==> hay[at + i] == #[trigger] needle[i] {
            assert(part =~= needle);
        }
    }
}

/// A prefix is taken off once, and what follows it is left whole; a text that does
/// not begin with it gives nothing.
pub proof fn law_prefixes_are_taken_off(prefix: Seq<char>, rest: Seq<char>, s: Seq<char>)
    ensures
        without_prefix(prefix + rest, prefix) == Some(rest),
        !begins(s, prefix) ==> without_prefix(s, prefix) is None,
{
    assert((prefix + rest).subrange(0, prefix.len() as int) =~= prefix);
    assert((prefix + rest).skip(prefix.len() as int) =~= rest);
}

/// Optional texts and lists of texts are taken as the texts that they hold, in order.
pub proof fn law_texts_are_what_they_hold(
    parts: Seq<String>,
    i: int,
    s: String,
    t: &str,
    u: &str,
    n: u64,
)
    ensures
        texts(parts).len() == parts.len(),
        0 <= i < parts.len() ==> texts(parts)[i] == parts[i]@,
        opt_text(Some(s)) == Some(s@),
        opt_text(None) is None,
        opt_str(Some(t)) == Some(t@),
        opt_str(None) is None,
        opt_pair(Some((t, u))) == Some((t@, u@)),
        opt_pair(None) is None,
        opt_nat(Some(n)) == Some(n as nat),
        opt_nat(None) is None,
{
}

/// White space is a space, a tab or a break in ASCII, and the few characters beyond
/// it that Unicode counts as such.
pub proof fn law_what_white_space_is(c: char)
    ensures
        is_white_space(c) <==> seq![
            '\t',
            '\n',
            '\u{b}',
            '\u{c}',
            '\r',
            ' ',
            '\u{85}',
            '\u{a0}',
            '\u{1680}',
            '\u{2028}',
            '\u{2029}',
            '\u{202f}',
            '\u{205f}',
            '\u{3000}',
        ].contains(c) || '\u{2000}' <= c <= '\u{200a}',
        blank()(c) == is_white_space(c),
        either('"', '\'')(c) <==> c == '"' || c == '\'',
        either('`', '`')(c) <==> c == '`',
{
    let list = seq![
        '\t',
        '\n',
        '\u{b}',
        '\u{c}',
        '\r',
        ' ',
        '\u{85}',
        '\u{a0}',
        '\u{1680}',
        '\u{2028}',
        '\u{2029}',
        '\u{202f}',
        '\u{205f}',
        '\u{3000}',
    ];
    assert(list[0] == '\t' && list[1] == '\n' && list[2] == '\u{b}' && list[3] == '\u{c}' && list[4]
        == '\r' && list[5] == ' ' && list[6] == '\u{85}' && list[7] == '\u{a0}' && list[8]
        == '\u{1680}' && list[9] == '\u{2028}' && list[10] == '\u{2029}' && list[11] == '\u{202f}'
        && list[12] == '\u{205f}' && list[13] == '\u{3000}');
    if list.contains(c) {
        let i = choose|i: int| 0 <= i < list.len() && list[i] == c;
        assert(is_white_space(list[i]));
    }
    if is_white_space(c) && !('\u{2000}' <= c <= '\u{200a}') {
        assert(exists|i: int| 0 <= i < list.len() && list[i] == c);
    }
}

/// A number is read digit by digit: one more digit makes it ten times as large, and
/// adds that digit.
pub proof fn law_numbers_are_read_digit_by_digit(digits: Seq<char>, d: nat, max: nat)
    requires
        d < 10,
        digits.len() == 0 || digits[0] != '+',
    ensures
        d <= max ==> number_in(seq![(48 + d) as char], max) == Some(d),
        number_in(digits, max) matches Some(n) ==> (10 * n + d <= max ==> number_in(
            digits.push((48 + d) as char),
            max,
        ) == Some(10 * n + d)),
        number_in(digits, max) matches Some(n) ==> (10 * n + d > max ==> number_in(
            digits.push((48 + d) as char),
            max,
        ) is None),
{
    let c = (48 + d) as char;
    assert('0' <= c <= '9');
    let one = seq![c];
    assert(one.drop_last() =~= Seq::empty());
    assert(digits_value(Seq::empty()) == 0);
    assert(digits_value(one) == d);
    assert(without_plus(one) == one);
    let more = digits.push(c);
    if number_in(digits, max) is Some {
        assert(without_plus(digits) == digits);
        assert(more.drop_last() =~= digits);
        assert(more[0] == digits[0]);
        assert(without_plus(more) == more);
        assert(all_digits(more));
    }
}

/// A beginning of a text that takes that many bytes is found by its size.
pub proof fn law_beginnings_are_found_by_size(s: Seq<char>, t: Seq<char>)
    requires
        begins(s, t),
    ensures
        byte_prefix(s, byte_size(t) as int) == Some(t),
    decreases t.len(),
{
    if t.len() == 0 {
        lemma_ascii_byte_size(t);
        assert(t =~= Seq::empty());
    } else {
        let rest = t.drop_first();
        assert(s.subrange(0, t.len() as int)[0] == s[0]);
        assert(s.drop_first().subrange(0, rest.len() as int) =~= s.subrange(
            0,
            t.len() as int,
        ).drop_first());
        law_beginnings_are_found_by_size(s.drop_first(), rest);
        assert(t =~= seq![t[0]] + rest);
        lemma_byte_size_add(seq![t[0]], rest);
        lemma_char_size(t[0]);
        lemma_len_within_byte_size(seq![t[0]]);
    }
}

} // verus!
