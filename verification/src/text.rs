//! Character-level string operations with their mathematical meaning.
use vstd::prelude::*;
use vstd::string::*;

verus! {

/// `std::string::String::push`: appends one character at the end.
#[verifier::external_body]
pub(crate) fn push_char(s: &mut String, c: char)
    ensures
        final(s)@ == old(s)@.push(c),
{
    s.push(c);
}

/// `p` is a prefix of `s`.
pub open spec fn is_prefix(p: Seq<char>, s: Seq<char>) -> bool {
    p.len() <= s.len() && s.subrange(0, p.len() as int) == p
}

/// `p` is a suffix of `s`.
pub open spec fn is_suffix(p: Seq<char>, s: Seq<char>) -> bool {
    p.len() <= s.len() && s.subrange(s.len() - p.len(), s.len() as int) == p
}

/// `p` occurs in `s` starting at index `i`.
pub open spec fn occurs_at(s: Seq<char>, p: Seq<char>, i: int) -> bool {
    0 <= i && i + p.len() <= s.len() && s.subrange(i, i + p.len()) == p
}

/// `i` is the first index at which `p` occurs in `s`.
pub open spec fn first_at(s: Seq<char>, p: Seq<char>, i: int) -> bool {
    occurs_at(s, p, i) && forall|j: int| 0 <= j < i ==> !occurs_at(s, p, j)
}

/// `i` is the last index at which `p` occurs in `s`.
pub open spec fn last_at(s: Seq<char>, p: Seq<char>, i: int) -> bool {
    occurs_at(s, p, i) && forall|j: int| i < j ==> !occurs_at(s, p, j)
}

/// `p` occurs somewhere in `s`.
pub open spec fn occurs(s: Seq<char>, p: Seq<char>) -> bool {
    exists|i: int| occurs_at(s, p, i)
}

/// Index of the first occurrence of `p` in `s`.
pub open spec fn first(s: Seq<char>, p: Seq<char>) -> int {
    choose|i: int| first_at(s, p, i)
}

/// Index of the last occurrence of `p` in `s`.
pub open spec fn last(s: Seq<char>, p: Seq<char>) -> int {
    choose|i: int| last_at(s, p, i)
}

/// `str::split_once`: the parts before and after the first occurrence of `p`.
pub open spec fn split_once(s: Seq<char>, p: Seq<char>) -> Option<(Seq<char>, Seq<char>)> {
    if occurs(s, p) {
        Some((s.subrange(0, first(s, p)), s.subrange(first(s, p) + p.len(), s.len() as int)))
    } else {
        None
    }
}

/// `str::rsplit_once`: the parts before and after the last occurrence of `p`.
pub open spec fn rsplit_once(s: Seq<char>, p: Seq<char>) -> Option<(Seq<char>, Seq<char>)> {
    if occurs(s, p) {
        Some((s.subrange(0, last(s, p)), s.subrange(last(s, p) + p.len(), s.len() as int)))
    } else {
        None
    }
}

/// `str::strip_prefix`.
pub open spec fn strip_prefix(s: Seq<char>, p: Seq<char>) -> Option<Seq<char>> {
    if is_prefix(p, s) {
        Some(s.subrange(p.len() as int, s.len() as int))
    } else {
        None
    }
}

/// `str::strip_suffix`.
pub open spec fn strip_suffix(s: Seq<char>, p: Seq<char>) -> Option<Seq<char>> {
    if is_suffix(p, s) {
        Some(s.subrange(0, s.len() - p.len()))
    } else {
        None
    }
}

/// First occurrences are unique.
pub proof fn lemma_first_unique(s: Seq<char>, p: Seq<char>, i: int)
    requires
        first_at(s, p, i),
    ensures
        occurs(s, p),
        first(s, p) == i,
{
    let k = first(s, p);
    assert(first_at(s, p, k));
    if k < i {
        assert(!occurs_at(s, p, k));
    }
    if i < k {
        assert(!occurs_at(s, p, i));
    }
}

/// Last occurrences are unique.
pub proof fn lemma_last_unique(s: Seq<char>, p: Seq<char>, i: int)
    requires
        last_at(s, p, i),
    ensures
        occurs(s, p),
        last(s, p) == i,
{
    let k = last(s, p);
    assert(last_at(s, p, k));
    if k < i {
        assert(!occurs_at(s, p, i));
    }
    if i < k {
        assert(!occurs_at(s, p, k));
    }
}

/// Copies a string slice into an owned string.
pub fn owned(s: &str) -> (r: String)
    ensures
        r@ == s@,
{
    String::from_str(s)
}

/// The characters of `s` from `from` to `to`.
pub fn slice(s: &str, from: usize, to: usize) -> (r: String)
    requires
        from <= to <= s@.len(),
    ensures
        r@ == s@.subrange(from as int, to as int),
{
    let part = s.substring_char(from, to);
    String::from_str(part)
}

/// Whether `p` occurs in `s` at character index `at`.
pub fn matches_at(s: &str, p: &str, at: usize) -> (r: bool)
    ensures
        r == occurs_at(s@, p@, at as int),
{
    let n = s.unicode_len();
    let m = p.unicode_len();
    if at > n || m > n - at {
        return false;
    }
    let mut j: usize = 0;
    while j < m
        invariant
            n == s@.len(),
            m == p@.len(),
            at + m <= n,
            j <= m,
            forall|k: int| 0 <= k < j ==> s@[at + k] == p@[k],
        decreases m - j,
    {
        if s.get_char(at + j) != p.get_char(j) {
            assert(s@.subrange(at as int, at + m)[j as int] != p@[j as int]);
            return false;
        }
        j += 1;
    }
    assert(s@.subrange(at as int, at + m) =~= p@);
    true
}

/// `str::eq`: both strings hold the same characters.
pub fn same(a: &str, b: &str) -> (r: bool)
    ensures
        r == (a@ == b@),
{
    let same_len = a.unicode_len() == b.unicode_len();
    if !same_len {
        return false;
    }
    let r = matches_at(a, b, 0);
    if r {
        assert(a@ =~= a@.subrange(0, b@.len() as int));
    } else {
        assert(a@.subrange(0, b@.len() as int) =~= a@);
    }
    r
}

/// `str::starts_with`.
pub fn starts_with(s: &str, p: &str) -> (r: bool)
    ensures
        r == is_prefix(p@, s@),
{
    matches_at(s, p, 0)
}

/// `str::ends_with`.
pub fn ends_with(s: &str, p: &str) -> (r: bool)
    ensures
        r == is_suffix(p@, s@),
{
    let n = s.unicode_len();
    let m = p.unicode_len();
    if m > n {
        return false;
    }
    matches_at(s, p, n - m)
}

/// `str::strip_prefix`.
pub fn strip_prefix_of(s: &str, p: &str) -> (r: Option<String>)
    ensures
        r matches Some(t) ==> strip_prefix(s@, p@) == Some(t@),
        r is None ==> strip_prefix(s@, p@) is None,
{
    if starts_with(s, p) {
        Some(slice(s, p.unicode_len(), s.unicode_len()))
    } else {
        None
    }
}

/// `str::strip_suffix`.
pub fn strip_suffix_of(s: &str, p: &str) -> (r: Option<String>)
    ensures
        r matches Some(t) ==> strip_suffix(s@, p@) == Some(t@),
        r is None ==> strip_suffix(s@, p@) is None,
{
    if ends_with(s, p) {
        Some(slice(s, 0, s.unicode_len() - p.unicode_len()))
    } else {
        None
    }
}

/// Index of the first occurrence of `p` in `s`, if any.
pub fn find(s: &str, p: &str) -> (r: Option<usize>)
    ensures
        r matches Some(i) ==> occurs(s@, p@) && first(s@, p@) == i && first_at(s@, p@, i as int),
        r is None ==> !occurs(s@, p@),
{
    let n = s.unicode_len();
    let mut i: usize = 0;
    while i < n
        invariant
            n == s@.len(),
            i <= n,
            forall|j: int| 0 <= j < i ==> !occurs_at(s@, p@, j),
        decreases n - i,
    {
        if matches_at(s, p, i) {
            proof {
                lemma_first_unique(s@, p@, i as int);
            }
            return Some(i);
        }
        i += 1;
    }
    if matches_at(s, p, n) {
        proof {
            lemma_first_unique(s@, p@, n as int);
        }
        return Some(n);
    }
    assert(forall|j: int| !occurs_at(s@, p@, j));
    None
}

/// Index of the last occurrence of `p` in `s`, if any.
pub fn rfind(s: &str, p: &str) -> (r: Option<usize>)
    ensures
        r matches Some(i) ==> occurs(s@, p@) && last(s@, p@) == i && last_at(s@, p@, i as int),
        r is None ==> !occurs(s@, p@),
{
    let n = s.unicode_len();
    let mut i: usize = n;
    while i > 0
        invariant
            n == s@.len(),
            i <= n,
            forall|j: int| i < j ==> !occurs_at(s@, p@, j),
        decreases i,
    {
        if matches_at(s, p, i) {
            proof {
                lemma_last_unique(s@, p@, i as int);
            }
            return Some(i);
        }
        i -= 1;
    }
    if matches_at(s, p, 0) {
        proof {
            lemma_last_unique(s@, p@, 0);
        }
        return Some(0);
    }
    assert(forall|j: int| !occurs_at(s@, p@, j));
    None
}

/// `str::contains`.
pub fn contains(s: &str, p: &str) -> (r: bool)
    ensures
        r == occurs(s@, p@),
{
    find(s, p).is_some()
}

/// `str::split_once`.
pub fn split_once_at(s: &str, p: &str) -> (r: Option<(String, String)>)
    ensures
        r matches Some((a, b)) ==> split_once(s@, p@) == Some((a@, b@)),
        r is None ==> split_once(s@, p@) is None,
{
    match find(s, p) {
        Some(i) => {
            let n = s.unicode_len();
            let m = p.unicode_len();
            assert(occurs_at(s@, p@, i as int));
            let a = slice(s, 0, i);
            let b = slice(s, i + m, n);
            Some((a, b))
        },
        None => None,
    }
}

/// `str::rsplit_once`.
pub fn rsplit_once_at(s: &str, p: &str) -> (r: Option<(String, String)>)
    ensures
        r matches Some((a, b)) ==> rsplit_once(s@, p@) == Some((a@, b@)),
        r is None ==> rsplit_once(s@, p@) is None,
{
    match rfind(s, p) {
        Some(i) => {
            let n = s.unicode_len();
            let m = p.unicode_len();
            assert(occurs_at(s@, p@, i as int));
            let a = slice(s, 0, i);
            let b = slice(s, i + m, n);
            Some((a, b))
        },
        None => None,
    }
}

/// Every occurrence has a first occurrence at or before it.
pub proof fn lemma_first_exists(s: Seq<char>, p: Seq<char>, i: int)
    requires
        occurs_at(s, p, i),
    ensures
        occurs(s, p),
        first_at(s, p, first(s, p)),
        first(s, p) <= i,
    decreases i,
{
    if exists|j: int| 0 <= j < i && occurs_at(s, p, j) {
        let j = choose|j: int| 0 <= j < i && occurs_at(s, p, j);
        lemma_first_exists(s, p, j);
    } else {
        lemma_first_unique(s, p, i);
    }
}

/// Rust's `char::is_whitespace` (the Unicode `White_Space` property).
pub open spec fn ws(c: char) -> bool {
    let u = c as u32;
    (9 <= u <= 13) || u == 32 || u == 0x85 || u == 0xa0 || u == 0x1680 || (0x2000 <= u <= 0x200a)
        || u == 0x2028 || u == 0x2029 || u == 0x202f || u == 0x205f || u == 0x3000
}

/// Executable form of [`ws`].
pub fn is_ws(c: char) -> (r: bool)
    ensures
        r == ws(c),
{
    let u = c as u32;
    (9 <= u && u <= 13) || u == 32 || u == 0x85 || u == 0xa0 || u == 0x1680 || (0x2000 <= u && u
        <= 0x200a) || u == 0x2028 || u == 0x2029 || u == 0x202f || u == 0x205f || u == 0x3000
}

/// `str::trim_start`.
pub open spec fn trim_start(s: Seq<char>) -> Seq<char>
    decreases s.len(),
{
    if s.len() > 0 && ws(s[0]) {
        trim_start(s.drop_first())
    } else {
        s
    }
}

/// `str::trim_end`.
pub open spec fn trim_end(s: Seq<char>) -> Seq<char>
    decreases s.len(),
{
    if s.len() > 0 && ws(s.last()) {
        trim_end(s.drop_last())
    } else {
        s
    }
}

/// `str::trim`.
pub open spec fn trim(s: Seq<char>) -> Seq<char> {
    trim_end(trim_start(s))
}

/// `str::trim`.
pub fn trimmed(s: &str) -> (r: String)
    ensures
        r@ == trim(s@),
{
    let n = s.unicode_len();
    let mut i: usize = 0;
    assert(s@.subrange(0, n as int) =~= s@);
    while i < n && is_ws(s.get_char(i))
        invariant
            n == s@.len(),
            i <= n,
            trim_start(s@) == trim_start(s@.subrange(i as int, n as int)),
        decreases n - i,
    {
        assert(s@.subrange(i as int, n as int).drop_first() =~= s@.subrange(i + 1, n as int));
        i += 1;
    }
    let mut j: usize = n;
    assert(trim_start(s@.subrange(i as int, n as int)) == s@.subrange(i as int, n as int));
    while j > i && is_ws(s.get_char(j - 1))
        invariant
            n == s@.len(),
            i <= j <= n,
            trim_start(s@) == s@.subrange(i as int, n as int),
            trim(s@) == trim_end(s@.subrange(i as int, j as int)),
        decreases j,
    {
        assert(s@.subrange(i as int, j as int).drop_last() =~= s@.subrange(i as int, j - 1));
        j -= 1;
    }
    slice(s, i, j)
}

/// `str::trim_start_matches` with pattern `p`.
pub open spec fn trim_start_all(s: Seq<char>, p: Seq<char>) -> Seq<char>
    decreases s.len(),
{
    if p.len() > 0 && is_prefix(p, s) {
        trim_start_all(s.subrange(p.len() as int, s.len() as int), p)
    } else {
        s
    }
}

/// `str::trim_end_matches` with pattern `p`.
pub open spec fn trim_end_all(s: Seq<char>, p: Seq<char>) -> Seq<char>
    decreases s.len(),
{
    if p.len() > 0 && is_suffix(p, s) {
        trim_end_all(s.subrange(0, s.len() - p.len()), p)
    } else {
        s
    }
}

/// `str::trim_matches` with a one-character pattern `p`.
pub open spec fn trim_all(s: Seq<char>, p: Seq<char>) -> Seq<char> {
    trim_end_all(trim_start_all(s, p), p)
}

/// `str::trim_start_matches`.
pub fn trim_start_matches(s: &str, p: &str) -> (r: String)
    ensures
        r@ == trim_start_all(s@, p@),
{
    let mut cur = owned(s);
    if p.unicode_len() == 0 {
        return cur;
    }
    while starts_with(cur.as_str(), p)
        invariant
            p@.len() > 0,
            trim_start_all(s@, p@) == trim_start_all(cur@, p@),
        decreases cur@.len(),
    {
        let n = cur.as_str().unicode_len();
        let m = p.unicode_len();
        cur = slice(cur.as_str(), m, n);
    }
    cur
}

/// `str::trim_end_matches`.
pub fn trim_end_matches(s: &str, p: &str) -> (r: String)
    ensures
        r@ == trim_end_all(s@, p@),
{
    let mut cur = owned(s);
    if p.unicode_len() == 0 {
        return cur;
    }
    while ends_with(cur.as_str(), p)
        invariant
            p@.len() > 0,
            trim_end_all(s@, p@) == trim_end_all(cur@, p@),
        decreases cur@.len(),
    {
        let n = cur.as_str().unicode_len();
        let m = p.unicode_len();
        cur = slice(cur.as_str(), 0, n - m);
    }
    cur
}

/// `str::trim_matches`.
pub fn trim_matches(s: &str, p: &str) -> (r: String)
    ensures
        r@ == trim_all(s@, p@),
{
    let front = trim_start_matches(s, p);
    trim_end_matches(front.as_str(), p)
}

/// The views of a sequence of strings.
pub open spec fn views(v: Seq<String>) -> Seq<Seq<char>> {
    v.map_values(|x: String| x@)
}

/// `str::split` with a non-empty pattern `p`.
pub open spec fn split(s: Seq<char>, p: Seq<char>) -> Seq<Seq<char>>
    decreases s.len(),
{
    if p.len() > 0 && occurs(s, p) {
        let i = first(s, p);
        proof {
            let k = choose|k: int| occurs_at(s, p, k);
            lemma_first_exists(s, p, k);
        }
        seq![s.subrange(0, i)] + split(s.subrange(i + p.len(), s.len() as int), p)
    } else {
        seq![s]
    }
}

/// `str::split` with a non-empty pattern.
pub fn split_by(s: &str, p: &str) -> (r: Vec<String>)
    requires
        p@.len() > 0,
    ensures
        views(r@) == split(s@, p@),
{
    let mut parts: Vec<String> = Vec::new();
    let mut rest = owned(s);
    loop
        invariant
            p@.len() > 0,
            split(s@, p@) == views(parts@) + split(rest@, p@),
        decreases rest@.len(),
    {
        match find(rest.as_str(), p) {
            Some(i) => {
                let n = rest.as_str().unicode_len();
                let m = p.unicode_len();
                assert(occurs_at(rest@, p@, i as int));
                let head = slice(rest.as_str(), 0, i);
                let tail = slice(rest.as_str(), i + m, n);
                proof {
                    lemma_first_exists(rest@, p@, i as int);
                    assert(split(rest@, p@) == seq![head@] + split(tail@, p@));
                    assert(views(parts@.push(head)) =~= views(parts@).push(head@));
                    assert(views(parts@) + split(rest@, p@) =~= views(parts@).push(head@) + split(tail@, p@));
                }
                parts.push(head);
                rest = tail;
            },
            None => {
                proof {
                    assert(split(rest@, p@) == seq![rest@]);
                    assert(views(parts@.push(rest)) =~= views(parts@).push(rest@));
                }
                parts.push(rest);
                return parts;
            },
        }
    }
}

/// `[String]::join`.
pub open spec fn join(parts: Seq<Seq<char>>, sep: Seq<char>) -> Seq<char>
    decreases parts.len(),
{
    if parts.len() == 0 {
        seq![]
    } else if parts.len() == 1 {
        parts[0]
    } else {
        join(parts.drop_last(), sep) + sep + parts.last()
    }
}

/// Joining a leading part onto a non-empty list puts the separator between.
pub proof fn lemma_join_cons(x: Seq<char>, ys: Seq<Seq<char>>, sep: Seq<char>)
    requires
        ys.len() > 0,
    ensures
        join(seq![x] + ys, sep) == x + sep + join(ys, sep),
    decreases ys.len(),
{
    let all = seq![x] + ys;
    assert(all.len() >= 2);
    if ys.len() == 1 {
        assert(all.drop_last() =~= seq![x]);
        assert(all.last() == ys[0]);
        assert(join(seq![x], sep) == x);
        assert(join(ys, sep) == ys[0]);
        assert(join(all, sep) == join(all.drop_last(), sep) + sep + all.last());
    } else {
        assert(join(all, sep) == join(all.drop_last(), sep) + sep + all.last());
        assert(join(ys, sep) == join(ys.drop_last(), sep) + sep + ys.last());
        assert(all.drop_last() =~= seq![x] + ys.drop_last());
        lemma_join_cons(x, ys.drop_last(), sep);
        assert(all.last() == ys.last());
        assert(x + sep + join(ys.drop_last(), sep) + sep + ys.last() =~= x + sep + (join(ys.drop_last(), sep) + sep
            + ys.last()));
    }
}

/// `s` has no `/`: it is a single part.
pub proof fn lemma_split_whole(s: Seq<char>)
    requires
        forall|i: int| 0 <= i < s.len() ==> s[i] != '/',
    ensures
        split(s, "/"@) == seq![s],
{
    reveal_strlit("/");
    assert forall|k: int| !occurs_at(s, "/"@, k) by {
        if 0 <= k && k + 1 <= s.len() {
            assert(s.subrange(k, k + 1)[0] == s[k]);
        }
    }
}

/// Splitting at a `/` that joins two texts splits each of them.
pub proof fn lemma_split_concat(a: Seq<char>, b: Seq<char>)
    ensures
        split(a + "/"@ + b, "/"@) == split(a, "/"@) + split(b, "/"@),
    decreases a.len(),
{
    reveal_strlit("/");
    let p = "/"@;
    let s = a + p + b;
    assert(s.subrange(a.len() as int, a.len() + 1int) =~= p);
    assert(occurs_at(s, p, a.len() as int));
    if occurs(a, p) {
        let k = choose|k: int| occurs_at(a, p, k);
        lemma_first_exists(a, p, k);
        let i = first(a, p);
        assert(s.subrange(i, i + 1) =~= a.subrange(i, i + 1));
        assert forall|j: int| 0 <= j < i implies !occurs_at(s, p, j) by {
            assert(s.subrange(j, j + 1) =~= a.subrange(j, j + 1));
            assert(!occurs_at(a, p, j));
        }
        assert(first_at(s, p, i));
        lemma_first_unique(s, p, i);
        let rest = a.subrange(i + 1, a.len() as int);
        assert(s.subrange(0, i) =~= a.subrange(0, i));
        assert(s.subrange(i + 1, s.len() as int) =~= rest + p + b);
        lemma_split_concat(rest, b);
        assert(split(a, p) == seq![a.subrange(0, i)] + split(rest, p));
        assert(split(s, p) == seq![a.subrange(0, i)] + split(rest + p + b, p));
        assert(split(s, p) =~= split(a, p) + split(b, p));
    } else {
        assert forall|j: int| 0 <= j < a.len() implies !occurs_at(s, p, j) by {
            assert(s.subrange(j, j + 1) =~= a.subrange(j, j + 1));
            if occurs_at(s, p, j) {
                assert(occurs_at(a, p, j));
            }
        }
        assert(first_at(s, p, a.len() as int));
        lemma_first_unique(s, p, a.len() as int);
        assert(s.subrange(0, a.len() as int) =~= a);
        assert(s.subrange(a.len() + 1int, s.len() as int) =~= b);
        assert(split(a, p) == seq![a]);
        assert(split(s, p) =~= split(a, p) + split(b, p));
    }
}

/// Splitting at `/` and joining with `/` gives the text back.
pub proof fn lemma_join_split(s: Seq<char>)
    ensures
        join(split(s, "/"@), "/"@) == s,
    decreases s.len(),
{
    reveal_strlit("/");
    let p = "/"@;
    if occurs(s, p) {
        let k = choose|k: int| occurs_at(s, p, k);
        lemma_first_exists(s, p, k);
        let i = first(s, p);
        let head = s.subrange(0, i);
        let rest = s.subrange(i + 1, s.len() as int);
        lemma_join_split(rest);
        assert(split(s, p) == seq![head] + split(rest, p));
        lemma_split_nonempty(rest);
        lemma_join_cons(head, split(rest, p), p);
        assert(s.subrange(i, i + 1) == p);
        assert(head + p + rest =~= s);
    } else {
        assert(split(s, p) == seq![s]);
    }
}

/// A split has at least one part.
pub proof fn lemma_split_nonempty(s: Seq<char>)
    ensures
        split(s, "/"@).len() > 0,
    decreases s.len(),
{
    reveal_strlit("/");
    if occurs(s, "/"@) {
        let k = choose|k: int| occurs_at(s, "/"@, k);
        lemma_first_exists(s, "/"@, k);
    }
}

/// `[String]::join`.
pub fn join_with(parts: &[String], sep: &str) -> (r: String)
    ensures
        r@ == join(views(parts@), sep@),
{
    let mut out = String::new();
    let mut i: usize = 0;
    while i < parts.len()
        invariant
            i <= parts@.len(),
            out@ == join(views(parts@).take(i as int), sep@),
        decreases parts@.len() - i,
    {
        proof {
            assert(views(parts@).take(i + 1).drop_last() =~= views(parts@).take(i as int));
            assert(views(parts@).take(i + 1).last() == parts@[i as int]@);
        }
        if i > 0 {
            out.append(sep);
        }
        out.append(parts[i].as_str());
        proof {
            if i == 0 {
                assert(views(parts@).take(1) =~= seq![parts@[0]@]);
            }
        }
        i += 1;
    }
    assert(views(parts@).take(parts@.len() as int) =~= views(parts@));
    out
}

/// An ASCII decimal digit.
pub open spec fn digit(c: char) -> bool {
    48 <= c as u32 <= 57
}

/// Every character is a decimal digit.
pub open spec fn all_digits(d: Seq<char>) -> bool {
    forall|i: int| 0 <= i < d.len() ==> digit(d[i])
}

/// The value of a string of decimal digits.
pub open spec fn digits_value(s: Seq<char>) -> nat
    decreases s.len(),
{
    if s.len() == 0 {
        0
    } else {
        digits_value(s.drop_last()) * 10 + ((s.last() as u32) - 48) as nat
    }
}

/// The unsigned number that `u64::from_str` / `usize::from_str` reads from
/// `s` (an optional `+`, then one or more decimal digits), before any bound.
pub open spec fn number(s: Seq<char>) -> Option<nat> {
    let d = if s.len() > 0 && s[0] == '+' {
        s.drop_first()
    } else {
        s
    };
    if d.len() > 0 && all_digits(d) {
        Some(digits_value(d))
    } else {
        None
    }
}

proof fn lemma_digits_grow(s: Seq<char>, k: int)
    requires
        0 <= k <= s.len(),
    ensures
        digits_value(s.take(k)) <= digits_value(s),
    decreases s.len(),
{
    if k < s.len() {
        assert(s.drop_last().take(k) =~= s.take(k));
        lemma_digits_grow(s.drop_last(), k);
    } else {
        assert(s.take(k) =~= s);
    }
}

/// `u64::from_str`: `Some` exactly when `s` reads as a number that fits.
pub fn parse_u64(s: &str) -> (r: Option<u64>)
    ensures
        r matches Some(v) ==> number(s@) == Some(v as nat),
        r is None ==> (number(s@) matches Some(n) ==> n > u64::MAX),
{
    let n = s.unicode_len();
    let mut i: usize = 0;
    if n > 0 && s.get_char(0) == '+' {
        i = 1;
    }
    let start = i;
    let ghost d = s@.subrange(start as int, n as int);
    proof {
        if start == 1 {
            assert(s@.len() > 0 && s@[0] == '+');
            assert(s@.drop_first() =~= d);
        } else {
            assert(!(s@.len() > 0 && s@[0] == '+'));
            assert(s@ =~= d);
        }
        assert(number(s@) == if d.len() > 0 && all_digits(d) {
            Some(digits_value(d))
        } else {
            None
        });
    }
    if start == n {
        return None;
    }
    let mut v: u64 = 0;
    while i < n
        invariant
            n == s@.len(),
            start <= i <= n,
            d == s@.subrange(start as int, n as int),
            number(s@) == if d.len() > 0 && all_digits(d) {
                Some(digits_value(d))
            } else {
                None
            },
            forall|k: int| 0 <= k < i - start ==> digit(d[k]),
            v as nat == digits_value(d.take(i - start)),
        decreases n - i,
    {
        let c = s.get_char(i);
        assert(c == d[i - start]);
        if !(48 <= c as u32 && c as u32 <= 57) {
            assert(!digit(d[i - start]));
            assert(!all_digits(d));
            return None;
        }
        let dv = (c as u32 - 48) as u64;
        assert(d.take(i - start + 1).drop_last() =~= d.take(i - start));
        assert(d.take(i - start + 1).last() == c);
        assert(digits_value(d.take(i - start + 1)) == v * 10 + dv);
        match v.checked_mul(10) {
            Some(w) => match w.checked_add(dv) {
                Some(x) => {
                    v = x;
                },
                None => {
                    proof {
                        lemma_digits_grow(d, i - start + 1);
                    }
                    return None;
                },
            },
            None => {
                proof {
                    lemma_digits_grow(d, i - start + 1);
                }
                return None;
            },
        }
        i += 1;
    }
    assert(d.take(n - start) =~= d);
    Some(v)
}

/// `usize::from_str`.
pub fn parse_usize(s: &str) -> (r: Option<usize>)
    ensures
        r matches Some(v) ==> number(s@) == Some(v as nat),
        r is None ==> (number(s@) matches Some(n) ==> n > usize::MAX),
{
    match parse_u64(s) {
        Some(v) => {
            if v <= usize::MAX as u64 {
                Some(v as usize)
            } else {
                None
            }
        },
        None => None,
    }
}

/// The decimal digit character for `d < 10`.
pub open spec fn digit_char(d: nat) -> char {
    ((d + 48) as u8) as char
}

/// The decimal rendering of a number (`ToString` on unsigned integers).
pub open spec fn decimal(n: nat) -> Seq<char>
    decreases n,
{
    if n < 10 {
        seq![digit_char(n)]
    } else {
        decimal(n / 10).push(digit_char(n % 10))
    }
}

/// `u64::to_string`.
pub fn decimal_of(n: u64) -> (r: String)
    ensures
        r@ == decimal(n as nat),
    decreases n,
{
    if n < 10 {
        let mut out = String::new();
        push_char(&mut out, ((n as u8) + 48) as char);
        out
    } else {
        let mut out = decimal_of(n / 10);
        push_char(&mut out, (((n % 10) as u8) + 48) as char);
        out
    }
}

/// Bytes that percent-encoding leaves unchanged (RFC 3986 unreserved).
pub open spec fn unreserved(b: u8) -> bool {
    (65 <= b <= 90) || (97 <= b <= 122) || (48 <= b <= 57) || b == 45 || b == 95 || b == 46
        || b == 126
}

/// An upper-case hexadecimal digit.
pub open spec fn hex_char(d: nat) -> char {
    if d < 10 {
        ((d + 48) as u8) as char
    } else {
        ((d + 55) as u8) as char
    }
}

/// The percent-encoding of one byte.
pub open spec fn encode_byte(b: u8) -> Seq<char> {
    if unreserved(b) {
        seq![b as char]
    } else {
        seq!['%', hex_char((b / 16) as nat), hex_char((b % 16) as nat)]
    }
}

/// The percent-encoding of a byte sequence.
pub open spec fn encode_bytes(bs: Seq<u8>) -> Seq<char>
    decreases bs.len(),
{
    if bs.len() == 0 {
        seq![]
    } else {
        encode_bytes(bs.drop_last()) + encode_byte(bs.last())
    }
}

fn hex_digit(d: u8) -> (c: char)
    requires
        d < 16,
    ensures
        c == hex_char(d as nat),
{
    if d < 10 {
        (d + 48) as char
    } else {
        (d + 55) as char
    }
}

/// The percent-encoding of the UTF-8 bytes of a text.
pub open spec fn quoted(s: Seq<char>) -> Seq<char> {
    encode_bytes(vstd::utf8::encode_utf8(s))
}

/// Percent-encodes the UTF-8 bytes of `s`, keeping unreserved bytes.
pub fn percent_encode(s: &str) -> (r: String)
    ensures
        r@ == encode_bytes(s.spec_bytes()),
        r@ == quoted(s@),
{
    let bytes = s.as_bytes();
    let mut out = String::new();
    let mut i: usize = 0;
    while i < bytes.len()
        invariant
            bytes@ == s.spec_bytes(),
            i <= bytes@.len(),
            out@ == encode_bytes(bytes@.take(i as int)),
        decreases bytes@.len() - i,
    {
        let b = bytes[i];
        assert(bytes@.take(i + 1).drop_last() =~= bytes@.take(i as int));
        if (65 <= b && b <= 90) || (97 <= b && b <= 122) || (48 <= b && b <= 57) || b == 45 || b
            == 95 || b == 46 || b == 126 {
            push_char(&mut out, b as char);
            assert(out@ =~= encode_bytes(bytes@.take(i as int)) + encode_byte(b));
        } else {
            push_char(&mut out, '%');
            push_char(&mut out, hex_digit(b / 16));
            push_char(&mut out, hex_digit(b % 16));
            assert(out@ =~= encode_bytes(bytes@.take(i as int)) + encode_byte(b));
        }
        i += 1;
    }
    assert(bytes@.take(bytes@.len() as int) =~= bytes@);
    out
}

/// ASCII lower-casing of one character.
pub open spec fn lower(c: char) -> char {
    if 65 <= c as u32 <= 90 {
        ((c as u32 + 32) as u8) as char
    } else {
        c
    }
}

/// `str::eq_ignore_ascii_case`.
pub open spec fn same_ignoring_case(a: Seq<char>, b: Seq<char>) -> bool {
    a.len() == b.len() && forall|i: int| 0 <= i < a.len() ==> lower(a[i]) == lower(b[i])
}

fn lower_of(c: char) -> (r: char)
    ensures
        r == lower(c),
{
    let u = c as u32;
    if 65 <= u && u <= 90 {
        ((u + 32) as u8) as char
    } else {
        c
    }
}

/// `str::eq_ignore_ascii_case`.
pub fn eq_ignore_case(a: &str, b: &str) -> (r: bool)
    ensures
        r == same_ignoring_case(a@, b@),
{
    let n = a.unicode_len();
    if n != b.unicode_len() {
        return false;
    }
    let mut i: usize = 0;
    while i < n
        invariant
            n == a@.len(),
            n == b@.len(),
            i <= n,
            forall|k: int| 0 <= k < i ==> lower(a@[k]) == lower(b@[k]),
        decreases n - i,
    {
        if lower_of(a.get_char(i)) != lower_of(b.get_char(i)) {
            return false;
        }
        i += 1;
    }
    true
}

/// `char::is_ascii_alphanumeric`.
pub open spec fn alnum(c: char) -> bool {
    let u = c as u32;
    (48 <= u <= 57) || (65 <= u <= 90) || (97 <= u <= 122)
}

/// `char::is_ascii_alphanumeric`.
pub fn is_alnum(c: char) -> (r: bool)
    ensures
        r == alnum(c),
{
    let u = c as u32;
    (48 <= u && u <= 57) || (65 <= u && u <= 90) || (97 <= u && u <= 122)
}

/// Whether the arguments are exactly `words` followed by `extra` free words.
pub fn shaped(args: &[String], words: &[&str], extra: usize) -> (r: bool)
    requires
        words.len() + extra <= usize::MAX,
    ensures
        r == (args.len() == words.len() + extra && forall|i: int|
            0 <= i < words.len() ==> #[trigger] args@[i]@ == words@[i]@),
{
    if args.len() != words.len() + extra {
        return false;
    }
    let mut i: usize = 0;
    while i < words.len()
        invariant
            args.len() == words.len() + extra,
            i <= words.len(),
            forall|j: int| 0 <= j < i ==> #[trigger] args@[j]@ == words@[j]@,
        decreases words.len() - i,
    {
        if !same(args[i].as_str(), words[i]) {
            return false;
        }
        i = i + 1;
    }
    true
}


/// The arguments from index `k` on.
pub fn rest_from(args: &[String], k: usize) -> (r: Vec<String>)
    requires
        k <= args@.len(),
    ensures
        views(r@) == views(args@).skip(k as int),
{
    let mut out: Vec<String> = Vec::new();
    let mut i: usize = k;
    while i < args.len()
        invariant
            k <= i <= args@.len(),
            views(out@) == views(args@).subrange(k as int, i as int),
        decreases args@.len() - i,
    {
        let ghost before = views(out@);
        out.push(args[i].clone());
        assert(views(out@) =~= before.push(args@[i as int]@));
        assert(views(args@).subrange(k as int, i + 1) =~= views(args@).subrange(k as int, i as int).push(args@[i as int]@));
        i += 1;
    }
    out
}

/// The flags from index `k` on.
pub fn bools_from(v: &[bool], k: usize) -> (r: Vec<bool>)
    requires
        k <= v@.len(),
    ensures
        r@ == v@.skip(k as int),
{
    let mut out: Vec<bool> = Vec::new();
    let mut i: usize = k;
    while i < v.len()
        invariant
            k <= i <= v@.len(),
            out@ == v@.subrange(k as int, i as int),
        decreases v@.len() - i,
    {
        out.push(v[i]);
        assert(out@ =~= v@.subrange(k as int, i + 1));
        i += 1;
    }
    out
}
/// The value under the first entry named `key`.
pub open spec fn lookup<V>(s: Seq<(Seq<char>, V)>, key: Seq<char>) -> Option<V>
    decreases s.len(),
{
    if s.len() == 0 {
        None
    } else if s[0].0 == key {
        Some(s[0].1)
    } else {
        lookup(s.drop_first(), key)
    }
}

/// Looking a key up in two lists one after the other: the first list's
/// entry when it has one, else the second's.
pub proof fn lemma_lookup_concat<V>(x: Seq<(Seq<char>, V)>, y: Seq<(Seq<char>, V)>, key: Seq<char>)
    ensures
        lookup(x + y, key) == match lookup(x, key) {
            Some(v) => Some(v),
            None => lookup(y, key),
        },
    decreases x.len(),
{
    if x.len() == 0 {
        assert(x + y =~= y);
    } else {
        assert((x + y)[0] == x[0]);
        assert((x + y).drop_first() =~= x.drop_first() + y);
        lemma_lookup_concat(x.drop_first(), y, key);
    }
}

/// Looking a key up in a list of one entry.
pub proof fn lemma_lookup_one<V>(k: Seq<char>, v: V, key: Seq<char>)
    ensures
        lookup(seq![(k, v)], key) == if k == key { Some(v) } else { None::<V> },
{
    let one = seq![(k, v)];
    assert(one.drop_first() =~= Seq::<(Seq<char>, V)>::empty());
    assert(one[0] == (k, v));
    assert(lookup(one.drop_first(), key) is None);
}

} // verus!
