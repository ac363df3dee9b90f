//! A map from string keys to values, kept sorted by key the way `str`'s
//! order sorts (character by character, by code point).
use vstd::prelude::*;

verus! {

/// `a` sorts strictly before `b` (the order of `str`).
pub open spec fn before(a: Seq<char>, b: Seq<char>) -> bool
    decreases a.len(),
{
    if b.len() == 0 {
        false
    } else if a.len() == 0 {
        true
    } else if a[0] != b[0] {
        (a[0] as int) < (b[0] as int)
    } else {
        before(a.drop_first(), b.drop_first())
    }
}

/// No string sorts before itself.
pub proof fn lemma_before_irreflexive(a: Seq<char>)
    ensures
        !before(a, a),
    decreases a.len(),
{
    if a.len() > 0 {
        lemma_before_irreflexive(a.drop_first());
    }
}

/// Two different strings are ordered one way or the other, never both.
pub proof fn lemma_before_total(a: Seq<char>, b: Seq<char>)
    ensures
        a != b ==> (before(a, b) || before(b, a)),
        !(before(a, b) && before(b, a)),
    decreases a.len(),
{
    if a.len() > 0 && b.len() > 0 && a[0] == b[0] {
        lemma_before_total(a.drop_first(), b.drop_first());
        if a.drop_first() == b.drop_first() {
            assert(a =~= seq![a[0]] + a.drop_first());
            assert(b =~= seq![b[0]] + b.drop_first());
        }
    }
    if a.len() == 0 && b.len() == 0 {
        assert(a =~= b);
    }
}

/// The order is transitive.
pub proof fn lemma_before_transitive(a: Seq<char>, b: Seq<char>, c: Seq<char>)
    requires
        before(a, b),
        before(b, c),
    ensures
        before(a, c),
    decreases a.len(),
{
    if a.len() > 0 && b.len() > 0 && c.len() > 0 && a[0] == b[0] && b[0] == c[0] {
        lemma_before_transitive(a.drop_first(), b.drop_first(), c.drop_first());
    }
}

/// The outcome of comparing two strings.
#[derive(PartialEq, Eq, Structural, Clone, Copy, Debug)]
pub enum Rank {
    Below,
    Equal,
    Above,
}

/// Compares two strings in the order of [`before`].
pub fn rank(a: &str, b: &str) -> (r: Rank)
    ensures
        r == Rank::Below <==> before(a@, b@),
        r == Rank::Equal <==> a@ == b@,
        r == Rank::Above <==> before(b@, a@),
{
    proof {
        lemma_before_total(a@, b@);
        lemma_before_irreflexive(a@);
    }
    let n = a.unicode_len();
    let m = b.unicode_len();
    let mut i: usize = 0;
    assert(a@.skip(0) =~= a@);
    assert(b@.skip(0) =~= b@);
    while i < n && i < m
        invariant
            n == a@.len(),
            m == b@.len(),
            i <= n,
            i <= m,
            forall|k: int| 0 <= k < i ==> a@[k] == b@[k],
            before(a@, b@) == before(a@.skip(i as int), b@.skip(i as int)),
            before(b@, a@) == before(b@.skip(i as int), a@.skip(i as int)),
        decreases n - i,
    {
        let x = a.get_char(i);
        let y = b.get_char(i);
        if x != y {
            if (x as u32) < (y as u32) {
                return Rank::Below;
            } else {
                return Rank::Above;
            }
        }
        assert(a@.skip(i as int).drop_first() =~= a@.skip(i + 1));
        assert(b@.skip(i as int).drop_first() =~= b@.skip(i + 1));
        i += 1;
    }
    if n == m {
        assert(a@ =~= b@);
        Rank::Equal
    } else if i == n {
        Rank::Below
    } else {
        Rank::Above
    }
}

/// Entries sorted strictly by key.
pub open spec fn sorted<V>(s: Seq<(String, V)>) -> bool {
    forall|i: int, j: int| 0 <= i < j < s.len() ==> before(#[trigger] s[i].0@, #[trigger] s[j].0@)
}

/// The map that a sequence of entries denotes (later entries win).
pub open spec fn as_map<V>(s: Seq<(String, V)>) -> Map<Seq<char>, V>
    decreases s.len(),
{
    if s.len() == 0 {
        Map::empty()
    } else {
        as_map(s.drop_last()).insert(s.last().0@, s.last().1)
    }
}

/// Some entry of `s` has key `k`.
pub open spec fn has_key<V>(s: Seq<(String, V)>, k: Seq<char>) -> bool {
    exists|i: int| 0 <= i < s.len() && #[trigger] s[i].0@ == k
}

/// What the map of a sorted sequence holds: exactly its keys, each with its
/// entry's value.
pub proof fn lemma_as_map<V>(s: Seq<(String, V)>)
    requires
        sorted(s),
    ensures
        forall|k: Seq<char>| #[trigger] as_map(s).contains_key(k) <==> has_key(s, k),
        forall|i: int| 0 <= i < s.len() ==> #[trigger] as_map(s)[s[i].0@] == s[i].1,
        as_map(s).dom().finite(),
    decreases s.len(),
{
    if s.len() > 0 {
        let t = s.drop_last();
        assert(sorted(t));
        lemma_as_map(t);
        assert forall|k: Seq<char>| #[trigger] as_map(s).contains_key(k) <==> has_key(s, k) by {
            if has_key(s, k) {
                let i = choose|i: int| 0 <= i < s.len() && #[trigger] s[i].0@ == k;
                if i < s.len() - 1 {
                    assert(t[i].0@ == k);
                }
            }
            if as_map(s).contains_key(k) && k != s.last().0@ {
                assert(has_key(t, k));
                let i = choose|i: int| 0 <= i < t.len() && #[trigger] t[i].0@ == k;
                assert(s[i].0@ == k);
            }
        }
        assert forall|i: int| 0 <= i < s.len() implies #[trigger] as_map(s)[s[i].0@] == s[i].1 by {
            if i < s.len() - 1 {
                assert(before(s[i].0@, s[s.len() - 1].0@));
                lemma_before_irreflexive(s[i].0@);
                assert(t[i] == s[i]);
            }
        }
    }
}

/// A map from string keys to values, sorted by key.
pub struct Table<V> {
    entries: Vec<(String, V)>,
}

impl<V> View for Table<V> {
    type V = Map<Seq<char>, V>;

    closed spec fn view(&self) -> Map<Seq<char>, V> {
        as_map(self.entries@)
    }
}

impl<V> Table<V> {
    #[verifier::type_invariant]
    closed spec fn wf(self) -> bool {
        sorted(self.entries@)
    }

    /// The entries in key order.
    pub closed spec fn list(&self) -> Seq<(String, V)> {
        self.entries@
    }

    /// An empty table.
    pub fn new() -> (t: Self)
        ensures
            t@ == Map::<Seq<char>, V>::empty(),
    {
        Table { entries: Vec::new() }
    }

    /// The entries in key order.
    pub fn entries(&self) -> (r: &Vec<(String, V)>)
        ensures
            r@ == self.list(),
            sorted(r@),
            as_map(r@) == self@,
            forall|k: Seq<char>| #[trigger] self@.contains_key(k) <==> has_key(r@, k),
            forall|i: int| 0 <= i < r@.len() ==> #[trigger] self@[r@[i].0@] == r@[i].1,
            self@.dom().finite(),
    {
        proof {
            use_type_invariant(self);
            lemma_as_map(self.entries@);
        }
        &self.entries
    }

    /// The number of keys.
    pub fn len(&self) -> (r: usize)
        ensures
            r == self.list().len(),
    {
        self.entries.len()
    }

    /// Position of `key`, or of the first larger key.
    fn seat(&self, key: &str) -> (r: (usize, bool))
        ensures
            r.0 <= self.list().len(),
            forall|j: int| 0 <= j < r.0 ==> before(#[trigger] self.list()[j].0@, key@),
            r.1 ==> r.0 < self.list().len() && self.list()[r.0 as int].0@ == key@,
            !r.1 ==> r.0 < self.list().len() ==> before(key@, self.list()[r.0 as int].0@),
    {
        let mut i: usize = 0;
        while i < self.entries.len()
            invariant
                i <= self.entries@.len(),
                forall|j: int| 0 <= j < i ==> before(#[trigger] self.entries@[j].0@, key@),
            decreases self.entries@.len() - i,
        {
            match rank(self.entries[i].0.as_str(), key) {
                Rank::Below => {},
                Rank::Equal => {
                    return (i, true);
                },
                Rank::Above => {
                    return (i, false);
                },
            }
            i += 1;
        }
        (i, false)
    }

    /// The value stored under `key`.
    pub fn get(&self, key: &str) -> (r: Option<&V>)
        ensures
            r matches Some(v) ==> self@.contains_key(key@) && *v == self@[key@],
            r is None ==> !self@.contains_key(key@),
    {
        proof {
            use_type_invariant(self);
            lemma_as_map(self.entries@);
        }
        let (i, hit) = self.seat(key);
        if hit {
            Some(&self.entries[i].1)
        } else {
            proof {
                if has_key(self.list(), key@) {
                    let k = choose|k: int| 0 <= k < self.list().len() && #[trigger] self.list()[k].0@ == key@;
                    lemma_before_irreflexive(key@);
                    if k > i {
                        assert(before(self.list()[i as int].0@, self.list()[k].0@));
                        lemma_before_transitive(key@, self.list()[i as int].0@, key@);
                    }
                }
            }
            None
        }
    }

    /// Whether `key` is present.
    pub fn contains(&self, key: &str) -> (r: bool)
        ensures
            r == self@.contains_key(key@),
    {
        self.get(key).is_some()
    }

    /// Stores `value` under `key`, replacing any value held there.
    pub fn insert(&mut self, key: String, value: V)
        ensures
            final(self)@ == old(self)@.insert(key@, value),
    {
        proof {
            use_type_invariant(&*self);
            lemma_as_map(self.entries@);
        }
        let (i, hit) = self.seat(key.as_str());
        let mut held: Vec<(String, V)> = Vec::new();
        std::mem::swap(&mut held, &mut self.entries);
        let ghost s = held@;
        let ghost k = key@;
        if hit {
            held.remove(i);
            held.insert(i, (key, value));
            proof {
                let t = held@;
                assert(t =~= s.update(i as int, t[i as int]));
                assert(sorted(t)) by {
                    assert forall|a: int, b: int| 0 <= a < b < t.len() implies before(#[trigger] t[a].0@, #[trigger] t[b].0@) by {
                        assert(before(s[a].0@, s[b].0@));
                    }
                }
                lemma_as_map(t);
                assert(as_map(t) =~= as_map(s).insert(k, t[i as int].1)) by {
                    assert(t[i as int].0@ == k);
                    assert(s[i as int].0@ == k);
                    assert forall|x: Seq<char>| as_map(t).contains_key(x) implies as_map(s).insert(k, t[i as int].1).contains_key(x) by {
                        assert(has_key(t, x));
                        let j = choose|j: int| 0 <= j < t.len() && #[trigger] t[j].0@ == x;
                        if j != i {
                            assert(s[j].0@ == x);
                            assert(has_key(s, x));
                        }
                    }
                    assert forall|x: Seq<char>| as_map(s).insert(k, t[i as int].1).contains_key(x) implies as_map(t).contains_key(x) by {
                        if x == k {
                            assert(has_key(t, x));
                        } else {
                            assert(has_key(s, x));
                            let j = choose|j: int| 0 <= j < s.len() && #[trigger] s[j].0@ == x;
                            assert(t[j].0@ == x);
                            assert(has_key(t, x));
                        }
                    }
                    assert forall|x: Seq<char>| #[trigger] as_map(t).contains_key(x) implies as_map(t)[x] == as_map(s).insert(k, t[i as int].1)[x] by {
                        let j = choose|j: int| 0 <= j < t.len() && #[trigger] t[j].0@ == x;
                        if j != i {
                            assert(s[j].0@ == x);
                            assert(x != k) by {
                                if j < i {
                                    assert(before(s[j].0@, s[i as int].0@));
                                } else {
                                    assert(before(s[i as int].0@, s[j].0@));
                                }
                                lemma_before_irreflexive(x);
                            }
                        }
                    }
                }
            }
        } else {
            held.insert(i, (key, value));
            proof {
                let t = held@;
                assert forall|a: int| 0 <= a < i implies t[a] == s[a] by {}
                assert forall|a: int| i < a < t.len() implies t[a] == s[a - 1] by {}
                assert(sorted(t)) by {
                    assert forall|a: int, b: int| 0 <= a < b < t.len() implies before(#[trigger] t[a].0@, #[trigger] t[b].0@) by {
                        if b < i {
                            assert(before(s[a].0@, s[b].0@));
                        } else if b == i {
                        } else if a > i {
                            assert(before(s[a - 1].0@, s[b - 1].0@));
                        } else if a == i {
                            if b - 1 > i {
                                assert(before(s[i as int].0@, s[b - 1].0@));
                                lemma_before_transitive(k, s[i as int].0@, s[b - 1].0@);
                            }
                        } else {
                            if b - 1 > i {
                                assert(before(s[i as int].0@, s[b - 1].0@));
                                lemma_before_transitive(k, s[i as int].0@, s[b - 1].0@);
                            }
                            lemma_before_transitive(s[a].0@, k, s[b - 1].0@);
                        }
                    }
                }
                lemma_as_map(t);
                assert(!has_key(s, k)) by {
                    if has_key(s, k) {
                        let j = choose|j: int| 0 <= j < s.len() && #[trigger] s[j].0@ == k;
                        lemma_before_irreflexive(k);
                        if j > i {
                            assert(before(s[i as int].0@, s[j].0@));
                            lemma_before_transitive(k, s[i as int].0@, k);
                        }
                    }
                }
                assert(as_map(t) =~= as_map(s).insert(k, t[i as int].1)) by {
                    assert(t[i as int].0@ == k);
                    assert forall|x: Seq<char>| as_map(t).contains_key(x) implies as_map(s).insert(k, t[i as int].1).contains_key(x) by {
                        assert(has_key(t, x));
                        let j = choose|j: int| 0 <= j < t.len() && #[trigger] t[j].0@ == x;
                        if j < i {
                            assert(s[j].0@ == x);
                            assert(has_key(s, x));
                        } else if j > i {
                            assert(s[j - 1].0@ == x);
                            assert(has_key(s, x));
                        }
                    }
                    assert forall|x: Seq<char>| as_map(s).insert(k, t[i as int].1).contains_key(x) implies as_map(t).contains_key(x) by {
                        if x == k {
                            assert(has_key(t, x));
                        } else {
                            assert(has_key(s, x));
                            let j = choose|j: int| 0 <= j < s.len() && #[trigger] s[j].0@ == x;
                            if j < i {
                                assert(t[j].0@ == x);
                            } else {
                                assert(t[j + 1].0@ == x);
                            }
                            assert(has_key(t, x));
                        }
                    }
                    assert forall|x: Seq<char>| #[trigger] as_map(t).contains_key(x) implies as_map(t)[x] == as_map(s).insert(k, t[i as int].1)[x] by {
                        let j = choose|j: int| 0 <= j < t.len() && #[trigger] t[j].0@ == x;
                        if j < i {
                            assert(s[j].0@ == x);
                        } else if j > i {
                            assert(s[j - 1].0@ == x);
                        }
                    }
                }
            }
        }
        std::mem::swap(&mut held, &mut self.entries);
    }

    /// Removes `key` and its value, if present.
    pub fn remove(&mut self, key: &str)
        ensures
            final(self)@ == old(self)@.remove(key@),
    {
        proof {
            use_type_invariant(&*self);
            lemma_as_map(self.entries@);
        }
        let (i, hit) = self.seat(key);
        if !hit {
            proof {
                if has_key(self.entries@, key@) {
                    let s = self.entries@;
                    let k = choose|k: int| 0 <= k < s.len() && #[trigger] s[k].0@ == key@;
                    lemma_before_irreflexive(key@);
                    if k > i {
                        assert(before(s[i as int].0@, s[k].0@));
                        lemma_before_transitive(key@, s[i as int].0@, key@);
                    }
                }
                assert(self@ =~= self@.remove(key@));
            }
            return;
        }
        let mut held: Vec<(String, V)> = Vec::new();
        std::mem::swap(&mut held, &mut self.entries);
        let ghost s = held@;
        held.remove(i);
        proof {
            let t = held@;
            assert forall|a: int| 0 <= a < i implies t[a] == s[a] by {}
            assert forall|a: int| i <= a < t.len() implies t[a] == s[a + 1] by {}
            assert(sorted(t)) by {
                assert forall|a: int, b: int| 0 <= a < b < t.len() implies before(#[trigger] t[a].0@, #[trigger] t[b].0@) by {
                    if b < i {
                        assert(before(s[a].0@, s[b].0@));
                    } else if a < i {
                        assert(before(s[a].0@, s[b + 1].0@));
                    } else {
                        assert(before(s[a + 1].0@, s[b + 1].0@));
                    }
                }
            }
            lemma_as_map(t);
            let k = key@;
            assert(as_map(t) =~= as_map(s).remove(k)) by {
                assert forall|x: Seq<char>| as_map(t).contains_key(x) <==> as_map(s).remove(k).contains_key(x) by {
                    if has_key(t, x) {
                        let j = choose|j: int| 0 <= j < t.len() && #[trigger] t[j].0@ == x;
                        if j < i {
                            assert(s[j].0@ == x);
                            assert(before(s[j].0@, s[i as int].0@));
                        } else {
                            assert(s[j + 1].0@ == x);
                            assert(before(s[i as int].0@, s[j + 1].0@));
                        }
                        lemma_before_irreflexive(x);
                    }
                    if has_key(s, x) && x != k {
                        let j = choose|j: int| 0 <= j < s.len() && #[trigger] s[j].0@ == x;
                        if j < i {
                            assert(t[j].0@ == x);
                        } else {
                            assert(j != i);
                            assert(t[j - 1].0@ == x);
                        }
                    }
                }
                assert forall|x: Seq<char>| #[trigger] as_map(t).contains_key(x) implies as_map(t)[x] == as_map(s).remove(k)[x] by {
                    let j = choose|j: int| 0 <= j < t.len() && #[trigger] t[j].0@ == x;
                    if j < i {
                        assert(s[j].0@ == x);
                    } else {
                        assert(s[j + 1].0@ == x);
                    }
                }
            }
        }
        std::mem::swap(&mut held, &mut self.entries);
    }
}

impl Table<String> {
    /// A copy of the table.
    pub fn duplicate(&self) -> (r: Self)
        ensures
            r@ == self@,
            r.list() == self.list(),
    {
        proof {
            use_type_invariant(self);
        }
        let mut out: Vec<(String, String)> = Vec::new();
        let mut i: usize = 0;
        while i < self.entries.len()
            invariant
                i <= self.entries@.len(),
                out@ == self.entries@.take(i as int),
            decreases self.entries@.len() - i,
        {
            let k = self.entries[i].0.clone();
            let v = self.entries[i].1.clone();
            out.push((k, v));
            assert(out@ =~= self.entries@.take(i + 1));
            i += 1;
        }
        assert(out@ =~= self.entries@);
        Table { entries: out }
    }

    /// The entries in key order, copied out.
    pub fn pairs(&self) -> (r: Vec<(String, String)>)
        ensures
            r@ == self.list(),
            sorted(r@),
            as_map(r@) == self@,
    {
        let t = self.duplicate();
        let r = t.entries;
        proof {
            use_type_invariant(self);
        }
        r
    }
}

} // verus!
