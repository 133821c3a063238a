//! A small string-keyed map that keeps its entries in a `Vec`, each key at most once,
//! in increasing order of the keys (character by character, as `String` orders them).
use crate::text::str_is;
use vstd::prelude::*;

verus! {

/// A map from names to values; each name occurs at most once.
#[derive(Debug)]
pub struct NamedMap<V> {
    entries: Vec<(String, V)>,
}

/// Whether `key` is one of the names of `s`.
pub open spec fn seq_has_key<V>(s: Seq<(String, V)>, key: Seq<char>) -> bool {
    exists|i: int| 0 <= i < s.len() && #[trigger] s[i].0@ == key
}

/// The position of `key` among the names of `s`.
pub open spec fn seq_key_index<V>(s: Seq<(String, V)>, key: Seq<char>) -> int {
    choose|i: int| 0 <= i < s.len() && #[trigger] s[i].0@ == key
}

pub open spec fn keys_unique<V>(s: Seq<(String, V)>) -> bool {
    forall|i: int, j: int| 0 <= i < s.len() && 0 <= j < s.len() && #[trigger] s[i].0@ == #[trigger] s[j].0@ ==> i == j
}

/// Strict lexicographic order of strings, character by character; a proper prefix
/// comes first. (UTF-8 keeps the order of code points, so this is how `String`
/// compares.)
pub open spec fn lex_lt(a: Seq<char>, b: Seq<char>) -> bool
    decreases a.len(),
{
    if a.len() == 0 {
        b.len() > 0
    } else if b.len() == 0 {
        false
    } else if a[0] != b[0] {
        (a[0] as int) < (b[0] as int)
    } else {
        lex_lt(a.drop_first(), b.drop_first())
    }
}

/// The keys of `s` increase strictly from one entry to the next.
pub open spec fn keys_sorted<V>(s: Seq<(String, V)>) -> bool {
    forall|i: int, j: int| 0 <= i < j < s.len() ==> lex_lt(#[trigger] s[i].0@, #[trigger] s[j].0@)
}

pub proof fn lemma_lex_irreflexive(a: Seq<char>)
    ensures
        !lex_lt(a, a),
    decreases a.len(),
{
    if a.len() > 0 {
        lemma_lex_irreflexive(a.drop_first());
    }
}

pub proof fn lemma_lex_transitive(a: Seq<char>, b: Seq<char>, c: Seq<char>)
    requires
        lex_lt(a, b),
        lex_lt(b, c),
    ensures
        lex_lt(a, c),
    decreases a.len(),
{
    if a.len() > 0 && b.len() > 0 && c.len() > 0 && a[0] == b[0] && b[0] == c[0] {
        lemma_lex_transitive(a.drop_first(), b.drop_first(), c.drop_first());
    }
}

/// Of two different strings, one comes first.
pub proof fn lemma_lex_total(a: Seq<char>, b: Seq<char>)
    requires
        a != b,
    ensures
        lex_lt(a, b) || lex_lt(b, a),
    decreases a.len(),
{
    if a.len() > 0 && b.len() > 0 && a[0] == b[0] {
        if a.drop_first() == b.drop_first() {
            assert(a.drop_first().len() == a.len() - 1);
            assert(b.drop_first().len() == b.len() - 1);
            assert(a.len() == b.len());
            assert(a =~= b) by {
                assert forall|i: int| 0 <= i < a.len() implies a[i] == b[i] by {
                    if i > 0 {
                        assert(a[i] == a.drop_first()[i - 1]);
                        assert(b[i] == b.drop_first()[i - 1]);
                    }
                }
            }
        } else {
            lemma_lex_total(a.drop_first(), b.drop_first());
        }
    } else if a.len() > 0 && b.len() > 0 {
        assert((a[0] as int) != (b[0] as int));
    } else if a.len() == 0 && b.len() == 0 {
        assert(a =~= b);
    }
}

proof fn lemma_sorted_unique<V>(s: Seq<(String, V)>)
    requires
        keys_sorted(s),
    ensures
        keys_unique(s),
{
    assert forall|i: int, j: int| 0 <= i < s.len() && 0 <= j < s.len() && #[trigger] s[i].0@
        == #[trigger] s[j].0@ implies i == j by {
        lemma_lex_irreflexive(s[i].0@);
        if i < j {
            assert(lex_lt(s[i].0@, s[j].0@));
        } else if j < i {
            assert(lex_lt(s[j].0@, s[i].0@));
        }
    }
}

/// Whether `a` comes before `b` in the order of `lex_lt`.
fn name_before(a: &str, b: &str) -> (r: bool)
    ensures
        r == lex_lt(a@, b@),
{
    let n = a.unicode_len();
    let m = b.unicode_len();
    let mut i: usize = 0;
    assert(a@.skip(0) =~= a@ && b@.skip(0) =~= b@);
    while i < n && i < m
        invariant
            i <= n,
            i <= m,
            n == a@.len(),
            m == b@.len(),
            lex_lt(a@, b@) == lex_lt(a@.skip(i as int), b@.skip(i as int)),
        decreases n - i,
    {
        let x = a.get_char(i);
        let y = b.get_char(i);
        assert(a@.skip(i as int)[0] == x && b@.skip(i as int)[0] == y);
        if x != y {
            return (x as u32) < (y as u32);
        }
        assert(a@.skip(i as int).drop_first() =~= a@.skip(i + 1));
        assert(b@.skip(i as int).drop_first() =~= b@.skip(i + 1));
        i = i + 1;
    }
    i == n && i < m
}

impl<V> NamedMap<V> {
    #[verifier::type_invariant]
    spec fn inv(self) -> bool {
        keys_unique(self.entries@) && keys_sorted(self.entries@)
    }

    /// The entries, in order.
    pub closed spec fn entry_seq(&self) -> Seq<(String, V)> {
        self.entries@
    }

    /// The map the entries describe.
    pub closed spec fn view(&self) -> Map<Seq<char>, V> {
        Map::new(
            |k: Seq<char>| seq_has_key(self.entries@, k),
            |k: Seq<char>| self.entries@[seq_key_index(self.entries@, k)].1,
        )
    }

    pub fn new() -> (r: Self)
        ensures
            r.view() == Map::<Seq<char>, V>::empty(),
            r.entry_seq().len() == 0,
    {
        let r = NamedMap { entries: Vec::new() };
        assert(r.view() =~= Map::<Seq<char>, V>::empty());
        r
    }

    pub fn len(&self) -> (r: usize)
        ensures
            r == self.entry_seq().len(),
    {
        self.entries.len()
    }

    pub fn is_empty(&self) -> (r: bool)
        ensures
            r == (self.view().dom().len() == 0),
            r == (self.entry_seq().len() == 0),
    {
        proof {
            use_type_invariant(self);
            self.lemma_dom_len();
        }
        self.entries.len() == 0
    }

    proof fn lemma_dom_len(&self)
        requires
            keys_unique(self.entries@),
        ensures
            self.view().dom().finite(),
            self.view().dom().len() == self.entries@.len(),
        decreases self.entries@.len(),
    {
        let s = self.entries@;
        let d = self.view().dom();
        let f = |i: int| s[i].0@;
        let idx = Set::new(|i: int| 0 <= i < s.len());
        assert(d =~= idx.map(f)) by {
            assert forall|k: Seq<char>| d.contains(k) implies idx.map(f).contains(k) by {
                let i = choose|i: int| 0 <= i < s.len() && #[trigger] s[i].0@ == k;
                assert(idx.contains(i) && f(i) == k);
            }
        }
        vstd::set_lib::lemma_int_range(0, s.len() as int);
        assert(idx =~= vstd::set_lib::set_int_range(0, s.len() as int));
        assert forall|a: int, b: int| idx.contains(a) && idx.contains(b) && #[trigger] f(a) == #[trigger] f(b) implies a == b by {
        }
        vstd::set_lib::lemma_map_size(idx, idx.map(f), f);
    }

    /// The position of the entry named `key`, if any.
    fn position(&self, key: &str) -> (r: Option<usize>)
        ensures
            r matches Some(i) ==> i < self.entries@.len() && self.entries@[i as int].0@ == key@,
            r is None ==> !seq_has_key(self.entries@, key@),
    {
        let mut i: usize = 0;
        while i < self.entries.len()
            invariant
                i <= self.entries@.len(),
                forall|j: int| 0 <= j < i ==> self.entries@[j].0@ != key@,
            decreases self.entries@.len() - i,
        {
            if str_is(self.entries[i].0.as_str(), key) {
                return Some(i);
            }
            i += 1;
        }
        None
    }

    /// Whether an entry is named `key`.
    pub fn contains_key(&self, key: &str) -> (r: bool)
        ensures
            r == self.view().contains_key(key@),
    {
        self.position(key).is_some()
    }

    /// The value named `key`, if any.
    pub fn get(&self, key: &str) -> (r: Option<&V>)
        ensures
            match r {
                Some(v) => self.view().contains_key(key@) && *v == self.view()[key@],
                None => !self.view().contains_key(key@),
            },
    {
        proof {
            use_type_invariant(self);
        }
        match self.position(key) {
            Some(i) => {
                proof {
                    let j = seq_key_index(self.entries@, key@);
                    assert(self.entries@[i as int].0@ == key@);
                    assert(self.entries@[j].0@ == key@);
                }
                Some(&self.entries[i].1)
            },
            None => None,
        }
    }

    /// Names `key` with `value`, replacing the value it named before.
    pub fn insert(&mut self, key: String, value: V)
        ensures
            final(self).view() == old(self).view().insert(key@, value),
    {
        proof {
            use_type_invariant(&*self);
        }
        let ghost old_entries = self.entries@;
        let mut p: usize = 0;
        while p < self.entries.len() && name_before(self.entries[p].0.as_str(), key.as_str())
            invariant
                p <= self.entries@.len(),
                self.entries@ == old_entries,
                forall|j: int| 0 <= j < p ==> lex_lt(#[trigger] old_entries[j].0@, key@),
            decreases self.entries@.len() - p,
        {
            p = p + 1;
        }
        let pos = if p < self.entries.len() && str_is(self.entries[p].0.as_str(), key.as_str()) {
            Some(p)
        } else {
            None
        };
        let mut entries: Vec<(String, V)> = Vec::new();
        std::mem::swap(&mut entries, &mut self.entries);
        match pos {
            Some(i) => {
                let ghost k = key@;
                entries.set(i, (key, value));
                proof {
                    let s = entries@;
                    assert(s == old_entries.update(i as int, (s[i as int].0, value)));
                    assert forall|a: int, b: int| 0 <= a < s.len() && 0 <= b < s.len() && #[trigger] s[a].0@ == #[trigger] s[b].0@ implies a == b by {
                        if a != i && b != i {
                            assert(s[a] == old_entries[a] && s[b] == old_entries[b]);
                        } else if a == i && b != i {
                            assert(s[b] == old_entries[b]);
                            assert(old_entries[i as int].0@ == k);
                        } else if a != i && b == i {
                            assert(s[a] == old_entries[a]);
                            assert(old_entries[i as int].0@ == k);
                        }
                    }
                    assert(keys_unique(s));
                    assert forall|a: int, b: int| 0 <= a < b < s.len() implies lex_lt(#[trigger] s[a].0@, #[trigger] s[b].0@) by {
                        assert(s[a].0@ == old_entries[a].0@);
                        assert(s[b].0@ == old_entries[b].0@);
                    }
                    let new_view = Map::new(
                        |kk: Seq<char>| seq_has_key(s, kk),
                        |kk: Seq<char>| s[seq_key_index(s, kk)].1,
                    );
                    let old_view = Map::new(
                        |kk: Seq<char>| seq_has_key(old_entries, kk),
                        |kk: Seq<char>| old_entries[seq_key_index(old_entries, kk)].1,
                    );
                    assert forall|kk: Seq<char>| seq_has_key(s, kk) <== (seq_has_key(old_entries, kk) || kk == k) by {
                        if kk == k {
                            assert(s[i as int].0@ == k);
                        } else if seq_has_key(old_entries, kk) {
                            let j = choose|j: int| 0 <= j < old_entries.len() && #[trigger] old_entries[j].0@ == kk;
                            assert(j != i);
                            assert(s[j] == old_entries[j]);
                        }
                    }
                    assert forall|kk: Seq<char>| seq_has_key(s, kk) implies (seq_has_key(old_entries, kk) || kk == k) by {
                        let j = choose|j: int| 0 <= j < s.len() && #[trigger] s[j].0@ == kk;
                        if j != i {
                            assert(s[j] == old_entries[j]);
                        }
                    }
                    assert forall|kk: Seq<char>| seq_has_key(s, kk) implies new_view[kk] == old_view.insert(k, value)[kk] by {
                        let j = seq_key_index(s, kk);
                        if kk == k {
                            assert(s[i as int].0@ == k);
                            assert(j == i);
                        } else {
                            let jo = seq_key_index(old_entries, kk);
                            assert(old_entries[jo].0@ == kk);
                            assert(jo != i);
                            assert(s[jo] == old_entries[jo]);
                            assert(j == jo);
                        }
                    }
                    assert(new_view =~= old_view.insert(k, value));
                }
            },
            None => {
                let ghost k = key@;
                entries.insert(p, (key, value));
                proof {
                    let s = entries@;
                    let n = old_entries.len() as int;
                    let pi = p as int;
                    assert(s == old_entries.insert(pi, s[pi]));
                    assert(s[pi].0@ == k);
                    assert forall|a: int| 0 <= a < s.len() && a != pi implies #[trigger] s[a] == old_entries[if a < pi { a } else { a - 1 }] by {}
                    // every old key differs from the new one, and the old keys from
                    // position p on come after it
                    assert forall|j: int| 0 <= j < n implies #[trigger] old_entries[j].0@ != k by {
                        if j < pi {
                            lemma_lex_irreflexive(k);
                        } else {
                            if j > pi {
                                assert(lex_lt(old_entries[pi].0@, old_entries[j].0@));
                                if old_entries[j].0@ == k {
                                    lemma_lex_total(old_entries[pi].0@, k);
                                    if lex_lt(k, old_entries[pi].0@) {
                                        lemma_lex_transitive(k, old_entries[pi].0@, k);
                                        lemma_lex_irreflexive(k);
                                    }
                                }
                            }
                        }
                    }
                    assert forall|j: int| pi <= j < n implies lex_lt(k, #[trigger] old_entries[j].0@) by {
                        assert(old_entries[pi].0@ != k);
                        lemma_lex_total(old_entries[pi].0@, k);
                        if j > pi {
                            assert(lex_lt(old_entries[pi].0@, old_entries[j].0@));
                            lemma_lex_transitive(k, old_entries[pi].0@, old_entries[j].0@);
                        }
                    }
                    assert forall|a: int, b: int| 0 <= a < b < s.len() implies lex_lt(#[trigger] s[a].0@, #[trigger] s[b].0@) by {
                        let oa = if a < pi { a } else { a - 1 };
                        let ob = if b < pi { b } else { b - 1 };
                        if a == pi {
                            assert(s[b] == old_entries[ob]);
                        } else if b == pi {
                            assert(s[a] == old_entries[oa]);
                        } else {
                            assert(s[a] == old_entries[oa] && s[b] == old_entries[ob]);
                            assert(oa < ob);
                        }
                    }
                    lemma_sorted_unique(s);
                    let new_view = Map::new(
                        |kk: Seq<char>| seq_has_key(s, kk),
                        |kk: Seq<char>| s[seq_key_index(s, kk)].1,
                    );
                    let old_view = Map::new(
                        |kk: Seq<char>| seq_has_key(old_entries, kk),
                        |kk: Seq<char>| old_entries[seq_key_index(old_entries, kk)].1,
                    );
                    assert forall|kk: Seq<char>| seq_has_key(s, kk) <== (seq_has_key(old_entries, kk) || kk == k) by {
                        if kk == k {
                            assert(s[pi].0@ == k);
                        } else if seq_has_key(old_entries, kk) {
                            let j = choose|j: int| 0 <= j < old_entries.len() && #[trigger] old_entries[j].0@ == kk;
                            let sj = if j < pi { j } else { j + 1 };
                            assert(s[sj] == old_entries[j]);
                        }
                    }
                    assert forall|kk: Seq<char>| seq_has_key(s, kk) implies (seq_has_key(old_entries, kk) || kk == k) by {
                        let j = choose|j: int| 0 <= j < s.len() && #[trigger] s[j].0@ == kk;
                        if j != pi {
                            let oj = if j < pi { j } else { j - 1 };
                            assert(s[j] == old_entries[oj]);
                        }
                    }
                    assert forall|kk: Seq<char>| seq_has_key(s, kk) implies new_view[kk] == old_view.insert(k, value)[kk] by {
                        let j = seq_key_index(s, kk);
                        if kk == k {
                            assert(s[pi].0@ == k);
                            assert(j == pi);
                        } else {
                            let jo = seq_key_index(old_entries, kk);
                            assert(old_entries[jo].0@ == kk);
                            let sj = if jo < pi { jo } else { jo + 1 };
                            assert(s[sj] == old_entries[jo]);
                            assert(j == sj);
                        }
                    }
                    assert(new_view =~= old_view.insert(k, value));
                }
            },
        }
        self.entries = entries;
    }

    /// Removes the entry named `key` and returns its value, if there was one.
    pub fn remove(&mut self, key: &str) -> (r: Option<V>)
        ensures
            final(self).view() == old(self).view().remove(key@),
            match r {
                Some(v) => old(self).view().contains_key(key@) && v == old(self).view()[key@],
                None => !old(self).view().contains_key(key@),
            },
    {
        proof {
            use_type_invariant(&*self);
        }
        let ghost old_entries = self.entries@;
        let ghost k = key@;
        let ghost old_view = self.view();
        match self.position(key) {
            None => {
                proof {
                    assert(self.view() =~= old_view.remove(k));
                }
                None
            },
            Some(i) => {
                let mut entries: Vec<(String, V)> = Vec::new();
                std::mem::swap(&mut entries, &mut self.entries);
                let (_, v) = entries.remove(i);
                proof {
                    let s = entries@;
                    let n = s.len() as int;
                    assert(s == old_entries.remove(i as int));
                    assert forall|a: int| 0 <= a < n implies #[trigger] s[a] == old_entries[if a < i { a } else { a + 1 }] by {}
                    assert forall|a: int, b: int| 0 <= a < n && 0 <= b < n && #[trigger] s[a].0@ == #[trigger] s[b].0@ implies a == b by {
                        let oa = if a < i { a } else { a + 1 };
                        let ob = if b < i { b } else { b + 1 };
                        assert(s[a] == old_entries[oa] && s[b] == old_entries[ob]);
                    }
                    assert(keys_unique(s));
                    assert forall|a: int, b: int| 0 <= a < b < n implies lex_lt(#[trigger] s[a].0@, #[trigger] s[b].0@) by {
                        let oa = if a < i { a } else { a + 1 };
                        let ob = if b < i { b } else { b + 1 };
                        assert(s[a] == old_entries[oa] && s[b] == old_entries[ob]);
                        assert(lex_lt(old_entries[oa].0@, old_entries[ob].0@));
                    }
                    assert(old_entries[i as int].0@ == k);
                    let jk = seq_key_index(old_entries, k);
                    assert(old_entries[jk].0@ == k);
                    assert(jk == i);
                    let new_view = Map::new(
                        |kk: Seq<char>| seq_has_key(s, kk),
                        |kk: Seq<char>| s[seq_key_index(s, kk)].1,
                    );
                    assert forall|kk: Seq<char>| seq_has_key(s, kk) implies seq_has_key(old_entries, kk) && kk != k by {
                        let j = choose|j: int| 0 <= j < s.len() && #[trigger] s[j].0@ == kk;
                        let oj = if j < i { j } else { j + 1 };
                        assert(s[j] == old_entries[oj]);
                        assert(oj != i);
                    }
                    assert forall|kk: Seq<char>| seq_has_key(old_entries, kk) && kk != k implies seq_has_key(s, kk) by {
                        let oj = choose|j: int| 0 <= j < old_entries.len() && #[trigger] old_entries[j].0@ == kk;
                        assert(oj != i);
                        let j = if oj < i { oj } else { oj - 1 };
                        assert(s[j] == old_entries[oj]);
                    }
                    assert forall|kk: Seq<char>| seq_has_key(s, kk) implies new_view[kk] == old_view.remove(k)[kk] by {
                        let j = seq_key_index(s, kk);
                        let oj = if j < i { j } else { j + 1 };
                        assert(s[j].0@ == kk);
                        assert(s[j] == old_entries[oj]);
                        let jo = seq_key_index(old_entries, kk);
                        assert(old_entries[jo].0@ == kk);
                        assert(jo == oj);
                    }
                    assert(new_view =~= old_view.remove(k));
                }
                self.entries = entries;
                Some(v)
            },
        }
    }

    /// The entries, in increasing order of their names (each name once).
    pub fn entries(&self) -> (r: &Vec<(String, V)>)
        ensures
            r@ == self.entry_seq(),
            keys_sorted(r@),
    {
        proof {
            use_type_invariant(self);
        }
        &self.entries
    }
}

} // verus!
