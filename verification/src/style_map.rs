//! An ordered map from style names to styles, kept sorted by name.
use crate::style::Style;
use crate::text::{chars_of, text_eq};
use vstd::prelude::*;

verus! {

/// Strict lexicographic order on character sequences (by code point), the
/// order in which a `BTreeMap<String, _>` keeps its keys.
pub open spec fn key_less(a: Seq<char>, b: Seq<char>) -> bool
    decreases a.len(),
{
    if a.len() == 0 {
        b.len() > 0
    } else if b.len() == 0 {
        false
    } else if a[0] < b[0] {
        true
    } else if a[0] == b[0] {
        key_less(a.drop_first(), b.drop_first())
    } else {
        false
    }
}

/// `key_less` is irreflexive.
pub proof fn lemma_key_less_irreflexive(a: Seq<char>)
    ensures
        !key_less(a, a),
    decreases a.len(),
{
    if a.len() > 0 {
        lemma_key_less_irreflexive(a.drop_first());
    }
}

/// `key_less` is transitive.
pub proof fn lemma_key_less_transitive(a: Seq<char>, b: Seq<char>, c: Seq<char>)
    requires
        key_less(a, b),
        key_less(b, c),
    ensures
        key_less(a, c),
    decreases a.len(),
{
    if a.len() > 0 && b.len() > 0 && c.len() > 0 {
        if a[0] == b[0] && b[0] == c[0] {
            lemma_key_less_transitive(a.drop_first(), b.drop_first(), c.drop_first());
        }
    }
}

/// `key_less` is total on distinct sequences.
pub proof fn lemma_key_less_total(a: Seq<char>, b: Seq<char>)
    ensures
        a == b || key_less(a, b) || key_less(b, a),
    decreases a.len(),
{
    if a.len() > 0 && b.len() > 0 {
        if a[0] == b[0] {
            lemma_key_less_total(a.drop_first(), b.drop_first());
            if a.drop_first() == b.drop_first() {
                assert(a == seq![a[0]] + a.drop_first());
                assert(b == seq![b[0]] + b.drop_first());
            }
        } else {
        }
    } else if a.len() == 0 && b.len() == 0 {
        assert(a == b);
    }
}

/// `key_less` is asymmetric.
pub proof fn lemma_key_less_asymmetric(a: Seq<char>, b: Seq<char>)
    requires
        key_less(a, b),
    ensures
        !key_less(b, a),
{
    if key_less(b, a) {
        lemma_key_less_transitive(a, b, a);
        lemma_key_less_irreflexive(a);
    }
}

/// Three-way comparison of two character sequences: negative, zero or positive
/// as `a` sorts before, equal to, or after `b`.
pub fn compare_chars(a: &Vec<char>, b: &Vec<char>) -> (r: i8)
    ensures
        (r < 0) == key_less(a@, b@),
        (r == 0) == (a@ == b@),
        (r > 0) == key_less(b@, a@),
{
    let mut i: usize = 0;
    assert(a@.subrange(0, a@.len() as int) == a@);
    assert(b@.subrange(0, b@.len() as int) == b@);
    while i < a.len() && i < b.len() && a[i] == b[i]
        invariant
            i <= a@.len(),
            i <= b@.len(),
            a@.subrange(0, i as int) == b@.subrange(0, i as int),
            key_less(a@, b@) == key_less(a@.subrange(i as int, a@.len() as int), b@.subrange(i as int, b@.len() as int)),
            key_less(b@, a@) == key_less(b@.subrange(i as int, b@.len() as int), a@.subrange(i as int, a@.len() as int)),
        decreases a@.len() - i,
    {
        proof {
            let sa = a@.subrange(i as int, a@.len() as int);
            let sb = b@.subrange(i as int, b@.len() as int);
            assert(sa.drop_first() == a@.subrange(i + 1, a@.len() as int));
            assert(sb.drop_first() == b@.subrange(i + 1, b@.len() as int));
            assert(a@.subrange(0, i + 1) == a@.subrange(0, i as int).push(a@[i as int]));
            assert(b@.subrange(0, i + 1) == b@.subrange(0, i as int).push(b@[i as int]));
        }
        i += 1;
    }
    let ghost sa = a@.subrange(i as int, a@.len() as int);
    let ghost sb = b@.subrange(i as int, b@.len() as int);
    if i == a.len() && i == b.len() {
        assert(a@ == a@.subrange(0, i as int));
        assert(b@ == b@.subrange(0, i as int));
        proof {
            lemma_key_less_irreflexive(a@);
        }
        0
    } else if i == a.len() {
        proof {
            assert(a@.len() != b@.len());
        }
        -1
    } else if i == b.len() {
        proof {
            assert(a@.len() != b@.len());
        }
        1
    } else {
        assert(a@[i as int] != b@[i as int]);
        assert(sa[0] == a@[i as int]);
        assert(sb[0] == b@[i as int]);
        if a[i] < b[i] {
            -1
        } else {
            1
        }
    }
}

/// A map from names to styles whose entries are kept sorted by name.
#[derive(Debug)]
pub struct StyleMap {
    entries: Vec<(String, Style)>,
}

impl StyleMap {
    /// The names of the entries, in storage order.
    pub closed spec fn key_seq(self) -> Seq<Seq<char>> {
        self.entries@.map_values(|e: (String, Style)| e.0@)
    }

    /// The styles of the entries, in storage order.
    pub closed spec fn style_seq(self) -> Seq<Style> {
        self.entries@.map_values(|e: (String, Style)| e.1)
    }

    /// Entries are strictly increasing by name.
    #[verifier::type_invariant]
    closed spec fn sorted(self) -> bool {
        forall|i: int, j: int|
            0 <= i < j < self.entries@.len() ==> key_less(
                #[trigger] self.entries@[i].0@,
                #[trigger] self.entries@[j].0@,
            )
    }

    /// Whether some entry is named `k`.
    pub closed spec fn has_key(self, k: Seq<char>) -> bool {
        exists|i: int| 0 <= i < self.entries@.len() && #[trigger] self.entries@[i].0@ == k
    }

    /// The position of the entry named `k`.
    closed spec fn position(self, k: Seq<char>) -> int {
        choose|i: int| 0 <= i < self.entries@.len() && #[trigger] self.entries@[i].0@ == k
    }

    /// The map from names to styles.
    pub closed spec fn as_map(self) -> Map<Seq<char>, Style> {
        Map::new(|k: Seq<char>| self.has_key(k), |k: Seq<char>| self.entries@[self.position(k)].1)
    }

    /// The name sequence is strictly increasing and lists exactly the map's names.
    proof fn lemma_keys(self)
        requires
            self.sorted(),
        ensures
            forall|i: int, j: int|
                0 <= i < j < self.key_seq().len() ==> key_less(
                    #[trigger] self.key_seq()[i],
                    #[trigger] self.key_seq()[j],
                ),
            forall|k: Seq<char>| self@.contains_key(k) <==> self.key_seq().contains(k),
            forall|i: int|
                0 <= i < self.key_seq().len() ==> self@[#[trigger] self.key_seq()[i]]
                    == self.style_seq()[i],
            self.key_seq().len() == self.style_seq().len(),
    {
        assert forall|k: Seq<char>| self@.contains_key(k) <==> self.key_seq().contains(k) by {
            if self@.contains_key(k) {
                let i = self.position(k);
                assert(self.key_seq()[i] == k);
            }
            if self.key_seq().contains(k) {
                let i = choose|i: int| 0 <= i < self.key_seq().len() && self.key_seq()[i] == k;
                assert(self.entries@[i].0@ == k);
            }
        }
        assert forall|i: int|
            0 <= i < self.key_seq().len() implies self@[#[trigger] self.key_seq()[i]]
            == self.style_seq()[i] by {
            let k = self.key_seq()[i];
            assert(self.entries@[i].0@ == k);
            let p = self.position(k);
            self.lemma_unique(i, p);
        }
    }

    /// Two positions holding the same name are the same position.
    proof fn lemma_unique(self, i: int, j: int)
        requires
            0 <= i < self.entries@.len(),
            0 <= j < self.entries@.len(),
            self.entries@[i].0@ == self.entries@[j].0@,
            self.sorted(),
        ensures
            i == j,
    {
        if i < j {
            assert(key_less(self.entries@[i].0@, self.entries@[j].0@));
            lemma_key_less_irreflexive(self.entries@[i].0@);
        } else if j < i {
            assert(key_less(self.entries@[j].0@, self.entries@[i].0@));
            lemma_key_less_irreflexive(self.entries@[i].0@);
        }
    }

    /// Creates an empty map.
    pub fn new() -> (m: Self)
        ensures
            m@ == Map::<Seq<char>, Style>::empty(),
            m.key_seq().len() == 0,
    {
        let m = StyleMap { entries: Vec::new() };
        assert(m@ =~= Map::<Seq<char>, Style>::empty());
        m
    }

    /// The number of entries; the names are listed in strictly increasing
    /// order, each name of the map once.
    pub fn len(&self) -> (n: usize)
        ensures
            n == self.key_seq().len(),
            n == self.style_seq().len(),
            n == self@.dom().len(),
            forall|i: int, j: int|
                0 <= i < j < self.key_seq().len() ==> key_less(
                    #[trigger] self.key_seq()[i],
                    #[trigger] self.key_seq()[j],
                ),
            forall|k: Seq<char>| self@.contains_key(k) <==> self.key_seq().contains(k),
    {
        proof {
            use_type_invariant(self);
            self.lemma_keys();
            self.lemma_dom_len();
        }
        self.entries.len()
    }

    /// The map's domain has as many names as there are entries.
    proof fn lemma_dom_len(self)
        requires
            self.sorted(),
        ensures
            self@.dom().len() == self.entries@.len(),
            self@.dom().finite(),
    {
        self.lemma_keys();
        let ks = self.key_seq();
        assert(ks.no_duplicates()) by {
            assert forall|i: int, j: int|
                0 <= i < ks.len() && 0 <= j < ks.len() && i != j implies ks[i] != ks[j] by {
                if i < j {
                    lemma_key_less_irreflexive(ks[i]);
                } else {
                    lemma_key_less_irreflexive(ks[j]);
                }
            }
        }
        assert(self@.dom() =~= ks.to_set());
        ks.unique_seq_to_set();
    }

    /// The name of the entry at position `i` (in name order).
    pub fn key_at(&self, i: usize) -> (k: &String)
        requires
            i < self.key_seq().len(),
        ensures
            k@ == self.key_seq()[i as int],
            self@.contains_key(k@),
            self@[k@] == self.style_seq()[i as int],
    {
        proof {
            use_type_invariant(self);
            self.lemma_keys();
            assert(self.key_seq()[i as int] == self.entries@[i as int].0@);
        }
        &self.entries[i].0
    }

    /// The style of the entry at position `i` (in name order).
    pub fn style_at(&self, i: usize) -> (s: Style)
        requires
            i < self.key_seq().len(),
        ensures
            s == self.style_seq()[i as int],
    {
        self.entries[i].1
    }

    /// Looks up the style stored under `key`.
    pub fn get(&self, key: &str) -> (r: Option<&Style>)
        ensures
            r == (if self@.contains_key(key@) {
                Some(&self@[key@])
            } else {
                None
            }),
    {
        proof {
            use_type_invariant(self);
        }
        let mut i: usize = 0;
        while i < self.entries.len()
            invariant
                i <= self.entries@.len(),
                self.sorted(),
                forall|j: int| 0 <= j < i ==> #[trigger] self.entries@[j].0@ != key@,
            decreases self.entries@.len() - i,
        {
            if text_eq(&self.entries[i].0, key) {
                proof {
                    let p = self.position(key@);
                    self.lemma_unique(i as int, p);
                }
                return Some(&self.entries[i].1);
            }
            i += 1;
        }
        None
    }

    /// Whether some entry is named `key`.
    pub fn contains_key(&self, key: &str) -> (r: bool)
        ensures
            r == self@.contains_key(key@),
    {
        self.get(key).is_some()
    }

    /// Inserts or replaces the style stored under `key`, returning the previous one.
    pub fn insert(&mut self, key: String, style: Style) -> (r: Option<Style>)
        ensures
            final(self)@ == old(self)@.insert(key@, style),
            final(self).key_seq().len() <= old(self).key_seq().len() + 1,
            r == (if old(self)@.contains_key(key@) {
                Some(old(self)@[key@])
            } else {
                None
            }),
    {
        proof {
            use_type_invariant(&*self);
        }
        let kc = chars_of(key.as_str());
        let n = self.entries.len();
        let mut p: usize = 0;
        while p < n
            invariant
                p <= n == self.entries@.len(),
                kc@ == key@,
                forall|j: int| 0 <= j < p ==> key_less(#[trigger] self.entries@[j].0@, key@),
            ensures
                p <= n,
                forall|j: int| 0 <= j < p ==> key_less(#[trigger] self.entries@[j].0@, key@),
                p < n ==> !key_less(self.entries@[p as int].0@, key@),
            decreases n - p,
        {
            let ec = chars_of(self.entries[p].0.as_str());
            if compare_chars(&ec, &kc) >= 0 {
                break;
            }
            p += 1;
        }
        let mut entries = Vec::new();
        std::mem::swap(&mut entries, &mut self.entries);
        let ghost old_entries = entries@;
        let ghost old_map = old(self)@;
        assert(forall|i: int, j: int|
            0 <= i < j < old_entries.len() ==> key_less(
                #[trigger] old_entries[i].0@,
                #[trigger] old_entries[j].0@,
            ));
        if p < n && text_eq(&entries[p].0, key.as_str()) {
            let prev = entries[p].1;
            entries.set(p, (key, style));
            let ghost ks = key@;
            self.entries = entries;
            proof {
                assert(old_entries[p as int].0@ == ks);
                assert(self.entries@[p as int].0@ == ks);
                assert forall|i: int| 0 <= i < self.entries@.len() implies #[trigger] self.entries@[i].0@
                    == old_entries[i].0@ by {}
                assert(self@ =~= old_map.insert(ks, style)) by {
                    assert forall|k: Seq<char>| #[trigger] self@.contains_key(k) == old_map.insert(ks, style).contains_key(k) by {
                        if self.has_key(k) {
                            let i = choose|i: int| 0 <= i < self.entries@.len() && #[trigger] self.entries@[i].0@ == k;
                            assert(old_entries[i].0@ == k);
                            assert(old(self).entries@[i].0@ == k);
                        }
                        if old(self).has_key(k) {
                            let i = choose|i: int| 0 <= i < old(self).entries@.len() && #[trigger] old(self).entries@[i].0@ == k;
                            assert(self.entries@[i].0@ == k);
                        }
                    }
                    assert forall|k: Seq<char>| #[trigger] self@.contains_key(k) implies self@[k] == old_map.insert(ks, style)[k] by {
                        let i = self.position(k);
                        if k == ks {
                            self.lemma_unique(i, p as int);
                        } else {
                            assert(old(self).entries@[i].0@ == k);
                            let j = old(self).position(k);
                            old(self).lemma_unique(i, j);
                        }
                    }
                }
                let q = old(self).position(ks);
                old(self).lemma_unique(q, p as int);
            }
            Some(prev)
        } else {
            proof {
                if p < n {
                    // the entry at p is not below the key and differs from it
                    lemma_key_less_total(old_entries[p as int].0@, key@);
                }
            }
            let ghost ks = key@;
            entries.insert(p, (key, style));
            proof {
                assert forall|i: int, j: int|
                    0 <= i < j < entries@.len() implies key_less(
                    #[trigger] entries@[i].0@,
                    #[trigger] entries@[j].0@,
                ) by {
                    if j < p {
                        assert(entries@[i] == old_entries[i]);
                        assert(entries@[j] == old_entries[j]);
                    } else if j == p {
                        assert(entries@[i] == old_entries[i]);
                    } else if i < p {
                        assert(entries@[i] == old_entries[i]);
                        assert(entries@[j] == old_entries[j - 1]);
                        lemma_key_less_transitive(old_entries[i].0@, ks, old_entries[p as int].0@);
                        if j - 1 > p {
                            lemma_key_less_transitive(
                                old_entries[i].0@,
                                old_entries[p as int].0@,
                                old_entries[j - 1].0@,
                            );
                        }
                    } else if i == p {
                        assert(entries@[j] == old_entries[j - 1]);
                        if j - 1 > p {
                            lemma_key_less_transitive(
                                ks,
                                old_entries[p as int].0@,
                                old_entries[j - 1].0@,
                            );
                        }
                    } else {
                        assert(entries@[i] == old_entries[i - 1]);
                        assert(entries@[j] == old_entries[j - 1]);
                    }
                }
            }
            self.entries = entries;
            proof {
                assert(!old(self).has_key(ks)) by {
                    if old(self).has_key(ks) {
                        let i = choose|i: int| 0 <= i < old_entries.len() && #[trigger] old(self).entries@[i].0@ == ks;
                        if i < p {
                            lemma_key_less_irreflexive(ks);
                        } else if i == p {
                        } else {
                            lemma_key_less_transitive(ks, old_entries[p as int].0@, old_entries[i].0@);
                            lemma_key_less_irreflexive(ks);
                        }
                    }
                }
                assert(self.entries@[p as int].0@ == ks);
                assert(self@ =~= old_map.insert(ks, style)) by {
                    assert forall|k: Seq<char>| #[trigger] self@.contains_key(k) == old_map.insert(ks, style).contains_key(k) by {
                        if self.has_key(k) {
                            let i = choose|i: int| 0 <= i < self.entries@.len() && #[trigger] self.entries@[i].0@ == k;
                            if i < p {
                                assert(old(self).entries@[i].0@ == k);
                            } else if i > p {
                                assert(old(self).entries@[i - 1].0@ == k);
                            }
                        }
                        if old(self).has_key(k) {
                            let i = choose|i: int| 0 <= i < old(self).entries@.len() && #[trigger] old(self).entries@[i].0@ == k;
                            if i < p {
                                assert(self.entries@[i].0@ == k);
                            } else {
                                assert(self.entries@[i + 1].0@ == k);
                            }
                        }
                    }
                    assert forall|k: Seq<char>| #[trigger] self@.contains_key(k) implies self@[k] == old_map.insert(ks, style)[k] by {
                        let i = self.position(k);
                        if k == ks {
                            self.lemma_unique(i, p as int);
                        } else if i < p {
                            assert(old(self).entries@[i].0@ == k);
                            let j = old(self).position(k);
                            old(self).lemma_unique(i, j);
                        } else {
                            assert(i != p);
                            assert(old(self).entries@[i - 1].0@ == k);
                            let j = old(self).position(k);
                            old(self).lemma_unique(i - 1, j);
                        }
                    }
                }
            }
            None
        }
    }
}

impl StyleMap {
    /// Inserts or replaces the style stored under `key`.
    pub fn put(&mut self, key: &str, style: Style)
        ensures
            final(self)@ == old(self)@.insert(key@, style),
            final(self).key_seq().len() <= old(self).key_seq().len() + 1,
    {
        let k = String::from_str(key);
        self.insert(k, style);
    }
}

impl View for StyleMap {
    type V = Map<Seq<char>, Style>;

    closed spec fn view(&self) -> Map<Seq<char>, Style> {
        self.as_map()
    }
}

impl Clone for StyleMap {
    fn clone(&self) -> (c: Self)
        ensures
            c@ == self@,
            c.key_seq() == self.key_seq(),
            c.style_seq() == self.style_seq(),
    {
        proof {
            use_type_invariant(self);
        }
        let mut entries: Vec<(String, Style)> = Vec::new();
        let mut i: usize = 0;
        while i < self.entries.len()
            invariant
                i <= self.entries@.len(),
                entries@.len() == i,
                forall|j: int| 0 <= j < i ==> (#[trigger] entries@[j]).0@ == self.entries@[j].0@ && entries@[j].1 == self.entries@[j].1,
            decreases self.entries@.len() - i,
        {
            let k = self.entries[i].0.clone();
            entries.push((k, self.entries[i].1));
            i += 1;
        }
        let c = StyleMap { entries };
        assert(c.key_seq() =~= self.key_seq());
        assert(c.style_seq() =~= self.style_seq());
        assert(c@ =~= self@) by {
            assert forall|k: Seq<char>| #[trigger] c@.contains_key(k) == self@.contains_key(k) by {
                if c.has_key(k) {
                    let i = choose|i: int| 0 <= i < c.entries@.len() && #[trigger] c.entries@[i].0@ == k;
                    assert(self.entries@[i].0@ == k);
                }
                if self.has_key(k) {
                    let i = choose|i: int| 0 <= i < self.entries@.len() && #[trigger] self.entries@[i].0@ == k;
                    assert(c.entries@[i].0@ == k);
                }
            }
            assert forall|k: Seq<char>| #[trigger] c@.contains_key(k) implies c@[k] == self@[k] by {
                let i = c.position(k);
                let j = self.position(k);
                assert(self.entries@[i].0@ == k);
                self.lemma_unique(i, j);
            }
        }
        c
    }
}

} // verus!
