//! Storage building blocks: keys compared by their views, a set that keeps
//! insertion order (removal moves the last item into the freed slot), and an
//! association map. These hold what a contract keeps in its storage mappers.
use vstd::prelude::*;

verus! {

/// A key that can be compared and copied, both faithful to its view.
pub trait KeyEq: View + Sized {
    fn key_eq(&self, other: &Self) -> (b: bool)
        ensures
            b == (self@ == other@),
    ;

    fn key_clone(&self) -> (c: Self)
        ensures
            c@ == self@,
    ;
}

impl KeyEq for Vec<u8> {
    fn key_eq(&self, other: &Self) -> (b: bool) {
        if self.len() != other.len() {
            return false;
        }
        let mut i: usize = 0;
        while i < self.len()
            invariant
                i <= self.len(),
                self.len() == other.len(),
                forall|j: int| 0 <= j < i ==> self@[j] == other@[j],
            decreases self.len() - i,
        {
            if self[i] != other[i] {
                return false;
            }
            i += 1;
        }
        assert(self@ =~= other@);
        true
    }

    fn key_clone(&self) -> (c: Self) {
        let c = self.clone();
        assert(c@ =~= self@);
        c
    }
}

impl KeyEq for u64 {
    fn key_eq(&self, other: &Self) -> (b: bool) {
        *self == *other
    }

    fn key_clone(&self) -> (c: Self) {
        *self
    }
}

impl KeyEq for usize {
    fn key_eq(&self, other: &Self) -> (b: bool) {
        *self == *other
    }

    fn key_clone(&self) -> (c: Self) {
        *self
    }
}

impl<A: KeyEq, B: KeyEq> KeyEq for (A, B) {
    fn key_eq(&self, other: &Self) -> (b: bool) {
        self.0.key_eq(&other.0) && self.1.key_eq(&other.1)
    }

    fn key_clone(&self) -> (c: Self) {
        (self.0.key_clone(), self.1.key_clone())
    }
}

impl<A: KeyEq, B: KeyEq, C: KeyEq> KeyEq for (A, B, C) {
    fn key_eq(&self, other: &Self) -> (b: bool) {
        self.0.key_eq(&other.0) && self.1.key_eq(&other.1) && self.2.key_eq(&other.2)
    }

    fn key_clone(&self) -> (c: Self) {
        (self.0.key_clone(), self.1.key_clone(), self.2.key_clone())
    }
}

/// Whether the views of a sequence of keys are pairwise distinct.
pub open spec fn distinct_views<K: View>(s: Seq<K>) -> bool {
    forall|i: int, j: int| 0 <= i < s.len() && 0 <= j < s.len() && i != j ==> s[i]@ != s[j]@
}

/// The views of a sequence of keys.
pub open spec fn views_of<K: View>(s: Seq<K>) -> Seq<K::V> {
    s.map_values(|k: K| k@)
}

/// Whether a sequence holds no item twice.
pub open spec fn no_duplicates<T>(s: Seq<T>) -> bool {
    forall|i: int, j: int| 0 <= i < s.len() && 0 <= j < s.len() && i != j ==> s[i] != s[j]
}

/// The order in which a set stores its items after `k` is swap-removed from
/// position `i`: the last item takes its place.
pub open spec fn swap_removed<T>(s: Seq<T>, i: int) -> Seq<T> {
    if i == s.len() - 1 {
        s.drop_last()
    } else {
        s.update(i, s.last()).drop_last()
    }
}

proof fn lemma_views_distinct<K: View>(items: Seq<K>)
    requires
        distinct_views(items),
    ensures
        no_duplicates(views_of(items)),
{
    assert forall|i: int, j: int|
        0 <= i < items.len() && 0 <= j < items.len() && i != j
        implies views_of(items)[i] != views_of(items)[j] by {
        assert(views_of(items)[i] == items[i]@);
        assert(views_of(items)[j] == items[j]@);
    }
}

/// A set that remembers the order of insertion; removing an item moves the
/// last item into its place.
pub struct KeySet<K: KeyEq> {
    items: Vec<K>,
}

impl<K: KeyEq> View for KeySet<K> {
    type V = Seq<K::V>;

    closed spec fn view(&self) -> Seq<K::V> {
        views_of(self.items@)
    }
}

impl<K: KeyEq> KeySet<K> {
    #[verifier::type_invariant]
    spec fn items_distinct(&self) -> bool {
        distinct_views(self.items@)
    }

    pub fn new() -> (s: Self)
        ensures
            s@ == Seq::<K::V>::empty(),
    {
        let s = KeySet { items: Vec::new() };
        assert(s@ =~= Seq::<K::V>::empty());
        s
    }

    pub fn len(&self) -> (n: usize)
        ensures
            n == self@.len(),
            no_duplicates(self@),
    {
        proof {
            use_type_invariant(self);
            lemma_views_distinct(self.items@);
        }
        self.items.len()
    }

    /// A copy of the set.
    pub fn copy(&self) -> (c: Self)
        ensures
            c@ == self@,
    {
        proof {
            use_type_invariant(self);
        }
        let mut items: Vec<K> = Vec::new();
        let n = self.items.len();
        let mut i: usize = 0;
        while i < n
            invariant
                n == self.items@.len(),
                i <= n,
                distinct_views(self.items@),
                views_of(items@) == views_of(self.items@).take(i as int),
            decreases n - i,
        {
            let ghost old_items = items@;
            let item = self.items[i].key_clone();
            items.push(item);
            assert(views_of(items@) =~= views_of(old_items).push(item@));
            assert(views_of(self.items@).take(i + 1) =~= views_of(self.items@).take(i as int).push(
                self.items@[i as int]@,
            ));
            i += 1;
        }
        assert(views_of(self.items@).take(n as int) =~= views_of(self.items@));
        proof {
            assert forall|a: int, b: int|
                0 <= a < items@.len() && 0 <= b < items@.len() && a != b
                implies items@[a]@ != items@[b]@ by {
                assert(views_of(items@)[a] == items@[a]@);
                assert(views_of(items@)[b] == items@[b]@);
            }
        }
        KeySet { items }
    }

    /// The items, in storage order.
    pub fn to_vec(&self) -> (r: Vec<K>)
        ensures
            views_of(r@) == self@,
    {
        let mut r: Vec<K> = Vec::new();
        let n = self.items.len();
        let mut i: usize = 0;
        while i < n
            invariant
                n == self.items@.len(),
                i <= n,
                views_of(r@) == self@.take(i as int),
            decreases n - i,
        {
            let ghost r_old = r@;
            let item = self.items[i].key_clone();
            r.push(item);
            assert(views_of(r@) =~= views_of(r_old).push(item@));
            assert(self@.take(i + 1) =~= self@.take(i as int).push(self@[i as int]));
            i += 1;
        }
        assert(self@.take(n as int) =~= self@);
        r
    }

    /// The item at position `i`.
    pub fn get(&self, i: usize) -> (k: &K)
        requires
            i < self@.len(),
        ensures
            k@ == self@[i as int],
    {
        &self.items[i]
    }

    /// The position of `k`, if it is in the set.
    pub fn index_of(&self, k: &K) -> (r: Option<usize>)
        ensures
            match r {
                Some(i) => i < self@.len() && self@[i as int] == k@,
                None => !self@.contains(k@),
            },
    {
        let mut i: usize = 0;
        while i < self.items.len()
            invariant
                i <= self.items@.len(),
                forall|j: int| 0 <= j < i ==> self.items@[j]@ != k@,
            decreases self.items@.len() - i,
        {
            if self.items[i].key_eq(k) {
                return Some(i);
            }
            i += 1;
        }
        assert forall|j: int| 0 <= j < self@.len() implies self@[j] != k@ by {
            assert(self@[j] == self.items@[j]@);
        }
        None
    }

    pub fn contains(&self, k: &K) -> (b: bool)
        ensures
            b == self@.contains(k@),
            no_duplicates(self@),
    {
        proof {
            use_type_invariant(self);
            lemma_views_distinct(self.items@);
        }
        self.index_of(k).is_some()
    }

    /// Adds `k` at the end unless it is there; says whether it was added.
    pub fn insert(&mut self, k: K) -> (added: bool)
        ensures
            added == !old(self)@.contains(k@),
            final(self)@ == if added { old(self)@.push(k@) } else { old(self)@ },
            no_duplicates(final(self)@),
    {
        proof {
            use_type_invariant(&*self);
        }
        if self.contains(&k) {
            return false;
        }
        proof {
            use_type_invariant(&*self);
        }
        let ghost kv = k@;
        let mut items: Vec<K> = Vec::new();
        std::mem::swap(&mut items, &mut self.items);
        let ghost old_items = items@;
        items.push(k);
        proof {
            assert(items@ == old_items.push(k));
            assert forall|i: int, j: int|
                0 <= i < items@.len() && 0 <= j < items@.len() && i != j
                implies items@[i]@ != items@[j]@ by {
                if i == old_items.len() {
                    assert(old(self)@[j] == old_items[j]@);
                } else if j == old_items.len() {
                    assert(old(self)@[i] == old_items[i]@);
                }
            }
        }
        self.items = items;
        assert(self@ =~= old(self)@.push(kv));
        proof {
            lemma_views_distinct(self.items@);
        }
        true
    }

    /// Removes `k` if it is there, moving the last item into its slot; says
    /// whether it was there.
    pub fn swap_remove(&mut self, k: &K) -> (removed: bool)
        ensures
            removed == old(self)@.contains(k@),
            removed ==> final(self)@ == swap_removed(old(self)@, old(self)@.index_of(k@)),
            !removed ==> final(self)@ == old(self)@,
            !final(self)@.contains(k@),
            no_duplicates(final(self)@),
            forall|x: K::V| x != k@ ==> (final(self)@.contains(x) == old(self)@.contains(x)),
    {
        proof {
            use_type_invariant(&*self);
        }
        match self.index_of(k) {
            None => {
                proof {
                    lemma_views_distinct(self.items@);
                }
                false
            },
            Some(i) => {
                let ghost old_view = self@;
                proof {
                    assert forall|j: int| 0 <= j < old_view.len() && old_view[j] == k@ implies j
                        == i by {}
                    assert(old_view.index_of(k@) == i as int) by {
                        assert(old_view.contains(k@));
                        let f = old_view.index_of(k@);
                        assert(old_view[f] == k@);
                    }
                }
                let mut items: Vec<K> = Vec::new();
                std::mem::swap(&mut items, &mut self.items);
                let ghost old_items = items@;
                let last = items.len() - 1;
                let _ = items.swap_remove(i);
                proof {
                    assert(views_of(items@) =~= swap_removed(old_view, i as int));
                    assert forall|a: int, b: int|
                        0 <= a < items@.len() && 0 <= b < items@.len() && a != b
                        implies items@[a]@ != items@[b]@ by {
                        let ia = if a == i && i < last { last as int } else { a };
                        let ib = if b == i && i < last { last as int } else { b };
                        assert(items@[a] == old_items[ia]);
                        assert(items@[b] == old_items[ib]);
                    }
                }
                self.items = items;
                proof {
                    lemma_views_distinct(self.items@);
                    let nv = self@;
                    assert(nv == swap_removed(old_view, i as int));
                    assert forall|x: K::V| nv.contains(x) == (old_view.contains(x) && x != k@) by {
                        if nv.contains(x) {
                            let a = nv.index_of(x);
                            let ia = if a == i && i < last { last as int } else { a };
                            assert(nv[a] == old_view[ia]);
                            assert(ia != i);
                        }
                        if old_view.contains(x) && x != k@ {
                            let a = old_view.index_of(x);
                            assert(a != i);
                            if a == last {
                                assert(nv[i as int] == x);
                            } else {
                                assert(nv[a] == x);
                            }
                        }
                    }
                }
                true
            },
        }
    }
}

/// An association map from keys to values, compared by the keys' views.
pub struct KeyMap<K: KeyEq, V: View> {
    entries: Vec<(K, V)>,
}

/// Whether the keys of a sequence of entries have pairwise distinct views.
pub open spec fn distinct_keys<K: View, V>(s: Seq<(K, V)>) -> bool {
    forall|i: int, j: int| 0 <= i < s.len() && 0 <= j < s.len() && i != j ==> s[i].0@ != s[j].0@
}

/// The map that a sequence of entries holds, keys and values by their views.
pub open spec fn map_of<K: View, V: View>(s: Seq<(K, V)>) -> Map<K::V, V::V> {
    Map::new(
        |kv: K::V| exists|i: int| 0 <= i < s.len() && s[i].0@ == kv,
        |kv: K::V| s[choose|i: int| 0 <= i < s.len() && s[i].0@ == kv].1@,
    )
}

proof fn lemma_map_of_at<K: View, V: View>(s: Seq<(K, V)>, i: int)
    requires
        distinct_keys(s),
        0 <= i < s.len(),
    ensures
        map_of(s).contains_key(s[i].0@),
        map_of(s)[s[i].0@] == s[i].1@,
{
    let kv = s[i].0@;
    assert(map_of(s).dom().contains(kv));
    let c = choose|j: int| 0 <= j < s.len() && s[j].0@ == kv;
    assert(c == i);
}

impl<K: KeyEq, V: View> View for KeyMap<K, V> {
    type V = Map<K::V, V::V>;

    closed spec fn view(&self) -> Map<K::V, V::V> {
        map_of(self.entries@)
    }
}

impl<K: KeyEq, V: View> KeyMap<K, V> {
    #[verifier::type_invariant]
    spec fn well_formed(&self) -> bool {
        distinct_keys(self.entries@)
    }

    pub fn new() -> (m: Self)
        ensures
            m@ == Map::<K::V, V::V>::empty(),
    {
        let m = KeyMap { entries: Vec::new() };
        assert(m@ =~= Map::<K::V, V::V>::empty());
        m
    }

    fn position(&self, k: &K) -> (r: Option<usize>)
        ensures
            match r {
                Some(i) => i < self.entries@.len() && self.entries@[i as int].0@ == k@,
                None => !self@.contains_key(k@),
            },
    {
        let mut i: usize = 0;
        while i < self.entries.len()
            invariant
                i <= self.entries@.len(),
                forall|j: int| 0 <= j < i ==> self.entries@[j].0@ != k@,
            decreases self.entries@.len() - i,
        {
            if self.entries[i].0.key_eq(k) {
                return Some(i);
            }
            i += 1;
        }
        None
    }

    /// The value at `k`, if any.
    pub fn get(&self, k: &K) -> (r: Option<&V>)
        ensures
            match r {
                Some(v) => self@.contains_key(k@) && v@ == self@[k@],
                None => !self@.contains_key(k@),
            },
    {
        proof {
            use_type_invariant(self);
        }
        match self.position(k) {
            Some(i) => {
                proof {
                    lemma_map_of_at(self.entries@, i as int);
                }
                Some(&self.entries[i].1)
            },
            None => None,
        }
    }

    pub fn contains_key(&self, k: &K) -> (b: bool)
        ensures
            b == self@.contains_key(k@),
    {
        self.get(k).is_some()
    }

    /// Sets the value at `k`.
    pub fn insert(&mut self, k: K, v: V)
        ensures
            final(self)@ == old(self)@.insert(k@, v@),
    {
        proof {
            use_type_invariant(&*self);
        }
        let ghost kv = k@;
        let ghost vv = v@;
        let ghost old_map = self@;
        let pos = self.position(&k);
        let mut entries: Vec<(K, V)> = Vec::new();
        std::mem::swap(&mut entries, &mut self.entries);
        let ghost oe = entries@;
        match pos {
            Some(i) => {
                entries.set(i, (k, v));
            },
            None => {
                entries.push((k, v));
            },
        }
        proof {
            assert forall|a: int, b: int|
                0 <= a < entries@.len() && 0 <= b < entries@.len() && a != b
                implies entries@[a].0@ != entries@[b].0@ by {
                if a == oe.len() {
                    assert(oe[b].0@ != kv);
                } else if b == oe.len() {
                    assert(oe[a].0@ != kv);
                }
            }
        }
        self.entries = entries;
        proof {
            let ne = self.entries@;
            let nm = self@;
            assert forall|x: K::V| #[trigger] nm.contains_key(x) == old_map.insert(kv, vv).contains_key(x) by {
                if nm.contains_key(x) {
                    let a = choose|a: int| 0 <= a < ne.len() && ne[a].0@ == x;
                    if a < oe.len() && x != kv {
                        assert(oe[a].0@ == x);
                    }
                }
                if old_map.contains_key(x) {
                    let a = choose|a: int| 0 <= a < oe.len() && oe[a].0@ == x;
                    assert(ne[a].0@ == x);
                }
                if x == kv {
                    match pos {
                        Some(i) => { assert(ne[i as int].0@ == x); },
                        None => { assert(ne[oe.len() as int].0@ == x); },
                    }
                }
            }
            assert forall|x: K::V| #[trigger] nm.contains_key(x) implies nm[x] == old_map.insert(kv, vv)[x] by {
                let a = choose|a: int| 0 <= a < ne.len() && ne[a].0@ == x;
                lemma_map_of_at(ne, a);
                if x != kv {
                    assert(a < oe.len());
                    assert(oe[a].0@ == x);
                    lemma_map_of_at(oe, a);
                }
            }
            assert(nm =~= old_map.insert(kv, vv));
        }
    }

    /// Removes the value at `k` and hands it back, if there is one.
    pub fn take(&mut self, k: &K) -> (r: Option<V>)
        ensures
            match r {
                Some(v) => old(self)@.contains_key(k@) && v@ == old(self)@[k@],
                None => !old(self)@.contains_key(k@),
            },
            final(self)@ == old(self)@.remove(k@),
    {
        proof {
            use_type_invariant(&*self);
        }
        let ghost kv = k@;
        let ghost old_map = self@;
        match self.position(k) {
            None => {
                assert(old_map.remove(kv) =~= old_map);
                None
            },
            Some(i) => {
                proof {
                    lemma_map_of_at(self.entries@, i as int);
                }
                let mut entries: Vec<(K, V)> = Vec::new();
                std::mem::swap(&mut entries, &mut self.entries);
                let ghost oe = entries@;
                let (_key, value) = entries.remove(i);
                proof {
                    assert forall|a: int, b: int|
                        0 <= a < entries@.len() && 0 <= b < entries@.len() && a != b
                        implies entries@[a].0@ != entries@[b].0@ by {
                        let ia = if a < i { a } else { a + 1 };
                        let ib = if b < i { b } else { b + 1 };
                        assert(entries@[a] == oe[ia]);
                        assert(entries@[b] == oe[ib]);
                    }
                }
                self.entries = entries;
                proof {
                    let ne = self.entries@;
                    let nm = self@;
                    assert forall|x: K::V| #[trigger] nm.contains_key(x) == old_map.remove(kv).contains_key(x) by {
                        if nm.contains_key(x) {
                            let a = choose|a: int| 0 <= a < ne.len() && ne[a].0@ == x;
                            let ia = if a < i { a } else { a + 1 };
                            assert(ne[a] == oe[ia]);
                            assert(ia != i);
                        }
                        if old_map.contains_key(x) && x != kv {
                            let a = choose|a: int| 0 <= a < oe.len() && oe[a].0@ == x;
                            assert(a != i);
                            if a < i {
                                assert(ne[a].0@ == x);
                            } else {
                                assert(ne[a - 1].0@ == x);
                            }
                        }
                    }
                    assert forall|x: K::V| #[trigger] nm.contains_key(x) implies nm[x] == old_map.remove(kv)[x] by {
                        let a = choose|a: int| 0 <= a < ne.len() && ne[a].0@ == x;
                        lemma_map_of_at(ne, a);
                        let ia = if a < i { a } else { a + 1 };
                        assert(ne[a] == oe[ia]);
                        lemma_map_of_at(oe, ia);
                    }
                    assert(nm =~= old_map.remove(kv));
                }
                Some(value)
            },
        }
    }

    /// Removes the value at `k`, if any.
    pub fn remove(&mut self, k: &K)
        ensures
            final(self)@ == old(self)@.remove(k@),
    {
        proof {
            use_type_invariant(&*self);
        }
        let ghost kv = k@;
        let ghost old_map = self@;
        match self.position(k) {
            None => {
                assert(old_map.remove(kv) =~= old_map);
            },
            Some(i) => {
                let mut entries: Vec<(K, V)> = Vec::new();
                std::mem::swap(&mut entries, &mut self.entries);
                let ghost oe = entries@;
                let _ = entries.remove(i);
                proof {
                    assert forall|a: int, b: int|
                        0 <= a < entries@.len() && 0 <= b < entries@.len() && a != b
                        implies entries@[a].0@ != entries@[b].0@ by {
                        let ia = if a < i { a } else { a + 1 };
                        let ib = if b < i { b } else { b + 1 };
                        assert(entries@[a] == oe[ia]);
                        assert(entries@[b] == oe[ib]);
                    }
                }
                self.entries = entries;
                proof {
                    let ne = self.entries@;
                    let nm = self@;
                    assert forall|x: K::V| #[trigger] nm.contains_key(x) == old_map.remove(kv).contains_key(x) by {
                        if nm.contains_key(x) {
                            let a = choose|a: int| 0 <= a < ne.len() && ne[a].0@ == x;
                            let ia = if a < i { a } else { a + 1 };
                            assert(ne[a] == oe[ia]);
                            assert(ia != i);
                        }
                        if old_map.contains_key(x) && x != kv {
                            let a = choose|a: int| 0 <= a < oe.len() && oe[a].0@ == x;
                            assert(a != i);
                            if a < i {
                                assert(ne[a].0@ == x);
                            } else {
                                assert(ne[a - 1].0@ == x);
                            }
                        }
                    }
                    assert forall|x: K::V| #[trigger] nm.contains_key(x) implies nm[x] == old_map.remove(kv)[x] by {
                        let a = choose|a: int| 0 <= a < ne.len() && ne[a].0@ == x;
                        lemma_map_of_at(ne, a);
                        let ia = if a < i { a } else { a + 1 };
                        assert(ne[a] == oe[ia]);
                        lemma_map_of_at(oe, ia);
                    }
                    assert(nm =~= old_map.remove(kv));
                }
            },
        }
    }
}

/// The amount a map holds at `k`; an absent key holds zero.
pub open spec fn amount_at<K>(m: Map<K, u128>, k: K) -> u128 {
    if m.contains_key(k) {
        m[k]
    } else {
        0
    }
}

/// The map after storing amount `a` at `k`: storing zero empties the entry.
pub open spec fn with_amount<K>(m: Map<K, u128>, k: K, a: u128) -> Map<K, u128> {
    if a == 0 {
        m.remove(k)
    } else {
        m.insert(k, a)
    }
}

impl<K: KeyEq> KeyMap<K, u128> {
    /// The amount stored at `k` (zero where nothing is stored).
    pub fn amount(&self, k: &K) -> (a: u128)
        ensures
            a == amount_at(self@, k@),
    {
        match self.get(k) {
            Some(v) => *v,
            None => 0,
        }
    }

    /// Stores amount `a` at `k`; zero clears the entry.
    pub fn set_amount(&mut self, k: K, a: u128)
        ensures
            final(self)@ == with_amount(old(self)@, k@, a),
    {
        if a == 0 {
            self.remove(&k);
        } else {
            self.insert(k, a);
        }
    }
}

/// The number a map holds at `k`; an absent key holds zero.
pub open spec fn number_at<K>(m: Map<K, u64>, k: K) -> u64 {
    if m.contains_key(k) {
        m[k]
    } else {
        0
    }
}

/// The map after storing number `n` at `k`: storing zero empties the entry.
pub open spec fn with_number<K>(m: Map<K, u64>, k: K, n: u64) -> Map<K, u64> {
    if n == 0 {
        m.remove(k)
    } else {
        m.insert(k, n)
    }
}

impl<K: KeyEq> KeyMap<K, u64> {
    /// The number stored at `k` (zero where nothing is stored).
    pub fn number(&self, k: &K) -> (n: u64)
        ensures
            n == number_at(self@, k@),
    {
        match self.get(k) {
            Some(v) => *v,
            None => 0,
        }
    }

    /// Stores number `n` at `k`; zero clears the entry.
    pub fn set_number(&mut self, k: K, n: u64)
        ensures
            final(self)@ == with_number(old(self)@, k@, n),
    {
        if n == 0 {
            self.remove(&k);
        } else {
            self.insert(k, n);
        }
    }
}

/// A set kept in storage order after inserting `x`.
pub open spec fn seq_set_insert<T>(s: Seq<T>, x: T) -> Seq<T> {
    if s.contains(x) {
        s
    } else {
        s.push(x)
    }
}

/// A set kept in storage order after swap-removing `x`.
pub open spec fn seq_set_remove<T>(s: Seq<T>, x: T) -> Seq<T> {
    if s.contains(x) {
        swap_removed(s, s.index_of(x))
    } else {
        s
    }
}

/// Inserting into a set kept in storage order: the item is then in it, no
/// other item comes or goes, and nothing occurs twice.
pub proof fn lemma_seq_set_insert<T>(s: Seq<T>, x: T)
    requires
        no_duplicates(s),
    ensures
        seq_set_insert(s, x).contains(x),
        no_duplicates(seq_set_insert(s, x)),
        forall|y: T| y != x ==> (#[trigger] seq_set_insert(s, x).contains(y) == s.contains(y)),
{
    let r = seq_set_insert(s, x);
    if !s.contains(x) {
        assert(r[s.len() as int] == x);
        assert forall|y: T| y != x implies (#[trigger] r.contains(y) == s.contains(y)) by {
            if r.contains(y) {
                let i = choose|i: int| 0 <= i < r.len() && r[i] == y;
                assert(s[i] == y);
            }
            if s.contains(y) {
                let i = choose|i: int| 0 <= i < s.len() && s[i] == y;
                assert(r[i] == y);
            }
        }
    }
}

/// Removing from a set kept in storage order: the item is then not in it,
/// no other item comes or goes, and nothing occurs twice.
pub proof fn lemma_seq_set_remove<T>(s: Seq<T>, x: T)
    requires
        no_duplicates(s),
    ensures
        !seq_set_remove(s, x).contains(x),
        no_duplicates(seq_set_remove(s, x)),
        forall|y: T| y != x ==> (#[trigger] seq_set_remove(s, x).contains(y) == s.contains(y)),
{
    if s.contains(x) {
        let i = s.index_of(x);
        let last = s.len() - 1;
        let r = seq_set_remove(s, x);
        assert(r == swap_removed(s, i));
        assert(r.len() == last);
        assert forall|a: int| 0 <= a < r.len() implies #[trigger] r[a] == s[if a == i { last } else {
            a
        }] by {}
        assert forall|a: int, b: int| 0 <= a < r.len() && 0 <= b < r.len() && a != b implies r[a]
            != r[b] by {
            let ia = if a == i { last } else { a };
            let ib = if b == i { last } else { b };
            assert(r[a] == s[ia]);
            assert(r[b] == s[ib]);
        }
        assert forall|y: T| r.contains(y) == (s.contains(y) && y != x) by {
            if r.contains(y) {
                let a = choose|a: int| 0 <= a < r.len() && r[a] == y;
                let ia = if a == i { last } else { a };
                assert(r[a] == s[ia]);
                assert(ia != i);
            }
            if s.contains(y) && y != x {
                let a = choose|a: int| 0 <= a < s.len() && s[a] == y;
                assert(a != i);
                if a == last {
                    assert(r[i] == y);
                } else {
                    assert(r[a] == y);
                }
            }
        }
    }
}

/// The set a map of sets holds at `k`; an absent key holds the empty set.
pub open spec fn items_at<K, T>(m: Map<K, Seq<T>>, k: K) -> Seq<T> {
    if m.contains_key(k) {
        m[k]
    } else {
        seq![]
    }
}

/// A map of sets after its set at `k` became `s`: an empty set leaves no entry.
pub open spec fn with_items<K, T>(m: Map<K, Seq<T>>, k: K, s: Seq<T>) -> Map<K, Seq<T>> {
    if s.len() == 0 {
        m.remove(k)
    } else {
        m.insert(k, s)
    }
}

/// One insertion-ordered set per key, as a storage mapper of sets keyed by
/// its arguments holds them; a key whose set is empty holds nothing.
pub struct KeySetMap<K: KeyEq, T: KeyEq> {
    sets: KeyMap<K, KeySet<T>>,
}

impl<K: KeyEq, T: KeyEq> View for KeySetMap<K, T> {
    type V = Map<K::V, Seq<T::V>>;

    closed spec fn view(&self) -> Map<K::V, Seq<T::V>> {
        self.sets@
    }
}

impl<K: KeyEq, T: KeyEq> KeySetMap<K, T> {
    #[verifier::type_invariant]
    spec fn no_empty_sets(&self) -> bool {
        forall|k: K::V| #[trigger] self.sets@.contains_key(k) ==> self.sets@[k].len() > 0
    }

    pub fn new() -> (m: Self)
        ensures
            m@ == Map::<K::V, Seq<T::V>>::empty(),
    {
        KeySetMap { sets: KeyMap::new() }
    }

    /// Whether the set at `k` holds `t`.
    pub fn contains(&self, k: &K, t: &T) -> (b: bool)
        ensures
            b == items_at(self@, k@).contains(t@),
    {
        match self.sets.get(k) {
            Some(set) => set.contains(t),
            None => false,
        }
    }

    /// The items of the set at `k`, in storage order.
    pub fn items(&self, k: &K) -> (r: Vec<T>)
        ensures
            views_of(r@) == items_at(self@, k@),
    {
        let mut r: Vec<T> = Vec::new();
        match self.sets.get(k) {
            Some(set) => {
                let n = set.len();
                let mut i: usize = 0;
                while i < n
                    invariant
                        n == set@.len(),
                        i <= n,
                        views_of(r@) == set@.take(i as int),
                    decreases n - i,
                {
                    let ghost r_old = r@;
                    let item = set.get(i).key_clone();
                    r.push(item);
                    assert(views_of(r@) =~= views_of(r_old).push(item@));
                    assert(set@.take(i + 1) =~= set@.take(i as int).push(set@[i as int]));
                    i += 1;
                }
                assert(set@.take(n as int) =~= set@);
            },
            None => {
                assert(views_of(r@) =~= Seq::<T::V>::empty());
            },
        }
        r
    }

    /// A copy of the set at `k`.
    pub fn set_copy(&self, k: &K) -> (c: KeySet<T>)
        ensures
            c@ == items_at(self@, k@),
    {
        match self.sets.get(k) {
            Some(set) => set.copy(),
            None => KeySet::new(),
        }
    }

    /// Makes `set` the set at `k`.
    pub fn put(&mut self, k: K, set: KeySet<T>)
        ensures
            final(self)@ == with_items(old(self)@, k@, set@),
    {
        proof {
            use_type_invariant(&*self);
        }
        let mut sets: KeyMap<K, KeySet<T>> = KeyMap::new();
        std::mem::swap(&mut sets, &mut self.sets);
        if set.len() > 0 {
            sets.insert(k, set);
        } else {
            sets.remove(&k);
        }
        proof {
            assert(forall|x: K::V| #[trigger] sets@.contains_key(x) ==> sets@[x].len() > 0);
        }
        self.sets = sets;
    }

    /// Adds `t` to the set at `k` unless it is there; says whether it was added.
    pub fn insert(&mut self, k: K, t: T) -> (added: bool)
        ensures
            added == !items_at(old(self)@, k@).contains(t@),
            final(self)@ == with_items(old(self)@, k@, seq_set_insert(items_at(old(self)@, k@), t@)),
    {
        proof {
            use_type_invariant(&*self);
        }
        let ghost old_map = self@;
        let mut sets: KeyMap<K, KeySet<T>> = KeyMap::new();
        std::mem::swap(&mut sets, &mut self.sets);
        let mut set = match sets.take(&k) {
            Some(s) => s,
            None => KeySet::new(),
        };
        let added = set.insert(t);
        let ghost kv = k@;
        sets.insert(k, set);
        proof {
            assert(forall|x: K::V| #[trigger] sets@.contains_key(x) ==> sets@[x].len() > 0);
        }
        self.sets = sets;
        added
    }

    /// Removes `t` from the set at `k`, moving that set's last item into its
    /// slot; says whether it was there.
    pub fn swap_remove(&mut self, k: &K, t: &T) -> (removed: bool)
        ensures
            removed == items_at(old(self)@, k@).contains(t@),
            final(self)@ == with_items(old(self)@, k@, seq_set_remove(items_at(old(self)@, k@), t@)),
    {
        proof {
            use_type_invariant(&*self);
        }
        let ghost old_map = self@;
        let mut sets: KeyMap<K, KeySet<T>> = KeyMap::new();
        std::mem::swap(&mut sets, &mut self.sets);
        match sets.take(k) {
            Some(s) => {
                let mut set = s;
                let removed = set.swap_remove(t);
                if set.len() > 0 {
                    sets.insert(k.key_clone(), set);
                }
                proof {
                    assert(forall|x: K::V| #[trigger] sets@.contains_key(x) ==> sets@[x].len() > 0);
                }
                self.sets = sets;
                removed
            },
            None => {
                proof {
                    assert(sets@ =~= old_map);
                    assert(forall|x: K::V| #[trigger] sets@.contains_key(x) ==> sets@[x].len() > 0);
                }
                self.sets = sets;
                assert(with_items(old_map, k@, seq![]) =~= old_map);
                false
            },
        }
    }
}

} // verus!
