//! A map from object handles to values that keeps its entries in insertion order.
use vstd::prelude::*;

verus! {

/// The map that a list of (handle, value) pairs stands for: a later pair for the same
/// handle overrides an earlier one.
pub open spec fn pairs_to_map<V>(s: Seq<(u32, V)>) -> Map<u32, V>
    decreases s.len(),
{
    if s.len() == 0 {
        Map::empty()
    } else {
        pairs_to_map(s.drop_last()).insert(s.last().0, s.last().1)
    }
}

/// No handle occurs twice.
pub open spec fn unique_keys<V>(s: Seq<(u32, V)>) -> bool {
    forall|i: int, j: int| 0 <= i < s.len() && 0 <= j < s.len() && i != j ==> s[i].0 != s[j].0
}

pub proof fn lemma_pairs_to_map_index<V>(s: Seq<(u32, V)>)
    requires
        unique_keys(s),
    ensures
        forall|i: int| 0 <= i < s.len() ==> #[trigger] pairs_to_map(s).contains_key(s[i].0)
            && pairs_to_map(s)[s[i].0] == s[i].1,
        forall|k: u32| #[trigger] pairs_to_map(s).contains_key(k) ==> exists|i: int|
            0 <= i < s.len() && s[i].0 == k,
    decreases s.len(),
{
    if s.len() > 0 {
        let p = s.drop_last();
        assert(unique_keys(p));
        lemma_pairs_to_map_index(p);
        assert forall|i: int| 0 <= i < s.len() implies #[trigger] pairs_to_map(s).contains_key(
            s[i].0,
        ) && pairs_to_map(s)[s[i].0] == s[i].1 by {
            if i < s.len() - 1 {
                assert(p[i] == s[i]);
                assert(pairs_to_map(p).contains_key(p[i].0));
                assert(s[i].0 != s[s.len() - 1].0);
            }
        }
        assert forall|k: u32| #[trigger] pairs_to_map(s).contains_key(k) implies exists|i: int|
            0 <= i < s.len() && s[i].0 == k by {
            if k != s.last().0 {
                assert(pairs_to_map(p).contains_key(k));
                let i = choose|i: int| 0 <= i < p.len() && p[i].0 == k;
                assert(s[i] == p[i]);
            } else {
                assert(s[s.len() - 1].0 == k);
            }
        }
    }
}

proof fn lemma_pairs_to_map_update<V>(s: Seq<(u32, V)>, i: int, v: V)
    requires
        unique_keys(s),
        0 <= i < s.len(),
    ensures
        pairs_to_map(s.update(i, (s[i].0, v))) == pairs_to_map(s).insert(s[i].0, v),
    decreases s.len(),
{
    let t = s.update(i, (s[i].0, v));
    if i == s.len() - 1 {
        assert(t.drop_last() =~= s.drop_last());
    } else {
        let p = s.drop_last();
        assert(unique_keys(p));
        lemma_pairs_to_map_update(p, i, v);
        assert(t.drop_last() =~= p.update(i, (p[i].0, v)));
        assert(s.last().0 != s[i].0);
        assert(pairs_to_map(t) =~= pairs_to_map(s).insert(s[i].0, v));
    }
}

/// Values keyed by non-zero object handles.
#[derive(Clone, Debug)]
pub struct HandleMap<V> {
    items: Vec<(u32, V)>,
}

impl<V> View for HandleMap<V> {
    type V = Map<u32, V>;

    closed spec fn view(&self) -> Map<u32, V> {
        pairs_to_map(self.items@)
    }
}

impl<V> HandleMap<V> {
    /// The handles are unique.
    pub closed spec fn wf(&self) -> bool {
        unique_keys(self.items@)
    }

    pub fn new() -> (r: Self)
        ensures
            r.wf(),
            r@ == Map::<u32, V>::empty(),
    {
        HandleMap { items: Vec::new() }
    }

    pub fn len(&self) -> (r: usize)
        requires
            self.wf(),
        ensures
            r == self@.len(),
    {
        proof {
            self.lemma_len();
        }
        self.items.len()
    }

    proof fn lemma_len(&self)
        requires
            self.wf(),
        ensures
            self@.dom().finite(),
            self@.len() == self.items@.len(),
        decreases self.items@.len(),
    {
        lemma_len_of(self.items@);
    }

    fn index_of(&self, key: u32) -> (r: Option<usize>)
        requires
            self.wf(),
        ensures
            match r {
                Some(i) => i < self.items@.len() && self.items@[i as int].0 == key,
                None => !self@.contains_key(key),
            },
    {
        proof {
            lemma_pairs_to_map_index(self.items@);
        }
        let mut i: usize = 0;
        while i < self.items.len()
            invariant
                i <= self.items@.len(),
                forall|j: int| 0 <= j < i ==> self.items@[j].0 != key,
            decreases self.items.len() - i,
        {
            if self.items[i].0 == key {
                return Some(i);
            }
            i += 1;
        }
        None
    }

    pub fn get(&self, key: u32) -> (r: Option<&V>)
        requires
            self.wf(),
        ensures
            match r {
                Some(v) => self@.contains_key(key) && self@[key] == *v,
                None => !self@.contains_key(key),
            },
    {
        proof {
            lemma_pairs_to_map_index(self.items@);
        }
        match self.index_of(key) {
            Some(i) => {
                assert(pairs_to_map(self.items@).contains_key(self.items@[i as int].0));
                Some(&self.items[i].1)
            },
            None => None,
        }
    }

    pub fn contains(&self, key: u32) -> (r: bool)
        requires
            self.wf(),
        ensures
            r == self@.contains_key(key),
    {
        proof {
            lemma_pairs_to_map_index(self.items@);
        }
        self.index_of(key).is_some()
    }

    /// Sets the value under `key`, replacing any previous one.
    pub fn insert(&mut self, key: u32, value: V)
        requires
            old(self).wf(),
        ensures
            final(self).wf(),
            final(self)@ == old(self)@.insert(key, value),
    {
        proof {
            lemma_pairs_to_map_index(self.items@);
        }
        match self.index_of(key) {
            Some(i) => {
                proof {
                    lemma_pairs_to_map_update(self.items@, i as int, value);
                }
                self.items.set(i, (key, value));
                assert(self.items@ =~= old(self).items@.update(i as int, (key, value)));
            },
            None => {
                self.push_new(key, value);
            },
        }
    }

    fn push_new(&mut self, key: u32, value: V)
        requires
            old(self).wf(),
            !old(self)@.contains_key(key),
        ensures
            final(self).wf(),
            final(self).items@ == old(self).items@.push((key, value)),
            final(self)@ == old(self)@.insert(key, value),
    {
        proof {
            lemma_pairs_to_map_index(self.items@);
        }
        self.items.push((key, value));
        assert(self.items@.drop_last() =~= old(self).items@);
        assert forall|a: int, b: int|
            0 <= a < self.items@.len() && 0 <= b < self.items@.len() && a != b implies
            self.items@[a].0 != self.items@[b].0 by {
            if a < old(self).items@.len() && b == old(self).items@.len() {
                assert(old(self)@.contains_key(old(self).items@[a].0));
            }
            if b < old(self).items@.len() && a == old(self).items@.len() {
                assert(old(self)@.contains_key(old(self).items@[b].0));
            }
        }
    }

    /// The value under `key`, inserting `default` first when there is none.
    pub fn entry_or(&mut self, key: u32, default: V) -> (r: &mut V)
        requires
            old(self).wf(),
        ensures
            *r == if old(self)@.contains_key(key) {
                old(self)@[key]
            } else {
                default
            },
            final(self).wf(),
            final(self)@ == old(self)@.insert(key, *final(r)),
    {
        proof {
            lemma_pairs_to_map_index(self.items@);
        }
        let i = match self.index_of(key) {
            Some(i) => i,
            None => {
                self.push_new(key, default);
                self.items.len() - 1
            },
        };
        proof {
            lemma_pairs_to_map_index(self.items@);
        }
        let ghost mid = self.items@;
        let pair = vec_index_mut(&mut self.items, i);
        proof {
            lemma_pairs_to_map_update(mid, i as int, final(pair).1);
        }
        &mut pair.1
    }

    /// The (handle, value) pairs, in insertion order.
    pub fn pairs(&self) -> (r: &Vec<(u32, V)>)
        requires
            self.wf(),
        ensures
            unique_keys(r@),
            pairs_to_map(r@) == self@,
    {
        &self.items
    }
}

proof fn lemma_len_of<V>(s: Seq<(u32, V)>)
    requires
        unique_keys(s),
    ensures
        pairs_to_map(s).dom().finite(),
        pairs_to_map(s).len() == s.len(),
    decreases s.len(),
{
    if s.len() > 0 {
        let p = s.drop_last();
        assert(unique_keys(p));
        lemma_len_of(p);
        lemma_pairs_to_map_index(p);
        if pairs_to_map(p).contains_key(s.last().0) {
            let i = choose|i: int| 0 <= i < p.len() && p[i].0 == s.last().0;
            assert(s[i] == p[i]);
        }
    }
}

fn vec_index_mut<T>(v: &mut Vec<T>, i: usize) -> (r: &mut T)
    requires
        i < old(v)@.len(),
    ensures
        *r == old(v)@[i as int],
        final(v)@ == old(v)@.update(i as int, *final(r)),
{
    &mut v[i]
}

} // verus!
