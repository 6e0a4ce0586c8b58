//! A store whose values are taken out at most once: what is handed out is gone.

use crate::text::same;
use vstd::prelude::*;

verus! {

/// The values of a list of pairs by their keys; of two under one key, the last.
pub open spec fn held<V>(pairs: Seq<(String, V)>) -> Map<Seq<char>, V>
    decreases pairs.len(),
{
    if pairs.len() == 0 {
        Map::empty()
    } else {
        held(pairs.drop_last()).insert(pairs.last().0@, pairs.last().1)
    }
}

/// The value under a key, where there is one.
pub open spec fn lookup<V>(m: Map<Seq<char>, V>, key: Seq<char>) -> Option<V> {
    if m.contains_key(key) {
        Some(m[key])
    } else {
        None
    }
}

/// The store with a value more; a key that is taken keeps its value.
pub open spec fn with_value<V>(m: Map<Seq<char>, V>, key: Seq<char>, value: V) -> Map<
    Seq<char>,
    V,
> {
    if m.contains_key(key) {
        m
    } else {
        m.insert(key, value)
    }
}

/// Values by their keys.
pub struct OneShot<V> {
    pairs: Vec<(String, V)>,
}

impl<V> View for OneShot<V> {
    type V = Map<Seq<char>, V>;

    closed spec fn view(&self) -> Map<Seq<char>, V> {
        held(self.pairs@)
    }
}

proof fn lemma_held_keys<V>(pairs: Seq<(String, V)>, key: Seq<char>)
    ensures
        held(pairs).contains_key(key) <==> exists|i: int|
            0 <= i < pairs.len() && (#[trigger] pairs[i]).0@ == key,
    decreases pairs.len(),
{
    if pairs.len() > 0 {
        let front = pairs.drop_last();
        lemma_held_keys(front, key);
        if held(front).contains_key(key) {
            let i = choose|i: int| 0 <= i < front.len() && (#[trigger] front[i]).0@ == key;
            assert(pairs[i].0@ == key);
        }
        if exists|i: int| 0 <= i < pairs.len() && (#[trigger] pairs[i]).0@ == key {
            let i = choose|i: int| 0 <= i < pairs.len() && (#[trigger] pairs[i]).0@ == key;
            if i < front.len() {
                assert(front[i].0@ == key);
            }
        }
        assert(pairs[pairs.len() - 1] == pairs.last());
    }
}

proof fn lemma_held_last<V>(pairs: Seq<(String, V)>, k: int)
    requires
        0 <= k < pairs.len(),
        forall|j: int| k < j < pairs.len() ==> (#[trigger] pairs[j]).0@ != pairs[k].0@,
    ensures
        lookup(held(pairs), pairs[k].0@) == Some(pairs[k].1),
    decreases pairs.len(),
{
    if k < pairs.len() - 1 {
        let front = pairs.drop_last();
        assert(front[k] == pairs[k]);
        assert forall|j: int| k < j < front.len() implies (#[trigger] front[j]).0@
            != front[k].0@ by {
            assert(front[j] == pairs[j]);
        }
        lemma_held_last(front, k);
        assert(pairs[pairs.len() - 1].0@ != pairs[k].0@);
    }
}

proof fn lemma_held_without<V>(pairs: Seq<(String, V)>, k: int)
    requires
        0 <= k < pairs.len(),
    ensures
        held(pairs.remove(k)).remove(pairs[k].0@) == held(pairs).remove(pairs[k].0@),
    decreases pairs.len(),
{
    let key = pairs[k].0@;
    let front = pairs.drop_last();
    if k == pairs.len() - 1 {
        assert(pairs.remove(k) =~= front);
        assert(held(front).remove(key) =~= held(pairs).remove(key));
    } else {
        assert(pairs.remove(k).drop_last() =~= front.remove(k));
        assert(pairs.remove(k).last() == pairs.last());
        assert(front[k] == pairs[k]);
        lemma_held_without(front, k);
        let last = pairs.last();
        let a = held(front.remove(k));
        let b = held(front);
        assert(a.remove(key) == b.remove(key));
        assert forall|x: Seq<char>| x != key implies (a.contains_key(x) <==> #[trigger] b.contains_key(
            x,
        )) by {
            assert(a.remove(key).contains_key(x) == b.remove(key).contains_key(x));
        }
        assert forall|x: Seq<char>| x != key && #[trigger] b.contains_key(x) implies a[x]
            == b[x] by {
            assert(a.remove(key)[x] == b.remove(key)[x]);
        }
        let c = a.insert(last.0@, last.1).remove(key);
        let d = b.insert(last.0@, last.1).remove(key);
        assert forall|x: Seq<char>| #[trigger] c.contains_key(x) == d.contains_key(x) by {
            if x != key && x != last.0@ {
                assert(a.contains_key(x) == b.contains_key(x));
            }
        }
        assert forall|x: Seq<char>| #[trigger] c.contains_key(x) implies c[x] == d[x] by {
            if x != last.0@ {
                assert(b.contains_key(x));
            }
        }
        assert(c =~= d);
    }
}

impl<V> OneShot<V> {
    /// An empty store.
    pub fn new() -> (r: Self)
        ensures
            r@ == Map::<Seq<char>, V>::empty(),
    {
        OneShot { pairs: Vec::new() }
    }

    fn has(&self, key: &str) -> (r: bool)
        ensures
            r == self@.contains_key(key@),
    {
        let mut i: usize = 0;
        while i < self.pairs.len()
            invariant
                i <= self.pairs@.len(),
                forall|j: int| 0 <= j < i ==> (#[trigger] self.pairs@[j]).0@ != key@,
            decreases self.pairs@.len() - i,
        {
            if same(self.pairs[i].0.as_str(), key) {
                proof {
                    lemma_held_keys(self.pairs@, key@);
                }
                return true;
            }
            i = i + 1;
        }
        proof {
            lemma_held_keys(self.pairs@, key@);
        }
        false
    }

    /// Reads the value of a key; it stays.
    pub fn get(&self, key: &str) -> (r: Option<&V>)
        ensures
            (match r {
                Some(v) => Some(*v),
                None => None,
            }) == lookup(self@, key@),
    {
        let mut i: usize = self.pairs.len();
        while i > 0
            invariant
                i <= self.pairs@.len(),
                forall|j: int| i <= j < self.pairs@.len() ==> (#[trigger] self.pairs@[j]).0@
                    != key@,
            decreases i,
        {
            i = i - 1;
            if same(self.pairs[i].0.as_str(), key) {
                proof {
                    lemma_held_last(self.pairs@, i as int);
                }
                return Some(&self.pairs[i].1);
            }
        }
        proof {
            lemma_held_keys(self.pairs@, key@);
        }
        None
    }

    /// Keeps a value under a key; says whether the key was free.
    pub fn put(&mut self, key: &str, value: V) -> (r: bool)
        ensures
            r == !old(self)@.contains_key(key@),
            final(self)@ == with_value(old(self)@, key@, value),
    {
        if self.has(key) {
            return false;
        }
        let ghost before = self.pairs@;
        self.pairs.push((key.to_owned(), value));
        proof {
            assert(self.pairs@.drop_last() =~= before);
        }
        true
    }

    /// Takes the value of a key out of the store.
    pub fn take(&mut self, key: &str) -> (r: Option<V>)
        ensures
            r == lookup(old(self)@, key@),
            final(self)@ == old(self)@.remove(key@),
    {
        let ghost before = self.pairs@;
        let mut found: Option<V> = None;
        let mut i: usize = self.pairs.len();
        while i > 0
            invariant
                i <= self.pairs@.len(),
                held(self.pairs@).remove(key@) == held(before).remove(key@),
                forall|j: int| i <= j < self.pairs@.len() ==> (#[trigger] self.pairs@[j]).0@
                    != key@,
                found is None ==> self.pairs@ == before,
                found is Some ==> lookup(held(before), key@) == found,
            decreases i,
        {
            i = i - 1;
            if same(self.pairs[i].0.as_str(), key) {
                let ghost now = self.pairs@;
                proof {
                    lemma_held_without(now, i as int);
                    if found is None {
                        lemma_held_last(now, i as int);
                    }
                }
                let (_, value) = self.pairs.remove(i);
                if found.is_none() {
                    found = Some(value);
                }
                proof {
                    assert forall|j: int| i <= j < self.pairs@.len() implies (
                    #[trigger] self.pairs@[j]).0@ != key@ by {
                        assert(self.pairs@[j] == now[j + 1]);
                    }
                }
            }
        }
        proof {
            lemma_held_keys(self.pairs@, key@);
            assert(held(self.pairs@).remove(key@) =~= held(self.pairs@));
        }
        found
    }
}

/// What is done to a store.
pub enum StoreOp<V> {
    Put(Seq<char>, V),
    Take(Seq<char>),
    /// Nothing is changed.
    Leave,
}

/// What a store holds after a run of operations, from an empty one.
pub open spec fn store_run<V>(ops: Seq<StoreOp<V>>) -> Map<Seq<char>, V>
    decreases ops.len(),
{
    if ops.len() == 0 {
        Map::empty()
    } else {
        let before = store_run(ops.drop_last());
        match ops.last() {
            StoreOp::Put(key, value) => with_value(before, key, value),
            StoreOp::Take(key) => before.remove(key),
            StoreOp::Leave => before,
        }
    }
}

/// In any run of operations, what was taken once is not there again, unless
/// it was put there anew.
pub proof fn law_taken_is_gone<V>(ops: Seq<StoreOp<V>>, i: int, j: int, key: Seq<char>)
    requires
        0 <= i < j <= ops.len(),
        ops[i] == StoreOp::<V>::Take(key),
        forall|k: int|
            i < k < j ==> !((#[trigger] ops[k]) matches StoreOp::Put(other, _) && other == key),
    ensures
        lookup(store_run(ops.take(j)), key) is None,
    decreases j - i,
{
    let now = ops.take(j);
    assert(now.drop_last() =~= ops.take(j - 1));
    assert(now.last() == ops[j - 1]);
    if j > i + 1 {
        law_taken_is_gone(ops, i, j - 1, key);
    }
}

} // verus!
