//! The session registry: the set of currently authenticated client
//! connections, keyed by connection identity, owned and mutated only by
//! the event multiplexer. The outbound write handles that go with the
//! identities live outside the library, indexed by the same identities.
use vstd::prelude::*;

verus! {

/// The registry of authenticated sessions. Its view is the sequence of
/// registered identities, in insertion order and free of duplicates.
pub struct Registry {
    ids: Vec<u64>,
}

impl View for Registry {
    type V = Seq<u64>;

    closed spec fn view(&self) -> Seq<u64> {
        self.ids@
    }
}

/// A sequence holds no identity twice.
pub open spec fn distinct(s: Seq<u64>) -> bool {
    forall|i: int, j: int| 0 <= i < j < s.len() ==> s[i] != s[j]
}

impl Registry {
    /// The registry never holds the same identity twice.
    pub open spec fn wf(&self) -> bool {
        distinct(self@)
    }

    /// An empty registry.
    pub fn new() -> (r: Registry)
        ensures
            r@ == Seq::<u64>::empty(),
            r.wf(),
    {
        Registry { ids: Vec::new() }
    }

    /// How many sessions are registered.
    pub fn len(&self) -> (n: usize)
        ensures
            n == self@.len(),
    {
        self.ids.len()
    }

    /// Whether `id` is registered.
    pub fn contains(&self, id: u64) -> (b: bool)
        ensures
            b == self@.contains(id),
    {
        let mut i: usize = 0;
        while i < self.ids.len()
            invariant
                0 <= i <= self.ids.len(),
                forall|k: int| 0 <= k < i ==> self.ids@[k] != id,
            decreases self.ids.len() - i,
        {
            if self.ids[i] == id {
                return true;
            }
            i = i + 1;
        }
        false
    }

    /// Register `id`. An identity already present stays registered once:
    /// the registry is unchanged.
    pub fn insert(&mut self, id: u64)
        requires
            old(self).wf(),
        ensures
            final(self).wf(),
            final(self)@.contains(id),
            old(self)@.contains(id) ==> final(self)@ == old(self)@,
            !old(self)@.contains(id) ==> final(self)@ == old(self)@.push(id),
    {
        if !self.contains(id) {
            self.ids.push(id);
            proof {
                assert(self@ == old(self)@.push(id));
                assert(self@[self@.len() - 1] == id);
                assert forall|i: int, j: int| 0 <= i < j < self@.len() implies self@[i]
                    != self@[j] by {
                    if j == self@.len() - 1 {
                        assert(self@[i] == old(self)@[i]);
                    } else {
                        assert(self@[i] == old(self)@[i]);
                        assert(self@[j] == old(self)@[j]);
                    }
                }
            }
        }
    }

    /// Remove `id` if it is registered; every other identity stays, in its
    /// old order.
    pub fn remove(&mut self, id: u64)
        requires
            old(self).wf(),
        ensures
            final(self).wf(),
            final(self)@ == old(self)@.remove_value(id),
            !final(self)@.contains(id),
            forall|x: u64| x != id ==> final(self)@.contains(x) == old(self)@.contains(x),
            old(self)@.contains(id) ==> final(self)@.len() == old(self)@.len() - 1,
            !old(self)@.contains(id) ==> final(self)@ == old(self)@,
    {
        let ghost pre = self@;
        let mut i: usize = 0;
        while i < self.ids.len()
            invariant
                pre == old(self)@,
                distinct(pre),
                self@ == pre,
                0 <= i <= self.ids.len(),
                forall|k: int| 0 <= k < i ==> self.ids@[k] != id,
            decreases self.ids.len() - i,
        {
            if self.ids[i] == id {
                self.ids.remove(i);
                proof {
                    pre.remove_ensures(i as int);
                    assert(self@ == pre.remove(i as int));
                    pre.index_of_first_ensures(id);
                    assert(pre.contains(id)) by {
                        assert(pre[i as int] == id);
                    }
                    assert(pre.index_of_first(id) == Some(i as int)) by {
                        let idx = pre.index_of_first(id).unwrap();
                        if idx < i {
                            assert(pre[idx] != id);
                        }
                        if idx > i {
                            assert(pre[i as int] != id);
                        }
                    }
                    assert(self@ == pre.remove_value(id));
                    assert(forall|k: int|
                        0 <= k < self@.len() ==> #[trigger] self@[k] == (if k < i {
                            pre[k]
                        } else {
                            pre[k + 1]
                        }));
                    assert forall|a: int, b: int| 0 <= a < b < self@.len() implies self@[a]
                        != self@[b] by {
                        assert(pre[if a < i { a } else { a + 1 }] != pre[if b < i {
                            b
                        } else {
                            b + 1
                        }]);
                    }
                    assert forall|k: int| 0 <= k < self@.len() implies self@[k] != id by {
                        assert(pre[i as int] == id);
                        assert(pre[if k < i { k } else { k + 1 }] != pre[i as int]);
                    }
                    assert(!self@.contains(id));
                    assert forall|x: u64| x != id implies self@.contains(x) == pre.contains(
                        x,
                    ) by {
                        if self@.contains(x) {
                            let k = choose|k: int| 0 <= k < self@.len() && self@[k] == x;
                            assert(pre[if k < i { k } else { k + 1 }] == x);
                            assert(pre.contains(x));
                        }
                        if pre.contains(x) {
                            let k = choose|k: int| 0 <= k < pre.len() && pre[k] == x;
                            if k < i {
                                assert(self@[k] == x);
                            } else {
                                assert(k > i);
                                assert(self@[k - 1] == x);
                            }
                            assert(self@.contains(x));
                        }
                    }
                }
                return ;
            }
            i = i + 1;
        }
        proof {
            assert(!self@.contains(id)) by {
                if self@.contains(id) {
                    let k = choose|k: int| 0 <= k < self@.len() && self@[k] == id;
                }
            }
            pre.index_of_first_ensures(id);
            assert(pre.index_of_first(id) is None) by {
                if pre.index_of_first(id) is Some {
                    assert(pre.contains(id));
                }
            }
            assert(self@ == pre.remove_value(id));
        }
    }

    /// The registered identities, in registration order.
    pub fn ids(&self) -> (v: Vec<u64>)
        ensures
            v@ == self@,
    {
        let mut v: Vec<u64> = Vec::new();
        let mut i: usize = 0;
        while i < self.ids.len()
            invariant
                0 <= i <= self.ids.len(),
                v@ == self@.subrange(0, i as int),
            decreases self.ids.len() - i,
        {
            v.push(self.ids[i]);
            i = i + 1;
        }
        proof {
            assert(v@ =~= self@);
        }
        v
    }
}

/// After removing position `i` from `s`, position `k` of the result holds
/// what stood at `k` (below `i`) or at `k + 1` (at or above `i`).
proof fn lemma_removed_index(s: Seq<u64>, i: int, k: int)
    requires
        0 <= i < s.len(),
        0 <= k < s.len() - 1,
    ensures
        (s.subrange(0, i) + s.subrange(i + 1, s.len() as int))[k] == if k < i {
            s[k]
        } else {
            s[k + 1]
        },
{
}

} // verus!
