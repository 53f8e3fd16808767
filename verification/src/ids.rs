//! A set of actor ids kept as an ascending list, so that everything that
//! walks the registry does so in id order.

use vstd::prelude::*;
use crate::protocol::ActorId;

verus! {

/// Each element is smaller than every later one.
pub open spec fn ascending(s: Seq<ActorId>) -> bool {
    forall|i: int, j: int| 0 <= i < j < s.len() ==> s[i] < s[j]
}

/// An ascending list is fixed by the set of its elements: two ascending
/// lists with the same elements are the same list.
pub proof fn lemma_ascending_unique(a: Seq<ActorId>, b: Seq<ActorId>)
    requires
        ascending(a),
        ascending(b),
        a.to_set() == b.to_set(),
    ensures
        a == b,
    decreases a.len(),
{
    if a.len() == 0 {
        if b.len() > 0 {
            assert(b.to_set().contains(b[0]));
            assert(a.contains(b[0]));
        }
        assert(a =~= b);
    } else {
        let top = a.last();
        assert(a.to_set().contains(top));
        assert(b.contains(top));
        let k = choose|k: int| 0 <= k < b.len() && b[k] == top;
        assert(b.to_set().contains(b.last()));
        assert(a.contains(b.last()));
        let j = choose|j: int| 0 <= j < a.len() && a[j] == b.last();
        // `top` is the largest of `a`, and `b.last()` the largest of `b`.
        assert(b.last() <= top) by {
            if j < a.len() - 1 {
                assert(a[j] < a[a.len() - 1]);
            }
        }
        assert(k == b.len() - 1) by {
            if k < b.len() - 1 {
                assert(b[k] < b[b.len() - 1]);
            }
        }
        let a0 = a.drop_last();
        let b0 = b.drop_last();
        assert(a0.to_set() =~= b0.to_set()) by {
            assert forall|x: ActorId| a0.to_set().contains(x) implies b0.to_set().contains(x) by {
                let i = choose|i: int| 0 <= i < a0.len() && a0[i] == x;
                assert(a[i] == x && a[i] < a[a.len() - 1]);
                assert(a.to_set().contains(x));
                assert(b.contains(x));
                let m = choose|m: int| 0 <= m < b.len() && b[m] == x;
                assert(m != b.len() - 1);
                assert(b0[m] == x);
            }
            assert forall|x: ActorId| b0.to_set().contains(x) implies a0.to_set().contains(x) by {
                let i = choose|i: int| 0 <= i < b0.len() && b0[i] == x;
                assert(b[i] == x && b[i] < b[b.len() - 1]);
                assert(b.to_set().contains(x));
                assert(a.contains(x));
                let m = choose|m: int| 0 <= m < a.len() && a[m] == x;
                assert(m != a.len() - 1);
                assert(a0[m] == x);
            }
        }
        lemma_ascending_unique(a0, b0);
        assert(a =~= a0.push(top));
        assert(b =~= b0.push(top));
    }
}

/// Actor ids in strictly ascending order, each at most once.
pub struct IdList {
    ids: Vec<ActorId>,
}

impl View for IdList {
    type V = Seq<ActorId>;

    closed spec fn view(&self) -> Seq<ActorId> {
        self.ids@
    }
}

impl IdList {
    /// The list is strictly ascending.
    pub open spec fn wf(&self) -> bool {
        ascending(self@)
    }

    /// The empty list.
    pub fn new() -> (list: IdList)
        ensures
            list.wf(),
            list@ == Seq::<ActorId>::empty(),
    {
        IdList { ids: Vec::new() }
    }

    /// How many ids the list holds.
    pub fn len(&self) -> (n: usize)
        ensures
            n == self@.len(),
    {
        self.ids.len()
    }

    /// The id at position `i`, counting from the smallest.
    pub fn get(&self, i: usize) -> (id: ActorId)
        requires
            i < self@.len(),
        ensures
            id == self@[i as int],
    {
        self.ids[i]
    }

    /// The number of ids in the list that are smaller than `id`: the place
    /// where `id` stands, or would stand.
    fn rank(&self, id: ActorId) -> (pos: usize)
        requires
            self.wf(),
        ensures
            pos <= self@.len(),
            forall|i: int| 0 <= i < pos ==> self@[i] < id,
            forall|i: int| pos <= i < self@.len() ==> self@[i] >= id,
    {
        let mut pos: usize = 0;
        while pos < self.ids.len() && self.ids[pos] < id
            invariant
                self.wf(),
                pos <= self@.len(),
                forall|i: int| 0 <= i < pos ==> self@[i] < id,
            decreases self@.len() - pos,
        {
            pos = pos + 1;
        }
        pos
    }

    /// Whether `id` is in the list.
    pub fn contains(&self, id: ActorId) -> (found: bool)
        requires
            self.wf(),
        ensures
            found == self@.contains(id),
    {
        let pos = self.rank(id);
        let found = pos < self.ids.len() && self.ids[pos] == id;
        proof {
            if found {
                assert(self@[pos as int] == id);
            } else {
                assert forall|i: int| 0 <= i < self@.len() implies self@[i] != id by {
                    if i > pos {
                        assert(self@[pos as int] < self@[i]);
                    }
                }
            }
        }
        found
    }

    /// Adds `id` at its place in the order, unless it is there already.
    /// Says whether it was added.
    pub fn insert(&mut self, id: ActorId) -> (added: bool)
        requires
            old(self).wf(),
        ensures
            final(self).wf(),
            added == !old(self)@.contains(id),
            final(self)@.to_set() == old(self)@.to_set().insert(id),
            forall|x: ActorId|
                final(self)@.contains(x) <==> (x == id || old(self)@.contains(x)),
            !added ==> final(self)@ == old(self)@,
            added ==> final(self)@.len() == old(self)@.len() + 1,
    {
        let pos = self.rank(id);
        if pos < self.ids.len() && self.ids[pos] == id {
            proof {
                assert(self@[pos as int] == id);
                assert(self@.to_set().insert(id) =~= self@.to_set());
            }
            return false;
        }
        let ghost before = self@;
        self.ids.insert(pos, id);
        proof {
            let after = self@;
            assert(after == before.insert(pos as int, id));
            assert forall|i: int| 0 <= i < before.len() implies before[i] != id by {
                if i > pos {
                    assert(before[pos as int] < before[i]);
                }
            }
            assert forall|i: int, j: int| 0 <= i < j < after.len() implies after[i] < after[j] by {
                if j < pos {
                    assert(after[i] == before[i] && after[j] == before[j]);
                } else if j == pos {
                    assert(after[i] == before[i]);
                } else if i < pos {
                    assert(after[i] == before[i] && after[j] == before[j - 1]);
                } else if i == pos {
                    assert(after[j] == before[j - 1]);
                    assert(before[j - 1] >= id && before[j - 1] != id);
                } else {
                    assert(after[i] == before[i - 1] && after[j] == before[j - 1]);
                }
            }
            assert(after.to_set() =~= before.to_set().insert(id)) by {
                assert forall|x: ActorId| after.to_set().contains(x) implies before.to_set().insert(
                    id,
                ).contains(x) by {
                    let k = choose|k: int| 0 <= k < after.len() && after[k] == x;
                    if k < pos {
                        assert(before[k] == x);
                    } else if k > pos {
                        assert(before[k - 1] == x);
                    }
                }
                assert forall|x: ActorId| before.to_set().insert(id).contains(x) implies after.to_set().contains(
                    x,
                ) by {
                    if x == id {
                        assert(after[pos as int] == x);
                    } else {
                        let k = choose|k: int| 0 <= k < before.len() && before[k] == x;
                        if k < pos {
                            assert(after[k] == x);
                        } else {
                            assert(after[k + 1] == x);
                        }
                    }
                }
            }
            assert forall|x: ActorId| after.contains(x) <==> (x == id || before.contains(x)) by {
                assert(after.to_set().contains(x) == after.contains(x));
                assert(before.to_set().contains(x) == before.contains(x));
            }
        }
        true
    }

    /// Takes `id` out of the list, if it is there. Says whether it was.
    pub fn remove(&mut self, id: ActorId) -> (removed: bool)
        requires
            old(self).wf(),
        ensures
            final(self).wf(),
            removed == old(self)@.contains(id),
            final(self)@.to_set() == old(self)@.to_set().remove(id),
            forall|x: ActorId|
                final(self)@.contains(x) <==> (x != id && old(self)@.contains(x)),
            !removed ==> final(self)@ == old(self)@,
            removed ==> final(self)@.len() + 1 == old(self)@.len(),
    {
        let pos = self.rank(id);
        let ghost before = self@;
        if pos < self.ids.len() && self.ids[pos] == id {
            self.ids.remove(pos);
            proof {
                let after = self@;
                assert(before[pos as int] == id);
                assert(after == before.remove(pos as int));
                assert forall|i: int, j: int| 0 <= i < j < after.len() implies after[i]
                    < after[j] by {
                    let bi = if i < pos { i } else { i + 1 };
                    let bj = if j < pos { j } else { j + 1 };
                    assert(after[i] == before[bi] && after[j] == before[bj]);
                }
                assert(after.to_set() =~= before.to_set().remove(id)) by {
                    assert forall|x: ActorId| after.to_set().contains(x) implies before.to_set().remove(
                        id,
                    ).contains(x) by {
                        let k = choose|k: int| 0 <= k < after.len() && after[k] == x;
                        let bk = if k < pos { k } else { k + 1 };
                        assert(before[bk] == x);
                        if bk < pos {
                            assert(before[bk] < before[pos as int]);
                        } else {
                            assert(before[pos as int] < before[bk]);
                        }
                    }
                    assert forall|x: ActorId| before.to_set().remove(id).contains(
                        x,
                    ) implies after.to_set().contains(x) by {
                        let k = choose|k: int| 0 <= k < before.len() && before[k] == x;
                        if k < pos {
                            assert(after[k] == x);
                        } else {
                            assert(k != pos);
                            assert(after[k - 1] == x);
                        }
                    }
                }
                assert forall|x: ActorId| after.contains(x) <==> (x != id && before.contains(
                    x,
                )) by {
                    assert(after.to_set().contains(x) == after.contains(x));
                    assert(before.to_set().contains(x) == before.contains(x));
                }
            }
            true
        } else {
            proof {
                assert forall|i: int| 0 <= i < before.len() implies before[i] != id by {
                    if i > pos {
                        assert(before[pos as int] < before[i]);
                    }
                }
                assert(before.to_set().remove(id) =~= before.to_set());
            }
            false
        }
    }

    /// The largest id in the list, if the list holds any.
    pub fn largest(&self) -> (top: Option<ActorId>)
        requires
            self.wf(),
        ensures
            top is None <==> self@.len() == 0,
            top matches Some(id) ==> self@.contains(id) && forall|i: int|
                0 <= i < self@.len() ==> self@[i] <= id,
    {
        let n = self.ids.len();
        if n == 0 {
            None
        } else {
            let id = self.ids[n - 1];
            proof {
                assert(self@[n - 1] == id);
                assert forall|i: int| 0 <= i < self@.len() implies self@[i] <= id by {
                    if i < n - 1 {
                        assert(self@[i] < self@[n - 1]);
                    }
                }
            }
            Some(id)
        }
    }
}

} // verus!
