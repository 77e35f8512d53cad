//! A set of paths, kept as a list without repeats in insertion order.

use vstd::prelude::*;

use crate::text::{owned, str_eq, views};

verus! {

/// A set of path strings.
#[derive(Debug)]
pub struct PathSet {
    items: Vec<String>,
}

impl PathSet {
    /// No path is held twice.
    #[verifier::type_invariant]
    spec fn distinct(self) -> bool {
        views(self.items@).no_duplicates()
    }

    /// The paths held.
    pub closed spec fn contents(self) -> Set<Seq<char>> {
        views(self.items@).to_set()
    }

    /// An empty set.
    pub fn new() -> (res: Self)
        ensures
            res.contents() == Set::<Seq<char>>::empty(),
    {
        let res = PathSet { items: Vec::new() };
        assert(views(res.items@).to_set() =~= Set::<Seq<char>>::empty());
        res
    }

    /// The number of paths held.
    pub fn len(&self) -> (res: usize)
        ensures
            res == self.contents().len(),
    {
        proof {
            use_type_invariant(self);
            assert(self.distinct());
            assert(views(self.items@).no_duplicates());
            views(self.items@).unique_seq_to_set();
        }
        self.items.len()
    }

    /// Whether no path is held.
    pub fn is_empty(&self) -> (res: bool)
        ensures
            res == (self.contents() == Set::<Seq<char>>::empty()),
    {
        proof {
            if self.items.len() > 0 {
                assert(self.contents().contains(views(self.items@)[0]));
            } else {
                assert(self.contents() =~= Set::<Seq<char>>::empty());
            }
        }
        self.items.len() == 0
    }

    /// Whether `p` is held.
    pub fn contains(&self, p: &str) -> (res: bool)
        ensures
            res == self.contents().contains(p@),
    {
        let mut i: usize = 0;
        while i < self.items.len()
            invariant
                i <= self.items.len(),
                forall|j: int| 0 <= j < i ==> self.items@[j]@ != p@,
            decreases self.items.len() - i,
        {
            if str_eq(self.items[i].as_str(), p) {
                assert(views(self.items@)[i as int] == p@);
                return true;
            }
            i = i + 1;
        }
        assert(!views(self.items@).contains(p@));
        false
    }

    /// Adds `p`; returns whether it was not held before.
    pub fn insert(&mut self, p: String) -> (res: bool)
        ensures
            final(self).contents() == old(self).contents().insert(p@),
            res == !old(self).contents().contains(p@),
    {
        proof {
            use_type_invariant(&*self);
        }
        if self.contains(p.as_str()) {
            assert(self.contents().insert(p@) =~= self.contents());
            return false;
        }
        let mut items: Vec<String> = Vec::new();
        std::mem::swap(&mut items, &mut self.items);
        let ghost before = views(items@);
        let ghost pv = p@;
        items.push(p);
        proof {
            assert(views(items@) =~= before.push(pv));
            before.lemma_push_to_set_commute(pv);
            assert forall|a: int, b: int| 0 <= a < b < views(items@).len() implies views(items@)[a]
                != views(items@)[b] by {
                if b == before.len() {
                    assert(before.contains(before[a]));
                }
            }
        }
        self.items = items;
        true
    }

    /// Removes `p`; returns whether it was held.
    pub fn remove(&mut self, p: &str) -> (res: bool)
        ensures
            final(self).contents() == old(self).contents().remove(p@),
            res == old(self).contents().contains(p@),
    {
        proof {
            use_type_invariant(&*self);
        }
        let mut i: usize = 0;
        while i < self.items.len()
            invariant
                i <= self.items.len(),
                *self == *old(self),
                views(self.items@).no_duplicates(),
                forall|j: int| 0 <= j < i ==> self.items@[j]@ != p@,
            decreases self.items.len() - i,
        {
            if str_eq(self.items[i].as_str(), p) {
                let mut items: Vec<String> = Vec::new();
                std::mem::swap(&mut items, &mut self.items);
                let ghost before = views(items@);
                items.remove(i);
                proof {
                    let after = views(items@);
                    assert(after =~= before.remove(i as int));
                    assert(before[i as int] == p@);
                    assert forall|x: Seq<char>| after.to_set().contains(x) == before.to_set().remove(p@).contains(x) by {
                        if after.to_set().contains(x) {
                            let k = choose|k: int| 0 <= k < after.len() && after[k] == x;
                            if k < i {
                                assert(before[k] == x);
                                assert(k != i);
                            } else {
                                assert(before[k + 1] == x);
                            }
                            assert(before.contains(x));
                        }
                        if before.to_set().remove(p@).contains(x) {
                            let k = choose|k: int| 0 <= k < before.len() && before[k] == x;
                            assert(k != i);
                            if k < i {
                                assert(after[k] == x);
                            } else {
                                assert(after[k - 1] == x);
                            }
                            assert(after.contains(x));
                        }
                    }
                    assert(after.to_set() =~= before.to_set().remove(p@));
                    assert forall|a: int, b: int| 0 <= a < b < after.len() implies after[a] != after[b] by {
                        let a2 = if a < i { a } else { a + 1 };
                        let b2 = if b < i { b } else { b + 1 };
                        assert(after[a] == before[a2] && after[b] == before[b2]);
                        assert(a2 < b2);
                    }
                    assert(before.contains(p@));
                }
                self.items = items;
                return true;
            }
            i = i + 1;
        }
        proof {
            assert(!views(self.items@).contains(p@));
            assert(self.contents().remove(p@) =~= self.contents());
        }
        false
    }

    /// Removes every path.
    pub fn clear(&mut self)
        ensures
            final(self).contents() == Set::<Seq<char>>::empty(),
    {
        self.items = Vec::new();
        assert(views(self.items@).to_set() =~= Set::<Seq<char>>::empty());
    }

    /// The paths held, each once.
    pub fn to_vec(&self) -> (res: Vec<String>)
        ensures
            views(res@).to_set() == self.contents(),
            views(res@).no_duplicates(),
    {
        proof {
            use_type_invariant(self);
        }
        let mut out: Vec<String> = Vec::new();
        let mut i: usize = 0;
        while i < self.items.len()
            invariant
                i <= self.items.len(),
                views(self.items@).no_duplicates(),
                views(out@) == views(self.items@).take(i as int),
            decreases self.items.len() - i,
        {
            let ghost before = views(out@);
            out.push(owned(self.items[i].as_str()));
            assert(views(out@) =~= before.push(self.items@[i as int]@));
            assert(views(out@) =~= views(self.items@).take(i + 1));
            i = i + 1;
        }
        assert(views(self.items@).take(self.items.len() as int) =~= views(self.items@));
        out
    }

    /// Keeps only the paths for which `keep` holds at the same position of
    /// `keep`, which lists a verdict per path held.
    fn retain_where(&mut self, keep: &Vec<bool>)
        requires
            keep.len() == old(self).items.len(),
        ensures
            final(self).contents() == old(self).contents().filter(
                |p: Seq<char>| exists|i: int| 0 <= i < keep.len() && keep@[i] && views(old(self).items@)[i] == p,
            ),
    {
        proof {
            use_type_invariant(&*self);
        }
        let ghost old_items = views(self.items@);
        let ghost mut src: Seq<int> = Seq::empty();
        let mut kept: Vec<String> = Vec::new();
        let mut i: usize = 0;
        while i < self.items.len()
            invariant
                i <= self.items.len(),
                keep.len() == self.items.len(),
                old_items == views(self.items@),
                old_items.no_duplicates(),
                src.len() == kept.len(),
                forall|a: int| 0 <= a < kept.len() ==> 0 <= #[trigger] src[a] < i && keep@[src[a]],
                forall|a: int| 0 <= a < kept.len() ==> views(kept@)[a] == old_items[#[trigger] src[a]],
                forall|a: int, b: int| 0 <= a < b < kept.len() ==> #[trigger] src[a] < #[trigger] src[b],
                forall|j: int| 0 <= j < i && keep@[j] ==> views(kept@).contains(#[trigger] old_items[j]),
            decreases self.items.len() - i,
        {
            if keep[i] {
                let ghost before = views(kept@);
                kept.push(owned(self.items[i].as_str()));
                proof {
                    src = src.push(i as int);
                    assert(views(kept@) =~= before.push(old_items[i as int]));
                    assert forall|j: int| 0 <= j < i + 1 && keep@[j] implies views(kept@).contains(
                        #[trigger] old_items[j],
                    ) by {
                        if j < i {
                            assert(before.contains(old_items[j]));
                            let k = choose|k: int| 0 <= k < before.len() && before[k] == old_items[j];
                            assert(views(kept@)[k] == old_items[j]);
                        } else {
                            assert(views(kept@)[before.len() as int] == old_items[j]);
                        }
                    }
                }
            }
            i = i + 1;
        }
        let ghost kv = views(kept@);
        assert(kv.no_duplicates()) by {
            assert forall|a: int, b: int| 0 <= a < b < kv.len() implies kv[a] != kv[b] by {
                assert(src[a] < src[b]);
                assert(kv[a] == old_items[src[a]]);
                assert(kv[b] == old_items[src[b]]);
            }
        }
        let ghost want = old_items.to_set().filter(
            |p: Seq<char>| exists|i: int| 0 <= i < keep.len() && keep@[i] && old_items[i] == p,
        );
        assert(kv.to_set() =~= want) by {
            assert forall|p: Seq<char>| kv.to_set().contains(p) implies want.contains(p) by {
                let a = choose|a: int| 0 <= a < kv.len() && kv[a] == p;
                assert(kv[a] == old_items[src[a]]);
                assert(0 <= src[a] < keep.len() && keep@[src[a]]);
                assert(old_items.contains(p));
            }
            assert forall|p: Seq<char>| want.contains(p) implies kv.to_set().contains(p) by {
                let j = choose|j: int| 0 <= j < keep.len() && keep@[j] && old_items[j] == p;
                assert(views(kept@).contains(old_items[j]));
            }
        }
        self.items = kept;
    }

    /// Keeps only the paths that `paths` lists.
    pub fn retain_listed(&mut self, paths: &[String])
        ensures
            final(self).contents() == old(self).contents().filter(|p: Seq<char>| views(paths@).contains(p)),
    {
        let mut keep: Vec<bool> = Vec::new();
        let mut i: usize = 0;
        while i < self.items.len()
            invariant
                i <= self.items.len(),
                keep.len() == i,
                forall|j: int| 0 <= j < i ==> keep@[j] == views(paths@).contains(#[trigger] self.items@[j]@),
            decreases self.items.len() - i,
        {
            let mut found = false;
            let mut k: usize = 0;
            while k < paths.len()
                invariant
                    i < self.items.len(),
                    k <= paths.len(),
                    found == exists|m: int| 0 <= m < k && paths@[m]@ == self.items@[i as int]@,
                decreases paths.len() - k,
            {
                if str_eq(paths[k].as_str(), self.items[i].as_str()) {
                    found = true;
                }
                k = k + 1;
            }
            proof {
                if found {
                    let m = choose|m: int| 0 <= m < k && paths@[m]@ == self.items@[i as int]@;
                    assert(views(paths@)[m] == self.items@[i as int]@);
                } else {
                    if views(paths@).contains(self.items@[i as int]@) {
                        let m = choose|m: int| 0 <= m < views(paths@).len() && views(paths@)[m] == self.items@[i as int]@;
                        assert(paths@[m]@ == self.items@[i as int]@);
                    }
                }
            }
            keep.push(found);
            i = i + 1;
        }
        let ghost old_self_items = self.items@;
        let ghost old_contents = self.contents();
        self.retain_where(&keep);
        assert(old_contents.filter(
            |p: Seq<char>| exists|i: int| 0 <= i < keep.len() && keep@[i] && views(old_self_items)[i] == p,
        ) =~= old_contents.filter(|p: Seq<char>| views(paths@).contains(p))) by {
            assert forall|p: Seq<char>| old_contents.contains(p) && views(paths@).contains(p) implies exists|i: int|
                0 <= i < keep.len() && keep@[i] && views(old_self_items)[i] == p by {
                let i = choose|i: int| 0 <= i < views(old_self_items).len() && views(old_self_items)[i] == p;
                assert(keep@[i] == views(paths@).contains(old_self_items[i]@));
            }
            assert forall|p: Seq<char>| old_contents.contains(p) && (exists|i: int|
                0 <= i < keep.len() && keep@[i] && views(old_self_items)[i] == p) implies views(paths@).contains(p) by {
                let i = choose|i: int| 0 <= i < keep.len() && keep@[i] && views(old_self_items)[i] == p;
                assert(keep@[i] == views(paths@).contains(old_self_items[i]@));
            }
        }
    }
}

impl Default for PathSet {
    fn default() -> (res: Self)
        ensures
            res.contents() == Set::<Seq<char>>::empty(),
    {
        PathSet::new()
    }
}

} // verus!
