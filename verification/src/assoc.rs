//! Values kept per host name, as lists of name and value pairs read by the
//! first entry of a name.

use vstd::prelude::*;

use crate::text::{owned, str_eq};

verus! {

/// The value of the first entry for `name`.
pub open spec fn lookup<V>(list: Seq<(String, V)>, name: Seq<char>) -> Option<V>
    decreases list.len(),
{
    if list.len() == 0 {
        None
    } else if list[0].0@ == name {
        Some(list[0].1)
    } else {
        lookup(list.drop_first(), name)
    }
}

/// Looking up in a list with one more entry at the end.
pub proof fn lemma_lookup_push<V>(list: Seq<(String, V)>, e: (String, V), name: Seq<char>)
    ensures
        lookup(list.push(e), name) == if lookup(list, name) is Some {
            lookup(list, name)
        } else if e.0@ == name {
            Some(e.1)
        } else {
            None
        },
    decreases list.len(),
{
    if list.len() > 0 {
        assert(list.push(e)[0] == list[0]);
        assert(list.push(e).drop_first() =~= list.drop_first().push(e));
        lemma_lookup_push(list.drop_first(), e, name);
        if list[0].0@ != name {
            assert(lookup(list.push(e), name) == lookup(list.push(e).drop_first(), name));
        }
    } else {
        assert(list.push(e).drop_first() =~= Seq::<(String, V)>::empty());
        assert(list.push(e)[0] == e);
        assert(lookup(list.push(e).drop_first(), name) is None);
    }
}

/// Renames the key `old_name` to `new_name`, as moving a map entry does:
/// when `old_name` has a value, it becomes the value of `new_name` and
/// `old_name` has none; otherwise nothing changes. Other names keep their
/// values.
pub fn rename_key<V>(list: &mut Vec<(String, V)>, old_name: &str, new_name: &str)
    requires
        old_name@ != new_name@,
    ensures
        forall|k: Seq<char>|
            #![trigger lookup(final(list)@, k)]
            lookup(final(list)@, k) == if k == new_name@ {
                if lookup(old(list)@, old_name@) is Some {
                    lookup(old(list)@, old_name@)
                } else {
                    lookup(old(list)@, new_name@)
                }
            } else if k == old_name@ {
                None::<V>
            } else {
                lookup(old(list)@, k)
            },
{
    let ghost orig = list@;
    let mut i: usize = 0;
    let mut found = false;
    assert(list@.skip(0) =~= list@);
    while i < list.len() && !found
        invariant
            i <= list.len(),
            found ==> lookup(list@, old_name@) is Some,
            !found ==> lookup(list@, old_name@) == lookup(list@.skip(i as int), old_name@),
        decreases list.len() - i,
    {
        if i == 0 {
            assert(list@.skip(0) =~= list@);
        }
        assert(list@.skip(i as int).drop_first() =~= list@.skip(i + 1));
        if str_eq(list[i].0.as_str(), old_name) {
            found = true;
        }
        i = i + 1;
    }
    if !found {
        proof {
            if i == 0 {
                assert(list@.skip(0) =~= list@);
            }
            assert(list@.skip(i as int).len() == 0);
        }
        return;
    }
    let mut out: Vec<(String, V)> = Vec::new();
    let mut moved: Option<V> = None;
    let ghost mut consumed: int = 0;
    assert(orig.skip(0) =~= orig);
    while list.len() > 0
        invariant
            old_name@ != new_name@,
            0 <= consumed <= orig.len(),
            list@ == orig.skip(consumed),
            forall|k: Seq<char>|
                k != old_name@ && k != new_name@ ==> #[trigger] lookup(orig, k) == if lookup(out@, k) is Some {
                    lookup(out@, k)
                } else {
                    lookup(list@, k)
                },
            forall|k: Seq<char>| (k == old_name@ || k == new_name@) ==> #[trigger] lookup(out@, k) is None,
            match moved {
                Some(v) => lookup(orig, old_name@) == Some(v),
                None => lookup(orig, old_name@) == lookup(list@, old_name@),
            },
            lookup(orig, old_name@) is Some,
        decreases list.len(),
    {
        let ghost rest = list@;
        let e = list.remove(0);
        proof {
            assert(list@ =~= rest.drop_first());
            consumed = consumed + 1;
            assert(orig.skip(consumed) =~= rest.drop_first());
        }
        let is_old = str_eq(e.0.as_str(), old_name);
        let is_new = str_eq(e.0.as_str(), new_name);
        if is_old {
            if moved.is_none() {
                moved = Some(e.1);
            }
        } else if !is_new {
            let ghost before = out@;
            let ghost ev = e;
            out.push(e);
            proof {
                assert forall|k: Seq<char>| (k == old_name@ || k == new_name@) implies #[trigger] lookup(out@, k)
                    is None by {
                    lemma_lookup_push(before, ev, k);
                }
                assert forall|k: Seq<char>| k != old_name@ && k != new_name@ implies #[trigger] lookup(orig, k)
                    == if lookup(out@, k) is Some {
                    lookup(out@, k)
                } else {
                    lookup(list@, k)
                } by {
                    lemma_lookup_push(before, ev, k);
                }
            }
        }
    }
    let ghost kept = out@;
    match moved {
        Some(v) => {
            let key = owned(new_name);
            let ghost entry = (key, v);
            out.push((key, v));
            proof {
                assert forall|k: Seq<char>| #![trigger lookup(out@, k)] lookup(out@, k) == if k == new_name@ {
                    if lookup(orig, old_name@) is Some {
                        lookup(orig, old_name@)
                    } else {
                        lookup(orig, new_name@)
                    }
                } else if k == old_name@ {
                    None::<V>
                } else {
                    lookup(orig, k)
                } by {
                    lemma_lookup_push(kept, entry, k);
                }
            }
        },
        None => {},
    }
    *list = out;
}

} // verus!

verus! {

/// The first entry of `name` sits at `i` when no entry before it has that
/// name; no entry has it when none of the first `i == len` do.
proof fn lemma_lookup_first<V>(list: Seq<(String, V)>, name: Seq<char>, i: int)
    requires
        0 <= i <= list.len(),
        forall|j: int| 0 <= j < i ==> (#[trigger] list[j]).0@ != name,
    ensures
        i < list.len() && list[i].0@ == name ==> lookup(list, name) == Some(list[i].1),
        i == list.len() ==> lookup(list, name) is None,
    decreases i,
{
    if i > 0 {
        let t = list.drop_first();
        assert forall|j: int| 0 <= j < i - 1 implies (#[trigger] t[j]).0@ != name by {
            assert(t[j] == list[j + 1]);
        }
        lemma_lookup_first(t, name, i - 1);
        assert(list[0].0@ != name);
    }
}

/// Replacing the first entry of a name changes that name's value only.
proof fn lemma_lookup_update<V>(list: Seq<(String, V)>, i: int, e: (String, V), k: Seq<char>)
    requires
        0 <= i < list.len(),
        list[i].0@ == e.0@,
        forall|j: int| 0 <= j < i ==> (#[trigger] list[j]).0@ != e.0@,
    ensures
        lookup(list.update(i, e), k) == if k == e.0@ {
            Some(e.1)
        } else {
            lookup(list, k)
        },
    decreases i,
{
    let u = list.update(i, e);
    if i == 0 {
        assert(u.drop_first() =~= list.drop_first());
    } else {
        assert(u.drop_first() =~= list.drop_first().update(i - 1, e));
        assert forall|j: int| 0 <= j < i - 1 implies (#[trigger] list.drop_first()[j]).0@ != e.0@ by {
            assert(list.drop_first()[j] == list[j + 1]);
        }
        lemma_lookup_update(list.drop_first(), i - 1, e, k);
        assert(list[0].0@ != e.0@);
    }
}

/// Gives `name` the value `value`, as inserting into a map does: its first
/// entry is replaced, or an entry is added; other names keep their values.
pub fn set_value<V>(list: &mut Vec<(String, V)>, name: String, value: V)
    ensures
        forall|k: Seq<char>|
            #![trigger lookup(final(list)@, k)]
            lookup(final(list)@, k) == if k == name@ {
                Some(value)
            } else {
                lookup(old(list)@, k)
            },
{
    let mut i: usize = 0;
    while i < list.len()
        invariant
            i <= list.len(),
            list@ == old(list)@,
            forall|j: int| 0 <= j < i ==> (#[trigger] list@[j]).0@ != name@,
        decreases list.len() - i,
    {
        if str_eq(list[i].0.as_str(), name.as_str()) {
            let ghost before = list@;
            let ghost e = (name, value);
            list.set(i, (name, value));
            proof {
                assert forall|k: Seq<char>| #[trigger] lookup(list@, k) == if k == e.0@ {
                    Some(e.1)
                } else {
                    lookup(before, k)
                } by {
                    lemma_lookup_update(before, i as int, e, k);
                }
            }
            return;
        }
        i = i + 1;
    }
    let ghost before = list@;
    let ghost e = (name, value);
    proof {
        lemma_lookup_first(before, name@, i as int);
    }
    list.push((name, value));
    proof {
        assert forall|k: Seq<char>| #[trigger] lookup(list@, k) == if k == e.0@ {
            Some(e.1)
        } else {
            lookup(before, k)
        } by {
            lemma_lookup_push(before, e, k);
        }
    }
}

} // verus!
