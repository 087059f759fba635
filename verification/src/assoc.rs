use vstd::prelude::*;
use crate::identity::AccountId;

verus! {

/// No two entries name the same address.
pub open spec fn distinct_keys<T>(s: Seq<(AccountId, T)>) -> bool {
    forall|i: int, j: int| 0 <= i < j < s.len() ==> s[i].0@ != s[j].0@
}

/// The map model of an association list: later entries win, which is
/// irrelevant once the keys are distinct.
pub open spec fn assoc_map<T: View>(s: Seq<(AccountId, T)>) -> Map<Seq<u8>, T::V>
    decreases s.len(),
{
    if s.len() == 0 {
        Map::empty()
    } else {
        assoc_map(s.drop_last()).insert(s.last().0@, s.last().1@)
    }
}

pub proof fn lemma_distinct_drop_last<T>(s: Seq<(AccountId, T)>)
    requires
        distinct_keys(s),
        s.len() > 0,
    ensures
        distinct_keys(s.drop_last()),
{
    assert forall|i: int, j: int| 0 <= i < j < s.drop_last().len() implies s.drop_last()[i].0@
        != s.drop_last()[j].0@ by {
        assert(s[i] == s.drop_last()[i]);
        assert(s[j] == s.drop_last()[j]);
    }
}

/// A key is in the map model exactly when some entry carries it.
pub proof fn lemma_assoc_contains<T: View>(s: Seq<(AccountId, T)>, k: Seq<u8>)
    ensures
        assoc_map(s).contains_key(k) <==> exists|i: int| 0 <= i < s.len() && s[i].0@ == k,
    decreases s.len(),
{
    if s.len() > 0 {
        lemma_assoc_contains(s.drop_last(), k);
        if s.last().0@ == k {
            assert(s[s.len() - 1].0@ == k);
        } else if assoc_map(s).contains_key(k) {
            let i = choose|i: int| 0 <= i < s.drop_last().len() && s.drop_last()[i].0@ == k;
            assert(s[i].0@ == k);
        } else {
            assert forall|i: int| 0 <= i < s.len() implies s[i].0@ != k by {
                if i < s.len() - 1 {
                    assert(s.drop_last()[i].0@ != k);
                }
            }
        }
    }
}

/// With distinct keys, the map model sends each entry's key to its value.
pub proof fn lemma_assoc_index<T: View>(s: Seq<(AccountId, T)>, i: int)
    requires
        distinct_keys(s),
        0 <= i < s.len(),
    ensures
        assoc_map(s).contains_key(s[i].0@),
        assoc_map(s)[s[i].0@] == s[i].1@,
    decreases s.len(),
{
    if i == s.len() - 1 {
    } else {
        lemma_distinct_drop_last(s);
        assert(s.drop_last()[i] == s[i]);
        lemma_assoc_index(s.drop_last(), i);
        assert(s[s.len() - 1].0@ != s[i].0@);
    }
}

/// Appending a fresh entry inserts it into the map model.
pub proof fn lemma_assoc_push<T: View>(s: Seq<(AccountId, T)>, id: AccountId, v: T)
    ensures
        assoc_map(s.push((id, v))) == assoc_map(s).insert(id@, v@),
{
    assert(s.push((id, v)).drop_last() =~= s);
    assert(s.push((id, v)).last() == (id, v));
}

/// Replacing the value at an entry updates the map model at its key.
pub proof fn lemma_assoc_update<T: View>(s: Seq<(AccountId, T)>, i: int, v: T)
    requires
        distinct_keys(s),
        0 <= i < s.len(),
    ensures
        assoc_map(s.update(i, (s[i].0, v))) == assoc_map(s).insert(s[i].0@, v@),
    decreases s.len(),
{
    let t = s.update(i, (s[i].0, v));
    if i == s.len() - 1 {
        assert(t.drop_last() =~= s.drop_last());
        assert(t.last() == (s[i].0, v));
        assert(assoc_map(t) =~= assoc_map(s).insert(s[i].0@, v@));
    } else {
        lemma_distinct_drop_last(s);
        assert(s.drop_last()[i] == s[i]);
        lemma_assoc_update(s.drop_last(), i, v);
        assert(t.drop_last() =~= s.drop_last().update(i, (s[i].0, v)));
        assert(t.last() == s.last());
        assert(s[s.len() - 1].0@ != s[i].0@);
        assert(assoc_map(t) =~= assoc_map(s).insert(s[i].0@, v@));
    }
}

/// Removing an entry removes its key from the map model.
pub proof fn lemma_assoc_remove<T: View>(s: Seq<(AccountId, T)>, i: int)
    requires
        distinct_keys(s),
        0 <= i < s.len(),
    ensures
        assoc_map(s.remove(i)) == assoc_map(s).remove(s[i].0@),
    decreases s.len(),
{
    let t = s.remove(i);
    if i == s.len() - 1 {
        assert(t =~= s.drop_last());
        lemma_distinct_drop_last(s);
        lemma_assoc_contains(s.drop_last(), s[i].0@);
        assert forall|j: int| 0 <= j < s.drop_last().len() implies s.drop_last()[j].0@ != s[
            i
        ].0@ by {
            assert(s.drop_last()[j] == s[j]);
        }
        assert(!assoc_map(s.drop_last()).contains_key(s[i].0@));
        assert(assoc_map(t) =~= assoc_map(s).remove(s[i].0@));
    } else {
        lemma_distinct_drop_last(s);
        assert(s.drop_last()[i] == s[i]);
        lemma_assoc_remove(s.drop_last(), i);
        assert(t.drop_last() =~= s.drop_last().remove(i));
        assert(t.last() == s.last());
        assert(s[s.len() - 1].0@ != s[i].0@);
        assert(assoc_map(t) =~= assoc_map(s).remove(s[i].0@));
    }
}

/// No entry of the list names this address.
pub open spec fn key_absent<T>(s: Seq<(AccountId, T)>, id: Seq<u8>) -> bool {
    forall|i: int| 0 <= i < s.len() ==> s[i].0@ != id
}

/// No address names an entry in both lists.
pub open spec fn tables_disjoint<A, B>(a: Seq<(AccountId, A)>, b: Seq<(AccountId, B)>) -> bool {
    forall|i: int, j: int| 0 <= i < a.len() && 0 <= j < b.len() ==> a[i].0@ != b[j].0@
}

pub proof fn lemma_distinct_push<T>(s: Seq<(AccountId, T)>, id: AccountId, v: T)
    requires
        distinct_keys(s),
        key_absent(s, id@),
    ensures
        distinct_keys(s.push((id, v))),
{
    let t = s.push((id, v));
    assert forall|i: int, j: int| 0 <= i < j < t.len() implies t[i].0@ != t[j].0@ by {
        if j < s.len() {
            assert(t[i] == s[i] && t[j] == s[j]);
        } else {
            assert(t[i] == s[i] && t[j] == (id, v));
        }
    }
}

pub proof fn lemma_disjoint_push_left<A, B>(
    a: Seq<(AccountId, A)>,
    b: Seq<(AccountId, B)>,
    id: AccountId,
    v: A,
)
    requires
        tables_disjoint(a, b),
        key_absent(b, id@),
    ensures
        tables_disjoint(a.push((id, v)), b),
{
    let t = a.push((id, v));
    assert forall|i: int, j: int| 0 <= i < t.len() && 0 <= j < b.len() implies t[i].0@ != b[
        j
    ].0@ by {
        if i < a.len() {
            assert(t[i] == a[i]);
        } else {
            assert(t[i] == (id, v));
        }
    }
}

pub proof fn lemma_distinct_update<T>(s: Seq<(AccountId, T)>, i: int, v: T)
    requires
        distinct_keys(s),
        0 <= i < s.len(),
    ensures
        distinct_keys(s.update(i, (s[i].0, v))),
{
    let t = s.update(i, (s[i].0, v));
    assert forall|m: int, n: int| 0 <= m < n < t.len() implies t[m].0@ != t[n].0@ by {
        assert(t[m].0 == s[m].0 && t[n].0 == s[n].0);
    }
}

pub proof fn lemma_disjoint_update_left<A, B>(
    a: Seq<(AccountId, A)>,
    b: Seq<(AccountId, B)>,
    i: int,
    v: A,
)
    requires
        tables_disjoint(a, b),
        0 <= i < a.len(),
    ensures
        tables_disjoint(a.update(i, (a[i].0, v)), b),
{
    let t = a.update(i, (a[i].0, v));
    assert forall|m: int, n: int| 0 <= m < t.len() && 0 <= n < b.len() implies t[m].0@ != b[
        n
    ].0@ by {
        assert(t[m].0 == a[m].0);
    }
}

pub proof fn lemma_distinct_remove<T>(s: Seq<(AccountId, T)>, i: int)
    requires
        distinct_keys(s),
        0 <= i < s.len(),
    ensures
        distinct_keys(s.remove(i)),
{
    let t = s.remove(i);
    assert forall|m: int, n: int| 0 <= m < n < t.len() implies t[m].0@ != t[n].0@ by {
        let ms = if m < i { m } else { m + 1 };
        let ns = if n < i { n } else { n + 1 };
        assert(t[m] == s[ms] && t[n] == s[ns]);
    }
}

pub proof fn lemma_disjoint_remove_left<A, B>(
    a: Seq<(AccountId, A)>,
    b: Seq<(AccountId, B)>,
    i: int,
)
    requires
        tables_disjoint(a, b),
        0 <= i < a.len(),
    ensures
        tables_disjoint(a.remove(i), b),
{
    let t = a.remove(i);
    assert forall|m: int, n: int| 0 <= m < t.len() && 0 <= n < b.len() implies t[m].0@ != b[
        n
    ].0@ by {
        let ms = if m < i { m } else { m + 1 };
        assert(t[m] == a[ms]);
    }
}

pub proof fn lemma_disjoint_sym<A, B>(a: Seq<(AccountId, A)>, b: Seq<(AccountId, B)>)
    requires
        tables_disjoint(a, b),
    ensures
        tables_disjoint(b, a),
{
}

/// Finds the entry that names an address, if any.
pub fn assoc_find<T>(v: &Vec<(AccountId, T)>, id: &AccountId) -> (r: Option<usize>)
    ensures
        match r {
            Some(i) => i < v.len() && v@[i as int].0@ == id@,
            None => forall|i: int| 0 <= i < v@.len() ==> v@[i].0@ != id@,
        },
{
    let mut i: usize = 0;
    while i < v.len()
        invariant
            i <= v.len(),
            forall|j: int| 0 <= j < i ==> v@[j].0@ != id@,
        decreases v.len() - i,
    {
        if v[i].0.eq_id(id) {
            return Some(i);
        }
        i += 1;
    }
    None
}

} // verus!
