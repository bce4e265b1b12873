//! Keyed tables: a `Vec` of records in which no two records share an id.
//!
//! The store keeps each collection as such a table. The spec functions here
//! describe lookups, upserts and removals over the table's sequence view.
use vstd::prelude::*;

verus! {

/// A record that carries a 128-bit identifier.
pub trait Keyed {
    spec fn key_of(&self) -> u128;

    fn key(&self) -> (k: u128)
        ensures
            k == self.key_of(),
    ;
}

/// Some record in `s` has the id `id`.
pub open spec fn has_key<T: Keyed>(s: Seq<T>, id: u128) -> bool {
    exists|i: int| 0 <= i < s.len() && #[trigger] s[i].key_of() == id
}

/// No two records of `s` share an id.
pub open spec fn unique_keys<T: Keyed>(s: Seq<T>) -> bool {
    forall|i: int, j: int|
        0 <= i < s.len() && 0 <= j < s.len() && i != j ==> #[trigger] s[i].key_of()
            != #[trigger] s[j].key_of()
}

/// The position of the record with id `id` (meaningful when `has_key(s, id)`).
pub open spec fn key_index<T: Keyed>(s: Seq<T>, id: u128) -> int {
    choose|i: int| 0 <= i < s.len() && #[trigger] s[i].key_of() == id
}

/// The record with id `id`, if any.
pub open spec fn lookup<T: Keyed>(s: Seq<T>, id: u128) -> Option<T> {
    if has_key(s, id) {
        Some(s[key_index(s, id)])
    } else {
        None
    }
}

/// Replaces the record that has `r`'s id, or appends `r` when there is none.
pub open spec fn upsert<T: Keyed>(s: Seq<T>, r: T) -> Seq<T> {
    if has_key(s, r.key_of()) {
        s.update(key_index(s, r.key_of()), r)
    } else {
        s.push(r)
    }
}

/// Drops the record with id `id`, if any.
pub open spec fn remove_key<T: Keyed>(s: Seq<T>, id: u128) -> Seq<T> {
    if has_key(s, id) {
        s.remove(key_index(s, id))
    } else {
        s
    }
}

/// The first position of a record with id `id` (meaningful when
/// `has_key(s, id)`); in a table with unique ids it is `key_index(s, id)`.
pub open spec fn first_key_index<T: Keyed>(s: Seq<T>, id: u128) -> int {
    choose|i: int|
        0 <= i < s.len() && s[i].key_of() == id && forall|j: int|
            0 <= j < i ==> #[trigger] s[j].key_of() != id
}

pub proof fn lemma_first_key_index<T: Keyed>(s: Seq<T>, i: int)
    requires
        0 <= i < s.len(),
        forall|j: int| 0 <= j < i ==> #[trigger] s[j].key_of() != s[i].key_of(),
    ensures
        first_key_index(s, s[i].key_of()) == i,
{
    let id = s[i].key_of();
    let k = first_key_index(s, id);
    assert(0 <= k < s.len() && s[k].key_of() == id && forall|j: int|
        0 <= j < k ==> #[trigger] s[j].key_of() != id);
    if k < i {
        assert(s[k].key_of() != id);
    } else if k > i {
        assert(s[i].key_of() != id);
    }
}

/// With unique ids, the record found at a position is the one `lookup` gives.
pub proof fn lemma_lookup_at<T: Keyed>(s: Seq<T>, i: int)
    requires
        unique_keys(s),
        0 <= i < s.len(),
    ensures
        has_key(s, s[i].key_of()),
        key_index(s, s[i].key_of()) == i,
        lookup(s, s[i].key_of()) == Some(s[i]),
{
    let id = s[i].key_of();
    assert(has_key(s, id));
    let j = key_index(s, id);
    assert(s[j].key_of() == id);
}

/// An upsert keeps ids unique and makes `lookup` of the new id give the new record.
pub proof fn lemma_upsert<T: Keyed>(s: Seq<T>, r: T)
    requires
        unique_keys(s),
    ensures
        unique_keys(upsert(s, r)),
        lookup(upsert(s, r), r.key_of()) == Some(r),
        forall|id: u128| id != r.key_of() ==> #[trigger] lookup(upsert(s, r), id) == lookup(s, id),
{
    let t = upsert(s, r);
    if has_key(s, r.key_of()) {
        let k = key_index(s, r.key_of());
        assert(s[k].key_of() == r.key_of());
        assert forall|i: int, j: int|
            0 <= i < t.len() && 0 <= j < t.len() && i != j implies #[trigger] t[i].key_of()
            != #[trigger] t[j].key_of() by {
            if i == k {
                assert(s[j].key_of() != s[k].key_of());
            } else if j == k {
                assert(s[i].key_of() != s[k].key_of());
            } else {
            }
        }
        lemma_lookup_at(t, k);
        assert forall|id: u128| id != r.key_of() implies #[trigger] lookup(t, id) == lookup(s, id) by {
            if has_key(s, id) {
                let m = key_index(s, id);
                assert(m != k);
                assert(t[m] == s[m]);
                lemma_lookup_at(s, m);
                lemma_lookup_at(t, m);
            } else {
                if has_key(t, id) {
                    let m = key_index(t, id);
                    assert(t[m].key_of() == id);
                    assert(m != k);
                    assert(s[m].key_of() == id);
                }
            }
        }
    } else {
        assert forall|i: int, j: int|
            0 <= i < t.len() && 0 <= j < t.len() && i != j implies #[trigger] t[i].key_of()
            != #[trigger] t[j].key_of() by {
            if i == s.len() {
                assert(s[j].key_of() != r.key_of());
            } else if j == s.len() {
                assert(s[i].key_of() != r.key_of());
            } else {
            }
        }
        lemma_lookup_at(t, s.len() as int);
        assert forall|id: u128| id != r.key_of() implies #[trigger] lookup(t, id) == lookup(s, id) by {
            if has_key(s, id) {
                let m = key_index(s, id);
                assert(t[m] == s[m]);
                lemma_lookup_at(s, m);
                lemma_lookup_at(t, m);
            } else {
                if has_key(t, id) {
                    let m = key_index(t, id);
                    assert(t[m].key_of() == id);
                    assert(m != s.len());
                    assert(s[m].key_of() == id);
                }
            }
        }
    }
}

/// A removal keeps ids unique, drops the id, and leaves every other id as it was.
pub proof fn lemma_remove_key<T: Keyed>(s: Seq<T>, id: u128)
    requires
        unique_keys(s),
    ensures
        unique_keys(remove_key(s, id)),
        lookup(remove_key(s, id), id) is None,
        forall|other: u128| other != id ==> #[trigger] lookup(remove_key(s, id), other) == lookup(
            s,
            other,
        ),
{
    let t = remove_key(s, id);
    if has_key(s, id) {
        let k = key_index(s, id);
        assert(s[k].key_of() == id);
        assert(t.len() == s.len() - 1);
        assert forall|i: int| 0 <= i < t.len() implies #[trigger] t[i] == (if i < k {
            s[i]
        } else {
            s[i + 1]
        }) by {}
        assert forall|i: int, j: int|
            0 <= i < t.len() && 0 <= j < t.len() && i != j implies #[trigger] t[i].key_of()
            != #[trigger] t[j].key_of() by {
            let si = if i < k { i } else { i + 1 };
            let sj = if j < k { j } else { j + 1 };
            assert(s[si].key_of() != s[sj].key_of());
        }
        if has_key(t, id) {
            let m = key_index(t, id);
            let sm = if m < k { m } else { m + 1 };
            assert(s[sm].key_of() == id);
            assert(false);
        }
        assert forall|other: u128| other != id implies #[trigger] lookup(t, other) == lookup(
            s,
            other,
        ) by {
            if has_key(s, other) {
                let m = key_index(s, other);
                assert(m != k);
                let tm = if m < k { m } else { m - 1 };
                assert(t[tm] == s[m]);
                lemma_lookup_at(s, m);
                lemma_lookup_at(t, tm);
            } else {
                if has_key(t, other) {
                    let m = key_index(t, other);
                    let sm = if m < k { m } else { m + 1 };
                    assert(s[sm].key_of() == other);
                }
            }
        }
    } else {
    }
}

/// Selecting records keeps their ids unique.
pub proof fn lemma_filter_unique<T: Keyed>(s: Seq<T>, keep: spec_fn(T) -> bool)
    requires
        unique_keys(s),
    ensures
        unique_keys(s.filter(keep)),
    decreases s.len(),
{
    reveal(Seq::filter);
    if s.len() > 0 {
        let t = s.drop_last();
        assert forall|i: int, j: int|
            0 <= i < t.len() && 0 <= j < t.len() && i != j implies #[trigger] t[i].key_of()
            != #[trigger] t[j].key_of() by {
            assert(t[i] == s[i] && t[j] == s[j]);
        }
        lemma_filter_unique(t, keep);
        let f = t.filter(keep);
        if keep(s.last()) {
            let g = f.push(s.last());
            assert forall|i: int, j: int|
                0 <= i < g.len() && 0 <= j < g.len() && i != j implies #[trigger] g[i].key_of()
                != #[trigger] g[j].key_of() by {
                if i == f.len() || j == f.len() {
                    let k = if i == f.len() { j } else { i };
                    broadcast use vstd::seq_lib::group_filter_ensures;
                    assert(f.contains(f[k]));
                    assert(t.filter(keep).contains(f[k]));
                    t.lemma_filter_contains_rev(keep, f[k]);
                    let m = choose|m: int| 0 <= m < t.len() && t[m] == f[k];
                    assert(s[m] == f[k]);
                    assert(s[s.len() - 1] == s.last());
                }
            }
        }
    }
}

/// Finds the position of the record with id `id`.
pub fn find_index<T: Keyed>(v: &Vec<T>, id: u128) -> (r: Option<usize>)
    ensures
        match r {
            Some(i) => i < v.len() && v@[i as int].key_of() == id && first_key_index(v@, id) == i,
            None => !has_key(v@, id),
        },
{
    let mut i: usize = 0;
    while i < v.len()
        invariant
            i <= v.len(),
            forall|j: int| 0 <= j < i ==> #[trigger] v@[j].key_of() != id,
        decreases v.len() - i,
    {
        if v[i].key() == id {
            proof {
                lemma_first_key_index(v@, i as int);
            }
            return Some(i);
        }
        i = i + 1;
    }
    None
}

/// Replaces the record with `r`'s id or appends `r`.
pub fn upsert_record<T: Keyed>(v: &mut Vec<T>, r: T)
    requires
        unique_keys(old(v)@),
    ensures
        final(v)@ == upsert(old(v)@, r),
        unique_keys(final(v)@),
{
    let ghost s = v@;
    let ghost rr = r;
    proof {
        lemma_upsert(s, r);
    }
    let id = r.key();
    match find_index(v, id) {
        Some(i) => {
            proof {
                lemma_lookup_at(s, i as int);
            }
            v.set(i, r);
        },
        None => {
            v.push(r);
        },
    }
}

/// Removes the record with id `id`; says whether one was there.
pub fn remove_record<T: Keyed>(v: &mut Vec<T>, id: u128) -> (removed: bool)
    requires
        unique_keys(old(v)@),
    ensures
        removed == has_key(old(v)@, id),
        final(v)@ == remove_key(old(v)@, id),
        unique_keys(final(v)@),
{
    let ghost s = v@;
    proof {
        lemma_remove_key(s, id);
    }
    match find_index(v, id) {
        Some(i) => {
            proof {
                lemma_lookup_at(s, i as int);
            }
            v.remove(i);
            true
        },
        None => false,
    }
}

/// Which owner field a relation `OwnedBy` reads.
pub const BY_SESSION: u8 = 0;

pub const BY_RUN: u8 = 1;

pub const BY_TASK: u8 = 2;

pub const BY_PLAN: u8 = 3;

pub const BY_DOCUMENT: u8 = 4;

/// A record that belongs to another record (a session, a run, a task, a
/// plan or a memory document), named by one of its fields; `FIELD` says
/// which.
pub trait OwnedBy<const FIELD: u8> {
    spec fn owner(&self) -> u128;

    fn get_owner(&self) -> (o: u128)
        ensures
            o == self.owner(),
    ;
}

pub open spec fn owner_is<const F: u8, T: OwnedBy<F>>(owner: u128) -> spec_fn(T) -> bool {
    |x: T| x.owner() == owner
}

pub open spec fn owner_is_not<const F: u8, T: OwnedBy<F>>(owner: u128) -> spec_fn(T) -> bool {
    |x: T| x.owner() != owner
}

pub open spec fn owner_not_in<const F: u8, T: OwnedBy<F>>(owners: Set<u128>) -> spec_fn(T) -> bool {
    |x: T| !owners.contains(x.owner())
}

pub open spec fn key_not_in<T: Keyed>(ids: Set<u128>) -> spec_fn(T) -> bool {
    |x: T| !ids.contains(x.key_of())
}

/// The records of `s` that belong to `owner`, in order.
pub open spec fn owned<const F: u8, T: OwnedBy<F>>(s: Seq<T>, owner: u128) -> Seq<T> {
    s.filter(owner_is::<F, T>(owner))
}

/// The records of `s` that do not belong to `owner`, in order.
pub open spec fn not_owned<const F: u8, T: OwnedBy<F>>(s: Seq<T>, owner: u128) -> Seq<T> {
    s.filter(owner_is_not::<F, T>(owner))
}

/// The records of `s` whose owner is not in `owners`, in order.
pub open spec fn not_owned_by_any<const F: u8, T: OwnedBy<F>>(s: Seq<T>, owners: Set<u128>) -> Seq<
    T,
> {
    s.filter(owner_not_in::<F, T>(owners))
}

/// The records of `s` whose id is not in `ids`, in order.
pub open spec fn without_keys<T: Keyed>(s: Seq<T>, ids: Set<u128>) -> Seq<T> {
    s.filter(key_not_in::<T>(ids))
}

/// Copies the records of `v` that belong to `owner`, in order; the element
/// type's `clone` must give back an equal value.
pub fn select_owned<const F: u8, T: OwnedBy<F> + Clone>(v: &Vec<T>, owner: u128) -> (r: Vec<T>)
    requires
        forall|a: T, b: T| #[trigger] cloned(a, b) ==> a == b,
    ensures
        r@ == owned::<F, T>(v@, owner),
{
    let ghost keep = owner_is::<F, T>(owner);
    let mut r: Vec<T> = Vec::new();
    let mut i: usize = 0;
    while i < v.len()
        invariant
            i <= v.len(),
            keep == owner_is::<F, T>(owner),
            r@ == v@.take(i as int).filter(keep),
            forall|a: T, b: T| #[trigger] cloned(a, b) ==> a == b,
        decreases v.len() - i,
    {
        proof {
            assert(v@.take(i + 1) =~= v@.take(i as int).push(v@[i as int]));
            v@.take(i as int).lemma_filter_push(v@[i as int], keep);
        }
        if v[i].get_owner() == owner {
            let c = v[i].clone();
            proof {
                assert(call_ensures(T::clone, (&v@[i as int],), c));
                assert(cloned(v@[i as int], c));
            }
            r.push(c);
        }
        i = i + 1;
    }
    proof {
        assert(v@.take(v.len() as int) =~= v@);
    }
    r
}

/// Keeps, in order, the records that do not belong to `owner`.
pub fn drop_owned<const F: u8, T: OwnedBy<F>>(v: Vec<T>, owner: u128) -> (r: Vec<T>)
    ensures
        r@ == not_owned::<F, T>(v@, owner),
{
    let ghost keep = owner_is_not::<F, T>(owner);
    let ghost orig = v@;
    let n = v.len();
    let mut rest = v;
    let mut r: Vec<T> = Vec::new();
    let mut k: usize = 0;
    proof {
        assert(orig.skip(0) =~= orig);
    }
    while rest.len() > 0
        invariant
            k <= orig.len(),
            orig.len() == n,
            keep == owner_is_not::<F, T>(owner),
            rest@ == orig.skip(k as int),
            r@ == orig.take(k as int).filter(keep),
        decreases rest.len(),
    {
        let x = rest.remove(0);
        proof {
            assert(x == orig[k as int]);
            assert(orig.take(k + 1) =~= orig.take(k as int).push(x));
            orig.take(k as int).lemma_filter_push(x, keep);
            assert(rest@ =~= orig.skip(k + 1));
        }
        if x.get_owner() != owner {
            r.push(x);
        }
        k = k + 1;
    }
    proof {
        assert(orig.take(k as int) =~= orig);
    }
    r
}

/// Keeps, in order, the records whose owner is not listed in `owners`.
pub fn drop_owned_by_any<const F: u8, T: OwnedBy<F>>(v: Vec<T>, owners: &Vec<u128>) -> (r: Vec<T>)
    ensures
        r@ == not_owned_by_any::<F, T>(v@, owners@.to_set()),
{
    let ghost keep = owner_not_in::<F, T>(owners@.to_set());
    let ghost orig = v@;
    let n = v.len();
    let mut rest = v;
    let mut r: Vec<T> = Vec::new();
    let mut k: usize = 0;
    proof {
        assert(orig.skip(0) =~= orig);
    }
    while rest.len() > 0
        invariant
            k <= orig.len(),
            orig.len() == n,
            keep == owner_not_in::<F, T>(owners@.to_set()),
            rest@ == orig.skip(k as int),
            r@ == orig.take(k as int).filter(keep),
        decreases rest.len(),
    {
        let x = rest.remove(0);
        proof {
            assert(x == orig[k as int]);
            assert(orig.take(k + 1) =~= orig.take(k as int).push(x));
            orig.take(k as int).lemma_filter_push(x, keep);
            assert(rest@ =~= orig.skip(k + 1));
        }
        if !contains_id(owners, x.get_owner()) {
            r.push(x);
        }
        k = k + 1;
    }
    proof {
        assert(orig.take(k as int) =~= orig);
    }
    r
}

/// Keeps, in order, the records whose id is not listed in `ids`.
pub fn drop_keys<T: Keyed>(v: Vec<T>, ids: &Vec<u128>) -> (r: Vec<T>)
    ensures
        r@ == without_keys(v@, ids@.to_set()),
{
    let ghost keep = key_not_in::<T>(ids@.to_set());
    let ghost orig = v@;
    let n = v.len();
    let mut rest = v;
    let mut r: Vec<T> = Vec::new();
    let mut k: usize = 0;
    proof {
        assert(orig.skip(0) =~= orig);
    }
    while rest.len() > 0
        invariant
            k <= orig.len(),
            orig.len() == n,
            keep == key_not_in::<T>(ids@.to_set()),
            rest@ == orig.skip(k as int),
            r@ == orig.take(k as int).filter(keep),
        decreases rest.len(),
    {
        let x = rest.remove(0);
        proof {
            assert(x == orig[k as int]);
            assert(orig.take(k + 1) =~= orig.take(k as int).push(x));
            orig.take(k as int).lemma_filter_push(x, keep);
            assert(rest@ =~= orig.skip(k + 1));
        }
        if !contains_id(ids, x.key()) {
            r.push(x);
        }
        k = k + 1;
    }
    proof {
        assert(orig.take(k as int) =~= orig);
    }
    r
}

/// Copies all records of `v`; the element type's `clone` must give back an
/// equal value.
pub fn clone_all<T: Clone>(v: &Vec<T>) -> (r: Vec<T>)
    requires
        forall|a: T, b: T| #[trigger] cloned(a, b) ==> a == b,
    ensures
        r@ == v@,
{
    let r = v.clone();
    proof {
        assert(r@ =~= v@);
    }
    r
}

/// Moves the records out of `v`, leaving it empty.
pub fn take_all<T>(v: &mut Vec<T>) -> (r: Vec<T>)
    ensures
        r@ == old(v)@,
        final(v)@.len() == 0,
{
    let mut r: Vec<T> = Vec::new();
    std::mem::swap(v, &mut r);
    r
}

/// Whether `id` occurs in `ids`.
pub fn contains_id(ids: &Vec<u128>, id: u128) -> (r: bool)
    ensures
        r == ids@.contains(id),
{
    let mut i: usize = 0;
    while i < ids.len()
        invariant
            i <= ids.len(),
            forall|j: int| 0 <= j < i ==> ids@[j] != id,
        decreases ids.len() - i,
    {
        if ids[i] == id {
            return true;
        }
        i = i + 1;
    }
    false
}

} // verus!
