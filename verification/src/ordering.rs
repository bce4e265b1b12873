//! Sorting of record lists: newest first by a timestamp, or by name.
use vstd::prelude::*;
use vstd::relations::sorted_by;
use vstd::multiset::Multiset;

verus! {

broadcast use {vstd::seq_lib::group_to_multiset_ensures, vstd::multiset::group_multiset_axioms};

/// A record listed newest first by one of its timestamps.
pub trait Ranked {
    spec fn rank(&self) -> int;

    fn get_rank(&self) -> (k: i128)
        ensures
            k == self.rank(),
    ;
}

/// A record listed by its name.
pub trait Named {
    spec fn name_view(&self) -> Seq<char>;

    fn name_ref(&self) -> (n: &String)
        ensures
            n@ == self.name_view(),
    ;
}

/// Newest first: `a` may precede `b` when its rank is at least `b`'s.
pub open spec fn by_rank_desc<T: Ranked>() -> spec_fn(T, T) -> bool {
    |a: T, b: T| a.rank() >= b.rank()
}

/// Lexicographic order on character sequences, by code point; this is the
/// order of Rust's `str` comparison.
pub open spec fn lex_le(a: Seq<char>, b: Seq<char>) -> bool
    decreases a.len(),
{
    if a.len() == 0 {
        true
    } else if b.len() == 0 {
        false
    } else if a[0] != b[0] {
        (a[0] as int) < (b[0] as int)
    } else {
        lex_le(a.drop_first(), b.drop_first())
    }
}

/// By name: `a` may precede `b` when its name is not greater.
pub open spec fn by_name<T: Named>() -> spec_fn(T, T) -> bool {
    |a: T, b: T| lex_le(a.name_view(), b.name_view())
}

pub proof fn lemma_lex_total(a: Seq<char>, b: Seq<char>)
    ensures
        lex_le(a, b) || lex_le(b, a),
    decreases a.len(),
{
    if a.len() > 0 && b.len() > 0 {
        if a[0] == b[0] {
            lemma_lex_total(a.drop_first(), b.drop_first());
        } else {
            assert((a[0] as int) != (b[0] as int));
        }
    }
}

pub proof fn lemma_lex_trans(a: Seq<char>, b: Seq<char>, c: Seq<char>)
    requires
        lex_le(a, b),
        lex_le(b, c),
    ensures
        lex_le(a, c),
    decreases a.len(),
{
    if a.len() > 0 && b.len() > 0 && c.len() > 0 && a[0] == b[0] && b[0] == c[0] {
        lemma_lex_trans(a.drop_first(), b.drop_first(), c.drop_first());
    }
}

/// Compares two strings as Rust's `str` order does: `a <= b`.
pub fn str_le(a: &str, b: &str) -> (r: bool)
    ensures
        r == lex_le(a@, b@),
{
    let n = a.unicode_len();
    let m = b.unicode_len();
    let mut i: usize = 0;
    proof {
        assert(a@.skip(0) =~= a@);
        assert(b@.skip(0) =~= b@);
    }
    while i < n && i < m
        invariant
            n == a@.len(),
            m == b@.len(),
            i <= n,
            i <= m,
            a@.subrange(0, i as int) == b@.subrange(0, i as int),
            lex_le(a@, b@) == lex_le(a@.skip(i as int), b@.skip(i as int)),
        decreases n - i,
    {
        let x = a.get_char(i);
        let y = b.get_char(i);
        if x != y {
            proof {
                assert(a@.skip(i as int)[0] == x);
                assert(b@.skip(i as int)[0] == y);
            }
            return x < y;
        }
        proof {
            assert(a@.skip(i as int).drop_first() =~= a@.skip(i + 1));
            assert(b@.skip(i as int).drop_first() =~= b@.skip(i + 1));
            assert(a@.subrange(0, i + 1) =~= a@.subrange(0, i as int).push(x));
            assert(b@.subrange(0, i + 1) =~= b@.subrange(0, i as int).push(y));
        }
        i = i + 1;
    }
    proof {
        if i == n {
            assert(a@.skip(i as int).len() == 0);
        } else {
            assert(b@.skip(i as int).len() == 0);
        }
    }
    i == n
}

/// Rearranging a sequence rearranges its image under `f` the same way.
pub proof fn lemma_multiset_map<A, B>(s: Seq<A>, t: Seq<A>, f: spec_fn(A) -> B)
    requires
        s.to_multiset() == t.to_multiset(),
    ensures
        s.map_values(f).to_multiset() == t.map_values(f).to_multiset(),
    decreases s.len(),
{
    if s.len() == 0 {
        assert(s.to_multiset().len() == s.len());
        assert(t.to_multiset().len() == t.len());
        assert(t.len() == 0);
        assert(s.map_values(f) =~= Seq::<B>::empty());
        assert(t.map_values(f) =~= Seq::<B>::empty());
    } else {
        let x = s.last();
        let s1 = s.drop_last();
        assert(s =~= s1.push(x));
        assert(s.to_multiset().count(x) > 0);
        assert(t.contains(x));
        let k = choose|k: int| 0 <= k < t.len() && t[k] == x;
        let t1 = t.remove(k);
        assert(s1.to_multiset() =~= t1.to_multiset());
        lemma_multiset_map(s1, t1, f);
        assert(s.map_values(f) =~= s1.map_values(f).push(f(x)));
        assert(t.map_values(f) =~= t1.map_values(f).insert(k, f(x)));
    }
}

/// The records of `s` whose rank is `k`, in their order in `s`.
pub open spec fn of_rank<T: Ranked>(s: Seq<T>, k: int) -> Seq<T> {
    s.filter(|x: T| x.rank() == k)
}

/// Records of equal rank come in `r` in the order they have in `v`.
pub open spec fn ties_in_order<T: Ranked>(r: Seq<T>, v: Seq<T>) -> bool {
    forall|k: int| #[trigger] of_rank(r, k) == of_rank(v, k)
}

proof fn lemma_none_of_rank<T: Ranked>(s: Seq<T>, k: int)
    requires
        forall|i: int| 0 <= i < s.len() ==> #[trigger] s[i].rank() != k,
    ensures
        of_rank(s, k) == Seq::<T>::empty(),
    decreases s.len(),
{
    reveal(Seq::filter);
    if s.len() > 0 {
        lemma_none_of_rank(s.drop_last(), k);
        assert(s.last() == s[s.len() - 1]);
    }
}

/// Inserting `x` after every record of rank at least its own adds `x` last
/// among the records of its rank and leaves the other ranks as they were.
proof fn lemma_stable_insert<T: Ranked>(s: Seq<T>, j: int, x: T, k: int)
    requires
        0 <= j <= s.len(),
        forall|i: int| j <= i < s.len() ==> #[trigger] s[i].rank() < x.rank(),
    ensures
        of_rank(s.insert(j, x), k) == if k == x.rank() {
            of_rank(s, k).push(x)
        } else {
            of_rank(s, k)
        },
{
    let p = |y: T| y.rank() == k;
    let a = s.take(j);
    let b = s.skip(j);
    assert(s.insert(j, x) =~= a + seq![x] + b);
    assert(s =~= a + b);
    Seq::filter_distributes_over_add(a + seq![x], b, p);
    Seq::filter_distributes_over_add(a, seq![x], p);
    Seq::filter_distributes_over_add(a, b, p);
    reveal_with_fuel(Seq::filter, 2);
    assert(seq![x].drop_last() =~= Seq::<T>::empty());
    if k == x.rank() {
        assert forall|i: int| 0 <= i < b.len() implies #[trigger] b[i].rank() != k by {
            assert(b[i] == s[i + j]);
        }
        lemma_none_of_rank(b, k);
        assert(a.filter(p) + seq![x] + Seq::<T>::empty() =~= (a.filter(p) + Seq::<T>::empty()).push(x));
    } else {
        assert(a.filter(p) + Seq::<T>::empty() + b.filter(p) =~= a.filter(p) + b.filter(p));
    }
}

/// Sorts records newest first (largest rank first); records of equal rank
/// keep their order (the sort is stable).
pub fn sort_by_rank_desc<T: Ranked>(v: Vec<T>) -> (r: Vec<T>)
    ensures
        r@.to_multiset() == v@.to_multiset(),
        sorted_by(r@, by_rank_desc::<T>()),
        ties_in_order(r@, v@),
{
    let ghost orig = v@;
    let mut input = v;
    let mut out: Vec<T> = Vec::new();
    proof {
        assert(out@.to_multiset() =~= Multiset::<T>::empty());
        assert(orig.take(0) =~= Seq::<T>::empty());
        assert forall|k: int| #[trigger] of_rank(out@, k) == of_rank(orig.take(0), k) by {
            assert(out@ =~= orig.take(0));
        }
        assert(orig.skip(0) =~= orig);
    }
    while input.len() > 0
        invariant
            out@.to_multiset().add(input@.to_multiset()) == orig.to_multiset(),
            sorted_by(out@, by_rank_desc::<T>()),
            input@.len() <= orig.len(),
            input@ == orig.skip(orig.len() - input@.len()),
            forall|k: int| #[trigger] of_rank(out@, k) == of_rank(orig.take(orig.len() - input@.len()), k),
        decreases input.len(),
    {
        let ghost before = input@;
        let ghost done = orig.take(orig.len() - before.len());
        let x = input.remove(0);
        proof {
            assert(before =~= seq![x] + input@);
            assert(input@ =~= orig.skip(orig.len() - input@.len()));
            assert(orig.take(orig.len() - input@.len()) =~= done.push(x));
        }
        let k = x.get_rank();
        let mut j: usize = 0;
        while j < out.len() && out[j].get_rank() >= k
            invariant
                j <= out.len(),
                forall|i: int| 0 <= i < j ==> #[trigger] out@[i].rank() >= x.rank(),
                k == x.rank(),
            decreases out.len() - j,
        {
            j = j + 1;
        }
        let ghost prev = out@;
        proof {
            assert forall|i: int| j <= i < prev.len() implies #[trigger] prev[i].rank() < x.rank() by {
                assert(!(prev[j as int].rank() >= x.rank()));
                if i > j {
                    assert(by_rank_desc::<T>()(prev[j as int], prev[i]));
                }
            }
        }
        out.insert(j, x);
        proof {
            assert(out@ =~= prev.insert(j as int, x));
            assert forall|a: int, b: int| 0 <= a < b < out@.len() implies #[trigger] by_rank_desc::<T>()(
                out@[a],
                out@[b],
            ) by {
                if b < j {
                    assert(by_rank_desc::<T>()(prev[a], prev[b]));
                } else if a < j && b == j {
                } else if a < j && b > j {
                    assert(by_rank_desc::<T>()(prev[a], prev[b - 1]));
                } else if a == j {
                    assert(prev[b - 1].rank() < x.rank());
                } else {
                    assert(by_rank_desc::<T>()(prev[a - 1], prev[b - 1]));
                }
            }
            assert(out@.to_multiset() == prev.to_multiset().insert(x));
            assert(before.to_multiset() == input@.to_multiset().insert(x)) by {
                assert(before =~= input@.insert(0, x));
            }
            assert(out@.to_multiset().add(input@.to_multiset()) =~= prev.to_multiset().add(
                before.to_multiset(),
            ));
            assert forall|kk: int| #[trigger] of_rank(out@, kk) == of_rank(
                orig.take(orig.len() - input@.len()),
                kk,
            ) by {
                lemma_stable_insert(prev, j as int, x, kk);
                reveal(Seq::filter);
                assert(done.push(x).drop_last() =~= done);
            }
        }
    }
    proof {
        assert(input@.to_multiset() =~= Multiset::<T>::empty());
        assert(out@.to_multiset().add(input@.to_multiset()) =~= out@.to_multiset());
        assert(orig.take(orig.len() as int) =~= orig);
    }
    out
}

/// Sorts records by name, in `str` order; equal names may come in any order.
pub fn sort_by_name<T: Named>(v: Vec<T>) -> (r: Vec<T>)
    ensures
        r@.to_multiset() == v@.to_multiset(),
        sorted_by(r@, by_name::<T>()),
{
    let ghost orig = v@;
    let mut input = v;
    let mut out: Vec<T> = Vec::new();
    proof {
        assert(out@.to_multiset() =~= Multiset::<T>::empty());
    }
    while input.len() > 0
        invariant
            out@.to_multiset().add(input@.to_multiset()) == orig.to_multiset(),
            sorted_by(out@, by_name::<T>()),
        decreases input.len(),
    {
        let ghost before = input@;
        let x = input.pop().unwrap();
        proof {
            assert(before =~= input@.push(x));
        }
        let mut j: usize = 0;
        while j < out.len() && str_le(out[j].name_ref().as_str(), x.name_ref().as_str())
            invariant
                j <= out.len(),
                forall|i: int| 0 <= i < j ==> #[trigger] by_name::<T>()(out@[i], x),
            decreases out.len() - j,
        {
            j = j + 1;
        }
        let ghost prev = out@;
        out.insert(j, x);
        proof {
            assert(out@ =~= prev.insert(j as int, x));
            assert forall|a: int, b: int| 0 <= a < b < out@.len() implies #[trigger] by_name::<T>()(
                out@[a],
                out@[b],
            ) by {
                if b < j {
                    assert(by_name::<T>()(prev[a], prev[b]));
                } else if a < j && b == j {
                } else if a < j && b > j {
                    assert(by_name::<T>()(prev[a], prev[b - 1]));
                } else if a == j {
                    lemma_lex_total(prev[j as int].name_view(), x.name_view());
                    if b - 1 > j {
                        assert(by_name::<T>()(prev[j as int], prev[b - 1]));
                        lemma_lex_trans(
                            x.name_view(),
                            prev[j as int].name_view(),
                            prev[b - 1].name_view(),
                        );
                    }
                } else {
                    assert(by_name::<T>()(prev[a - 1], prev[b - 1]));
                }
            }
            assert(out@.to_multiset() == prev.to_multiset().insert(x));
            assert(before.to_multiset() == input@.to_multiset().insert(x));
            assert(out@.to_multiset().add(input@.to_multiset()) =~= prev.to_multiset().add(
                before.to_multiset(),
            ));
        }
    }
    proof {
        assert(input@.to_multiset() =~= Multiset::<T>::empty());
        assert(out@.to_multiset().add(input@.to_multiset()) =~= out@.to_multiset());
    }
    out
}

} // verus!
