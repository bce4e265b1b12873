//! Scanning text: where a pattern occurs, the words of a text, joining and
//! summarizing words, and decimal numerals.
use vstd::prelude::*;

use crate::text::{digit, digit_char, is_whitespace, is_ws, string_from_chars};

verus! {

/// `p` occurs in `s` starting at index `i`.
pub open spec fn occurs_at(s: Seq<char>, p: Seq<char>, i: int) -> bool {
    &&& 0 <= i
    &&& i + p.len() <= s.len()
    &&& s.subrange(i, i + p.len()) == p
}

/// `s` begins with `p`.
pub open spec fn starts_with(s: Seq<char>, p: Seq<char>) -> bool {
    occurs_at(s, p, 0)
}

/// The first index, from `i` on, where `p` occurs in `s`.
pub open spec fn first_occurrence_from(s: Seq<char>, p: Seq<char>, i: int) -> Option<int>
    decreases s.len() + 1 - i,
{
    if i < 0 || i + p.len() > s.len() {
        None
    } else if occurs_at(s, p, i) {
        Some(i)
    } else {
        first_occurrence_from(s, p, i + 1)
    }
}

/// The first index where `p` occurs in `s` (what `str::find` reports).
pub open spec fn first_occurrence(s: Seq<char>, p: Seq<char>) -> Option<int> {
    first_occurrence_from(s, p, 0)
}

/// The last index, at most `i`, where `p` occurs in `s`.
pub open spec fn last_occurrence_upto(s: Seq<char>, p: Seq<char>, i: int) -> Option<int>
    decreases i + 1,
{
    if i < 0 {
        None
    } else if occurs_at(s, p, i) {
        Some(i)
    } else {
        last_occurrence_upto(s, p, i - 1)
    }
}

/// The last index where `p` occurs in `s` (what `str::rfind` reports).
pub open spec fn last_occurrence(s: Seq<char>, p: Seq<char>) -> Option<int> {
    last_occurrence_upto(s, p, s.len() - p.len())
}

/// Whether `p` occurs in `v` at `i`.
pub fn matches_at(v: &[char], p: &[char], i: usize) -> (r: bool)
    ensures
        r == occurs_at(v@, p@, i as int),
{
    if p.len() > v.len() || i > v.len() - p.len() {
        return false;
    }
    let mut k: usize = 0;
    while k < p.len()
        invariant
            k <= p.len(),
            i + p.len() <= v.len(),
            forall|j: int| 0 <= j < k ==> v@[i + j] == p@[j],
        decreases p.len() - k,
    {
        if v[i + k] != p[k] {
            proof {
                assert(v@.subrange(i as int, i + p.len())[k as int] != p@[k as int]);
            }
            return false;
        }
        k = k + 1;
    }
    proof {
        assert(v@.subrange(i as int, i + p.len()) =~= p@);
    }
    true
}

/// The first index where `p` occurs in `v`.
pub fn find(v: &[char], p: &[char]) -> (r: Option<usize>)
    ensures
        match r {
            Some(i) => first_occurrence(v@, p@) == Some(i as int) && occurs_at(v@, p@, i as int),
            None => first_occurrence(v@, p@) is None,
        },
{
    if p.len() > v.len() {
        return None;
    }
    let last = v.len() - p.len();
    let mut i: usize = 0;
    loop
        invariant
            last + p.len() == v.len(),
            i <= last,
            first_occurrence(v@, p@) == first_occurrence_from(v@, p@, i as int),
        decreases last - i,
    {
        if matches_at(v, p, i) {
            return Some(i);
        }
        if i == last {
            proof {
                assert(first_occurrence_from(v@, p@, i + 1) is None);
            }
            return None;
        }
        i = i + 1;
    }
}

/// The last index where `p` occurs in `v`.
pub fn rfind(v: &[char], p: &[char]) -> (r: Option<usize>)
    ensures
        match r {
            Some(i) => last_occurrence(v@, p@) == Some(i as int) && occurs_at(v@, p@, i as int),
            None => last_occurrence(v@, p@) is None,
        },
{
    if p.len() > v.len() {
        return None;
    }
    let mut i: usize = v.len() - p.len();
    loop
        invariant
            i + p.len() <= v.len(),
            last_occurrence(v@, p@) == last_occurrence_upto(v@, p@, i as int),
        decreases i,
    {
        if matches_at(v, p, i) {
            return Some(i);
        }
        if i == 0 {
            proof {
                assert(last_occurrence_upto(v@, p@, -1) is None);
            }
            return None;
        }
        i = i - 1;
    }
}

/// The words of `s` after a word `cur` already begun: the maximal runs of
/// characters that are not white space.
pub open spec fn words_from(s: Seq<char>, cur: Seq<char>) -> Seq<Seq<char>>
    decreases s.len(),
{
    if s.len() == 0 {
        if cur.len() == 0 {
            Seq::empty()
        } else {
            seq![cur]
        }
    } else if is_ws(s[0]) {
        if cur.len() == 0 {
            words_from(s.drop_first(), cur)
        } else {
            seq![cur] + words_from(s.drop_first(), Seq::empty())
        }
    } else {
        words_from(s.drop_first(), cur.push(s[0]))
    }
}

/// The words of `s`, as `str::split_whitespace` yields them.
pub open spec fn words(s: Seq<char>) -> Seq<Seq<char>> {
    words_from(s, Seq::empty())
}

/// `parts` joined with single spaces.
pub open spec fn join_spaced(parts: Seq<Seq<char>>) -> Seq<char>
    decreases parts.len(),
{
    if parts.len() == 0 {
        Seq::empty()
    } else if parts.len() == 1 {
        parts[0]
    } else {
        join_spaced(parts.drop_last()) + seq![' '] + parts.last()
    }
}

/// The words of `v`.
pub fn split_words(v: &[char]) -> (r: Vec<Vec<char>>)
    ensures
        r@.map_values(|w: Vec<char>| w@) == words(v@),
{
    let mut done: Vec<Vec<char>> = Vec::new();
    let mut cur: Vec<char> = Vec::new();
    let mut i: usize = 0;
    proof {
        assert(v@.skip(0) =~= v@);
        assert(done@.map_values(|w: Vec<char>| w@) =~= Seq::<Seq<char>>::empty());
        assert(cur@ =~= Seq::<char>::empty());
    }
    while i < v.len()
        invariant
            i <= v.len(),
            words(v@) == done@.map_values(|w: Vec<char>| w@) + words_from(
                v@.skip(i as int),
                cur@,
            ),
        decreases v.len() - i,
    {
        let ghost rest = v@.skip(i as int);
        proof {
            assert(rest[0] == v@[i as int]);
            assert(rest.drop_first() =~= v@.skip(i + 1));
        }
        if is_whitespace(v[i]) {
            if cur.len() > 0 {
                let ghost before = done@.map_values(|w: Vec<char>| w@);
                let word = cur;
                cur = Vec::new();
                done.push(word);
                proof {
                    assert(done@.map_values(|w: Vec<char>| w@) =~= before.push(word@));
                    assert(before + (seq![word@] + words_from(v@.skip(i + 1), Seq::empty()))
                        =~= before.push(word@) + words_from(v@.skip(i + 1), cur@));
                }
            }
        } else {
            cur.push(v[i]);
        }
        i = i + 1;
    }
    proof {
        assert(v@.skip(i as int).len() == 0);
    }
    if cur.len() > 0 {
        let ghost before = done@.map_values(|w: Vec<char>| w@);
        done.push(cur);
        proof {
            assert(done@.map_values(|w: Vec<char>| w@) =~= before + words_from(
                v@.skip(i as int),
                Seq::empty(),
            ).push(done@.last()@));
        }
    } else {
        proof {
            assert(done@.map_values(|w: Vec<char>| w@) =~= done@.map_values(|w: Vec<char>| w@)
                + words_from(v@.skip(i as int), cur@));
        }
    }
    done
}

/// Appends the characters of `s` to `v`.
pub fn push_all(v: &mut Vec<char>, s: &[char])
    ensures
        final(v)@ == old(v)@ + s@,
{
    let mut k: usize = 0;
    while k < s.len()
        invariant
            k <= s.len(),
            v@ == old(v)@ + s@.take(k as int),
        decreases s.len() - k,
    {
        v.push(s[k]);
        proof {
            assert(s@.take(k + 1) =~= s@.take(k as int).push(s@[k as int]));
        }
        k = k + 1;
    }
    proof {
        assert(s@.take(s.len() as int) =~= s@);
    }
}

/// The first `n` of `parts` joined with single spaces.
pub fn join_first(parts: &Vec<Vec<char>>, n: usize) -> (r: Vec<char>)
    requires
        n <= parts.len(),
    ensures
        r@ == join_spaced(parts@.map_values(|w: Vec<char>| w@).take(n as int)),
{
    let ghost all = parts@.map_values(|w: Vec<char>| w@);
    let mut out: Vec<char> = Vec::new();
    let mut i: usize = 0;
    while i < n
        invariant
            i <= n <= parts.len(),
            all == parts@.map_values(|w: Vec<char>| w@),
            out@ == join_spaced(all.take(i as int)),
        decreases n - i,
    {
        proof {
            assert(all.take(i + 1).drop_last() =~= all.take(i as int));
            assert(all.take(i + 1).last() == parts@[i as int]@);
        }
        if i > 0 {
            out.push(' ');
        }
        let ghost mid = out@;
        push_all(&mut out, parts[i].as_slice());
        proof {
            if i > 0 {
                assert(out@ =~= join_spaced(all.take(i as int)) + seq![' '] + parts@[i as int]@);
            } else {
                assert(out@ =~= parts@[i as int]@);
            }
        }
        i = i + 1;
    }
    out
}

/// The summary of a text in at most `max_words` words: its first words
/// joined by single spaces, followed by `...` when words were left out.
pub open spec fn summary_of(text: Seq<char>, max_words: nat) -> Seq<char> {
    let ws = words(text);
    if ws.len() <= max_words {
        join_spaced(ws)
    } else {
        join_spaced(ws.take(max_words as int)) + seq!['.', '.', '.']
    }
}

/// Summarizes `text` in at most `max_words` words.
pub fn summarize_text(text: &str, max_words: usize) -> (r: String)
    ensures
        r@ == summary_of(text@, max_words as nat),
{
    let chars = crate::text::chars_of(text);
    let ws = split_words(chars.as_slice());
    let ghost all = ws@.map_values(|w: Vec<char>| w@);
    if ws.len() <= max_words {
        let joined = join_first(&ws, ws.len());
        proof {
            assert(all.take(ws.len() as int) =~= all);
        }
        string_from_chars(joined.as_slice())
    } else {
        let mut joined = join_first(&ws, max_words);
        joined.push('.');
        joined.push('.');
        joined.push('.');
        proof {
            assert(joined@ =~= join_spaced(all.take(max_words as int)) + seq!['.', '.', '.']);
        }
        string_from_chars(joined.as_slice())
    }
}

/// The decimal numeral of `n`, as `Display` writes an unsigned integer.
pub open spec fn decimal(n: nat) -> Seq<char>
    decreases n,
{
    if n < 10 {
        seq![digit_char(n as int)]
    } else {
        decimal(n / 10).push(digit_char((n % 10) as int))
    }
}

fn decimal_chars(n: u64) -> (r: Vec<char>)
    ensures
        r@ == decimal(n as nat),
    decreases n,
{
    if n < 10 {
        vec![digit(n)]
    } else {
        let mut v = decimal_chars(n / 10);
        v.push(digit(n % 10));
        v
    }
}

/// The decimal numeral of `n`.
pub fn decimal_string(n: u64) -> (r: String)
    ensures
        r@ == decimal(n as nat),
{
    let v = decimal_chars(n);
    string_from_chars(v.as_slice())
}

} // verus!
