//! The keys a record is reachable by, and the index that a sequence of
//! records gives when each one is added in turn.
use vstd::prelude::*;

use crate::record::{ALIAS_SYMBOL, NUM_COLUMNS, PREV_SYMBOL, SYMBOL};
use crate::text::{ascii_upper, ascii_upper_char, is_ascii_seq, normalize, split_on, trim_of};

verus! {

/// Adds each non-empty trimmed piece of `segs`, normalised, as a key of `pos`.
pub open spec fn insert_segments(m: Map<Seq<char>, int>, segs: Seq<Seq<char>>, pos: int) -> Map<
    Seq<char>,
    int,
>
    decreases segs.len(),
{
    if segs.len() == 0 {
        m
    } else {
        let m0 = insert_segments(m, segs.drop_last(), pos);
        let t = trim_of(segs.last());
        if t.len() == 0 {
            m0
        } else {
            m0.insert(normalize(t), pos)
        }
    }
}

/// Adds the keys of record `rec` at position `pos`: its symbol, then its
/// aliases, then its previous symbols, later keys overwriting earlier ones.
pub open spec fn insert_record_keys(m: Map<Seq<char>, int>, rec: Seq<Seq<char>>, pos: int) -> Map<
    Seq<char>,
    int,
> {
    let m1 = m.insert(normalize(rec[SYMBOL as int]), pos);
    let m2 = insert_segments(m1, split_on(rec[ALIAS_SYMBOL as int], '|'), pos);
    insert_segments(m2, split_on(rec[PREV_SYMBOL as int], '|'), pos)
}

/// The index of a record sequence: keys of each record in order, the
/// record added later winning a shared key.
pub open spec fn index_of(recs: Seq<Seq<Seq<char>>>) -> Map<Seq<char>, int>
    decreases recs.len(),
{
    if recs.len() == 0 {
        Map::empty()
    } else {
        insert_record_keys(index_of(recs.drop_last()), recs.last(), recs.len() - 1)
    }
}

/// `k` is one of the keys that a piece of `segs` gives.
pub open spec fn segments_give(segs: Seq<Seq<char>>, k: Seq<char>) -> bool {
    exists|i: int|
        0 <= i < segs.len() && trim_of(#[trigger] segs[i]).len() > 0 && normalize(trim_of(segs[i]))
            == k
}

/// `k` is a key of record `rec`.
pub open spec fn record_has_key(rec: Seq<Seq<char>>, k: Seq<char>) -> bool {
    ||| normalize(rec[SYMBOL as int]) == k
    ||| segments_give(split_on(rec[ALIAS_SYMBOL as int], '|'), k)
    ||| segments_give(split_on(rec[PREV_SYMBOL as int], '|'), k)
}

proof fn lemma_insert_segments(m: Map<Seq<char>, int>, segs: Seq<Seq<char>>, pos: int, k: Seq<char>)
    ensures
        insert_segments(m, segs, pos).contains_key(k) <==> (m.contains_key(k) || segments_give(
            segs,
            k,
        )),
        segments_give(segs, k) ==> insert_segments(m, segs, pos)[k] == pos,
        !segments_give(segs, k) && m.contains_key(k) ==> insert_segments(m, segs, pos)[k] == m[k],
    decreases segs.len(),
{
    if segs.len() > 0 {
        let d = segs.drop_last();
        lemma_insert_segments(m, d, pos, k);
        if segments_give(segs, k) {
            let i = choose|i: int|
                0 <= i < segs.len() && trim_of(#[trigger] segs[i]).len() > 0 && normalize(
                    trim_of(segs[i]),
                ) == k;
            if i < segs.len() - 1 {
                assert(d[i] == segs[i]);
            }
        }
        if segments_give(d, k) {
            let i = choose|i: int|
                0 <= i < d.len() && trim_of(#[trigger] d[i]).len() > 0 && normalize(trim_of(d[i]))
                    == k;
            assert(segs[i] == d[i]);
        }
    }
}

proof fn lemma_insert_record_keys(m: Map<Seq<char>, int>, rec: Seq<Seq<char>>, pos: int, k: Seq<char>)
    ensures
        insert_record_keys(m, rec, pos).contains_key(k) <==> (m.contains_key(k) || record_has_key(
            rec,
            k,
        )),
        record_has_key(rec, k) ==> insert_record_keys(m, rec, pos)[k] == pos,
        !record_has_key(rec, k) && m.contains_key(k) ==> insert_record_keys(m, rec, pos)[k] == m[k],
{
    let m1 = m.insert(normalize(rec[SYMBOL as int]), pos);
    let a = split_on(rec[ALIAS_SYMBOL as int], '|');
    let m2 = insert_segments(m1, a, pos);
    lemma_insert_segments(m1, a, pos, k);
    lemma_insert_segments(m2, split_on(rec[PREV_SYMBOL as int], '|'), pos, k);
}

/// Last write wins: a key is in the index exactly when some record has it,
/// and then it resolves to the last record in the sequence that has it.
pub proof fn lemma_index_last_write_wins(recs: Seq<Seq<Seq<char>>>, k: Seq<char>)
    ensures
        index_of(recs).contains_key(k) <==> exists|i: int|
            0 <= i < recs.len() && record_has_key(#[trigger] recs[i], k),
        index_of(recs).contains_key(k) ==> {
            let p = index_of(recs)[k];
            &&& 0 <= p < recs.len()
            &&& record_has_key(recs[p], k)
            &&& forall|j: int| p < j < recs.len() ==> !record_has_key(#[trigger] recs[j], k)
        },
    decreases recs.len(),
{
    if recs.len() > 0 {
        let d = recs.drop_last();
        lemma_index_last_write_wins(d, k);
        lemma_insert_record_keys(index_of(d), recs.last(), recs.len() - 1, k);
        if exists|i: int| 0 <= i < d.len() && record_has_key(#[trigger] d[i], k) {
            let i = choose|i: int| 0 <= i < d.len() && record_has_key(#[trigger] d[i], k);
            assert(recs[i] == d[i]);
        }
        if exists|i: int| 0 <= i < recs.len() && record_has_key(#[trigger] recs[i], k) {
            let i = choose|i: int| 0 <= i < recs.len() && record_has_key(#[trigger] recs[i], k);
            if i < recs.len() - 1 {
                assert(d[i] == recs[i]);
            }
        }
        if index_of(recs).contains_key(k) && !record_has_key(recs.last(), k) {
            let p = index_of(recs)[k];
            assert(recs[p] == d[p]);
            assert forall|j: int| p < j < recs.len() implies !record_has_key(
                #[trigger] recs[j],
                k,
            ) by {
                if j < recs.len() - 1 {
                    assert(recs[j] == d[j]);
                }
            }
        }
    }
}

/// Every position in the index of a record sequence names one of its records.
pub proof fn lemma_index_positions_valid(recs: Seq<Seq<Seq<char>>>)
    ensures
        forall|k: Seq<char>|
            #[trigger] index_of(recs).contains_key(k) ==> 0 <= index_of(recs)[k] < recs.len(),
{
    assert forall|k: Seq<char>| #[trigger] index_of(recs).contains_key(k) implies 0 <= index_of(
        recs,
    )[k] < recs.len() by {
        lemma_index_last_write_wins(recs, k);
    }
}

/// `a` and `b` differ at most in the case of ASCII letters.
pub open spec fn same_ignoring_ascii_case(a: Seq<char>, b: Seq<char>) -> bool {
    &&& a.len() == b.len()
    &&& forall|i: int| 0 <= i < a.len() ==> ascii_upper_char(#[trigger] a[i]) == ascii_upper_char(b[i])
}

/// Case does not matter: an ASCII query that differs from a record's ASCII
/// symbol only in letter case finds a key, the same one the symbol finds.
pub proof fn lemma_case_insensitive(recs: Seq<Seq<Seq<char>>>, i: int, q: Seq<char>)
    requires
        0 <= i < recs.len(),
        recs[i].len() == NUM_COLUMNS,
        is_ascii_seq(recs[i][SYMBOL as int]),
        is_ascii_seq(q),
        same_ignoring_ascii_case(q, recs[i][SYMBOL as int]),
    ensures
        normalize(q) == normalize(recs[i][SYMBOL as int]),
        index_of(recs).contains_key(normalize(q)),
        index_of(recs)[normalize(q)] == index_of(recs)[normalize(recs[i][SYMBOL as int])],
{
    let s = recs[i][SYMBOL as int];
    assert(ascii_upper(q) =~= ascii_upper(s));
    assert(record_has_key(recs[i], normalize(s)));
    lemma_index_last_write_wins(recs, normalize(s));
}

} // verus!
