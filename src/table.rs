//! Reading the tab-delimited table: columns are found by header name.
use vstd::prelude::*;

use crate::cache::HgncCache;
use crate::error::ParseError;
use crate::index::index_of;
use crate::record::{column_name, column_name_spec, HgncRecord, NUM_COLUMNS};
use crate::text::{split, split_on, views};

verus! {

/// Position of the last header equal to `name`, or -1 when there is none.
/// A repeated header name resolves to its last occurrence.
pub open spec fn last_pos(h: Seq<Seq<char>>, name: Seq<char>) -> int
    decreases h.len(),
{
    if h.len() == 0 {
        -1
    } else if h.last() == name {
        h.len() - 1
    } else {
        last_pos(h.drop_last(), name)
    }
}

/// The value of column `name` in `row`: empty when the header lacks the
/// column or the row is too short to reach it.
pub open spec fn cell(h: Seq<Seq<char>>, row: Seq<Seq<char>>, name: Seq<char>) -> Seq<char> {
    let p = last_pos(h, name);
    if 0 <= p < row.len() {
        row[p]
    } else {
        Seq::empty()
    }
}

/// The record that a data row gives under header `h`.
pub open spec fn record_of(h: Seq<Seq<char>>, row: Seq<Seq<char>>) -> Seq<Seq<char>> {
    Seq::new(NUM_COLUMNS as nat, |k: int| cell(h, row, column_name_spec(k)))
}

/// The fields of one line.
pub open spec fn row_of(line: Seq<char>) -> Seq<Seq<char>> {
    split_on(line, '\t')
}

/// The records that the data lines of a table give, in order; the first
/// line is the header.
pub open spec fn records_of(lines: Seq<Seq<char>>) -> Seq<Seq<Seq<char>>> {
    Seq::new(
        (if lines.len() == 0 { 0 } else { lines.len() - 1 }) as nat,
        |i: int| record_of(row_of(lines[0]), row_of(lines[i + 1])),
    )
}

proof fn lemma_last_pos_bounds(h: Seq<Seq<char>>, name: Seq<char>)
    ensures
        -1 <= last_pos(h, name) < h.len(),
        0 <= last_pos(h, name) ==> h[last_pos(h, name)] == name,
    decreases h.len(),
{
    if h.len() > 0 && h.last() != name {
        lemma_last_pos_bounds(h.drop_last(), name);
    }
}

proof fn lemma_missing_column_is_empty(h: Seq<Seq<char>>, row: Seq<Seq<char>>, name: Seq<char>)
    requires
        !h.contains(name),
    ensures
        cell(h, row, name) == Seq::<char>::empty(),
{
    lemma_last_pos_bounds(h, name);
    if last_pos(h, name) >= 0 {
        assert(h[last_pos(h, name)] == name);
    }
}

/// A column that the header line does not name is no error: every record
/// of the table holds the empty string there.
pub proof fn lemma_missing_column_tolerated(lines: Seq<Seq<char>>, k: int)
    requires
        lines.len() > 0,
        0 <= k < NUM_COLUMNS,
        !row_of(lines[0]).contains(column_name_spec(k)),
    ensures
        forall|i: int|
            0 <= i < records_of(lines).len() ==> (#[trigger] records_of(lines)[i])[k]
                == Seq::<char>::empty(),
{
    assert forall|i: int| 0 <= i < records_of(lines).len() implies (#[trigger] records_of(
        lines,
    )[i])[k] == Seq::<char>::empty() by {
        lemma_missing_column_is_empty(row_of(lines[0]), row_of(lines[i + 1]), column_name_spec(k));
    }
}

/// Position of the last header equal to `name`.
fn header_position(header: &Vec<String>, name: &String) -> (r: Option<usize>)
    ensures
        match r {
            Some(p) => last_pos(views(header@), name@) == p,
            None => last_pos(views(header@), name@) == -1,
        },
{
    let ghost h = views(header@);
    let mut i: usize = header.len();
    assert(h.take(i as int) =~= h);
    while i > 0
        invariant
            i <= header@.len(),
            h == views(header@),
            last_pos(h, name@) == last_pos(h.take(i as int), name@),
        decreases i,
    {
        assert(h.take(i as int).drop_last() =~= h.take(i - 1));
        if header[i - 1] == *name {
            return Some(i - 1);
        }
        i = i - 1;
    }
    None
}

/// For each column of a record, where the header places it.
pub open spec fn positions_match(h: Seq<Seq<char>>, pos: Seq<Option<usize>>) -> bool {
    &&& pos.len() == NUM_COLUMNS
    &&& forall|k: int|
        0 <= k < NUM_COLUMNS ==> match #[trigger] pos[k] {
            Some(p) => last_pos(h, column_name_spec(k)) == p,
            None => last_pos(h, column_name_spec(k)) == -1,
        }
}

fn header_positions(header: &Vec<String>) -> (r: Vec<Option<usize>>)
    ensures
        positions_match(views(header@), r@),
{
    let mut r: Vec<Option<usize>> = Vec::new();
    let mut k: usize = 0;
    while k < NUM_COLUMNS
        invariant
            k <= NUM_COLUMNS,
            r@.len() == k,
            forall|j: int|
                0 <= j < k ==> match #[trigger] r@[j] {
                    Some(p) => last_pos(views(header@), column_name_spec(j)) == p,
                    None => last_pos(views(header@), column_name_spec(j)) == -1,
                },
        decreases NUM_COLUMNS - k,
    {
        let name = column_name(k).to_owned();
        r.push(header_position(header, &name));
        k = k + 1;
    }
    r
}

/// The record a data row gives, its columns placed by `pos`.
fn record_from_row(h: Ghost<Seq<Seq<char>>>, pos: &Vec<Option<usize>>, row: &Vec<String>) -> (r:
    HgncRecord)
    requires
        positions_match(h@, pos@),
    ensures
        r.wf(),
        r@ == record_of(h@, views(row@)),
{
    let mut fields: Vec<String> = Vec::new();
    let mut k: usize = 0;
    while k < NUM_COLUMNS
        invariant
            k <= NUM_COLUMNS,
            positions_match(h@, pos@),
            fields@.len() == k,
            forall|j: int|
                0 <= j < k ==> (#[trigger] fields@[j])@ == cell(h@, views(row@), column_name_spec(j)),
        decreases NUM_COLUMNS - k,
    {
        let v = match pos[k] {
            Some(p) => if p < row.len() {
                row[p].clone()
            } else {
                String::new()
            },
            None => String::new(),
        };
        assert(pos@[k as int] == pos[k as int]);
        fields.push(v);
        k = k + 1;
    }
    let rec = HgncRecord::from_columns(fields);
    assert(rec@ =~= record_of(h@, views(row@)));
    rec
}

} // verus!

verus! {

/// Builds a cache from the lines of a table: the first line is the header,
/// each other line one record. Each record is indexed as it is added.
pub fn create_hgnc_cache_from_reader(lines: &Vec<String>) -> (r: Result<HgncCache, ParseError>)
    ensures
        match r {
            Ok(c) => {
                &&& lines@.len() > 0
                &&& c.wf()
                &&& c.records_view() == records_of(views(lines@))
                &&& c.index() == index_of(records_of(views(lines@)))
            },
            Err(e) => lines@.len() == 0 && e == ParseError::EmptyInput,
        },
{
    if lines.len() == 0 {
        return Err(ParseError::EmptyInput);
    }
    let ghost ls = views(lines@);
    let ghost recs = records_of(ls);
    let header = split(lines[0].as_str(), '\t');
    let pos = header_positions(&header);
    let mut cache = HgncCache::new();
    assert(recs.take(0) =~= Seq::<Seq<Seq<char>>>::empty());
    let mut i: usize = 1;
    while i < lines.len()
        invariant
            1 <= i <= lines@.len(),
            ls == views(lines@),
            recs == records_of(ls),
            views(header@) == row_of(ls[0]),
            positions_match(views(header@), pos@),
            cache.wf(),
            cache.records_view() == recs.take(i - 1),
            cache.index() == index_of(recs.take(i - 1)),
        decreases lines@.len() - i,
    {
        let row = split(lines[i].as_str(), '\t');
        let rec = record_from_row(Ghost(views(header@)), &pos, &row);
        assert(rec@ == recs[i - 1]);
        assert(recs.take(i as int).drop_last() =~= recs.take(i - 1));
        cache.add_record(rec);
        assert(cache.records_view() =~= recs.take(i as int));
        i = i + 1;
    }
    assert(recs.take(lines@.len() - 1) =~= recs);
    Ok(cache)
}

} // verus!
