//! What the vault keeps in its store, and the shaping of rows that come
//! back from it.

pub mod models;

use vstd::prelude::*;

verus! {

/// The `(site_url, id)` pair of a row that has an identifier; nothing for
/// a row without one.
pub open spec fn row_pair(row: (String, Option<i32>)) -> Option<(Seq<char>, i32)> {
    match row.1 {
        Some(id) => Some((row.0@, id)),
        None => None,
    }
}

/// The `(site_url, id)` pairs of the rows that have an identifier, in the
/// order of `rows`.
pub open spec fn rows_with_id(rows: Seq<(String, Option<i32>)>) -> Seq<(Seq<char>, i32)> {
    rows.filter_map(|row: (String, Option<i32>)| row_pair(row))
}

/// The views of `(site_url, id)` pairs, in order.
pub open spec fn pair_views(pairs: Seq<(String, i32)>) -> Seq<(Seq<char>, i32)> {
    Seq::new(pairs.len(), |i: int| (pairs[i].0@, pairs[i].1))
}

/// Keeps the rows whose identifier is present and drops the others,
/// without changing the order.
pub fn get_all_id_and_url(rows: Vec<(String, Option<i32>)>) -> (pairs: Vec<(String, i32)>)
    ensures
        pair_views(pairs@) == rows_with_id(rows@),
{
    let mut pairs: Vec<(String, i32)> = Vec::new();
    let ghost all = rows@;
    proof {
        assert(all.take(0) =~= Seq::empty());
        assert(pair_views(pairs@) =~= rows_with_id(all.take(0)));
    }
    for row in it: rows
        invariant
            it.seq() == all,
            pair_views(pairs@) == rows_with_id(all.take(it.index())),
    {
        proof {
            let i = it.index();
            assert(all.take(i + 1).drop_last() =~= all.take(i));
            assert(all.take(i + 1).last() == row);
            assert(rows_with_id(all.take(i + 1)) == match row_pair(row) {
                Some(pair) => rows_with_id(all.take(i)) + seq![pair],
                None => rows_with_id(all.take(i)),
            });
        }
        let (url, some_id) = row;
        if let Some(id) = some_id {
            proof {
                assert(pair_views(pairs@.push((url, id))) =~= pair_views(pairs@).push((url@, id)));
            }
            pairs.push((url, id));
        }
    }
    proof {
        assert(all.take(all.len() as int) =~= all);
    }
    pairs
}

} // verus!
