//! Counting the votes on a word.
//!
//! A scan over the votes may be unbounded, so counting is a step per row on a
//! pair of counters: the caller feeds each row as the store hands it over and
//! never holds the whole result.

use vstd::prelude::*;

use crate::error::{result_view, DictError, ErrorModel};
use crate::row::{bool_column, Row, RowModel};

verus! {

/// The (upvotes, downvotes) of a sequence of vote rows, or the first row's
/// error.
pub open spec fn vote_counts(rows: Seq<RowModel>) -> Result<(nat, nat), ErrorModel>
    decreases rows.len(),
{
    if rows.len() == 0 {
        Ok((0, 0))
    } else {
        match vote_counts(rows.drop_last()) {
            Err(e) => Err(e),
            Ok((up, down)) => match bool_column(rows.last(), "is_upvote"@) {
                Err(e) => Err(e),
                Ok(true) => Ok(((up + 1) as nat, down)),
                Ok(false) => Ok((up, (down + 1) as nat)),
            },
        }
    }
}

/// The upvotes of a sequence of vote rows, or the first row's error.
pub open spec fn upvote_count(rows: Seq<RowModel>) -> Result<nat, ErrorModel>
    decreases rows.len(),
{
    if rows.len() == 0 {
        Ok(0)
    } else {
        match upvote_count(rows.drop_last()) {
            Err(e) => Err(e),
            Ok(up) => match bool_column(rows.last(), "is_upvote"@) {
                Err(e) => Err(e),
                Ok(true) => Ok((up + 1) as nat),
                Ok(false) => Ok(up),
            },
        }
    }
}

pub open spec fn rows_view(rows: Seq<Row>) -> Seq<RowModel> {
    rows.map_values(|r: Row| r@)
}

/// Running counts of a scan over vote rows.
#[derive(Clone, Copy, Debug, PartialEq, Eq)]
pub struct VoteTally {
    pub up: u64,
    pub down: u64,
}

impl VoteTally {
    pub fn new() -> (r: VoteTally)
        ensures
            r.up == 0,
            r.down == 0,
    {
        VoteTally { up: 0, down: 0 }
    }

    /// How many rows have been counted.
    pub open spec fn total(&self) -> int {
        self.up + self.down
    }

    /// Counts one more vote row: its `is_upvote` picks the counter. A row
    /// without a boolean `is_upvote` leaves the counts as they are.
    pub fn record(&mut self, row: &Row) -> (r: Result<(), DictError>)
        requires
            old(self).total() < u64::MAX,
        ensures
            result_view(r) == match bool_column(row@, "is_upvote"@) {
                Ok(_) => Ok::<(), ErrorModel>(()),
                Err(e) => Err(e),
            },
            bool_column(row@, "is_upvote"@) == Ok::<_, ErrorModel>(true) ==> *final(self) == (
            VoteTally { up: (old(self).up + 1) as u64, down: old(self).down }),
            bool_column(row@, "is_upvote"@) == Ok::<_, ErrorModel>(false) ==> *final(self) == (
            VoteTally { up: old(self).up, down: (old(self).down + 1) as u64 }),
            r is Err ==> *final(self) == *old(self),
    {
        match row.boolean("is_upvote") {
            Ok(true) => {
                self.up = self.up + 1;
                Ok(())
            },
            Ok(false) => {
                self.down = self.down + 1;
                Ok(())
            },
            Err(e) => Err(e),
        }
    }
}

/// The (upvotes, downvotes) of the vote rows of one scan.
pub fn count_votes(rows: &Vec<Row>) -> (r: Result<(u64, u64), DictError>)
    ensures
        r is Ok <==> vote_counts(rows_view(rows@)) is Ok,
        r matches Ok((up, down)) ==> vote_counts(rows_view(rows@)) == Ok::<_, ErrorModel>(
            (up as nat, down as nat),
        ),
        r matches Err(e) ==> vote_counts(rows_view(rows@)) == Err::<(nat, nat), _>(e@),
{
    let ghost all = rows_view(rows@);
    let mut tally = VoteTally::new();
    let mut i: usize = 0;
    assert(all.take(0) =~= Seq::<RowModel>::empty());
    while i < rows.len()
        invariant
            i <= rows@.len(),
            all == rows_view(rows@),
            tally.total() == i,
            vote_counts(all.take(i as int)) == Ok::<_, ErrorModel>(
                (tally.up as nat, tally.down as nat),
            ),
        decreases rows@.len() - i,
    {
        assert(all.take(i + 1).drop_last() =~= all.take(i as int));
        assert(all.take(i + 1).last() == rows@[i as int]@);
        match tally.record(&rows[i]) {
            Ok(()) => {},
            Err(e) => {
                proof {
                    lemma_counts_error_persists(all, i as int + 1);
                }
                return Err(e);
            },
        }
        i = i + 1;
    }
    assert(all.take(i as int) =~= all);
    Ok((tally.up, tally.down))
}

/// The upvotes of the vote rows of one scan.
pub fn count_upvotes(rows: &Vec<Row>) -> (r: Result<u64, DictError>)
    ensures
        r is Ok <==> upvote_count(rows_view(rows@)) is Ok,
        r matches Ok(up) ==> upvote_count(rows_view(rows@)) == Ok::<_, ErrorModel>(up as nat),
        r matches Err(e) ==> upvote_count(rows_view(rows@)) == Err::<nat, _>(e@),
{
    let ghost all = rows_view(rows@);
    let mut up: u64 = 0;
    let mut i: usize = 0;
    assert(all.take(0) =~= Seq::<RowModel>::empty());
    while i < rows.len()
        invariant
            i <= rows@.len(),
            all == rows_view(rows@),
            up <= i,
            upvote_count(all.take(i as int)) == Ok::<_, ErrorModel>(up as nat),
        decreases rows@.len() - i,
    {
        assert(all.take(i + 1).drop_last() =~= all.take(i as int));
        assert(all.take(i + 1).last() == rows@[i as int]@);
        match rows[i].boolean("is_upvote") {
            Ok(true) => {
                up = up + 1;
            },
            Ok(false) => {},
            Err(e) => {
                proof {
                    lemma_upvotes_error_persists(all, i as int + 1);
                }
                return Err(e);
            },
        }
        i = i + 1;
    }
    assert(all.take(i as int) =~= all);
    Ok(up)
}

proof fn lemma_counts_error_persists(rows: Seq<RowModel>, k: int)
    requires
        0 <= k <= rows.len(),
        vote_counts(rows.take(k)) is Err,
    ensures
        vote_counts(rows) == vote_counts(rows.take(k)),
    decreases rows.len() - k,
{
    if k < rows.len() {
        assert(rows.take(k + 1).drop_last() =~= rows.take(k));
        lemma_counts_error_persists(rows, k + 1);
    } else {
        assert(rows.take(k) =~= rows);
    }
}

proof fn lemma_upvotes_error_persists(rows: Seq<RowModel>, k: int)
    requires
        0 <= k <= rows.len(),
        upvote_count(rows.take(k)) is Err,
    ensures
        upvote_count(rows) == upvote_count(rows.take(k)),
    decreases rows.len() - k,
{
    if k < rows.len() {
        assert(rows.take(k + 1).drop_last() =~= rows.take(k));
        lemma_upvotes_error_persists(rows, k + 1);
    } else {
        assert(rows.take(k) =~= rows);
    }
}

/// On the same rows, counting upvotes alone agrees with the first count of
/// counting both, and fails with the same error where that fails.
pub proof fn lemma_upvotes_agree(rows: Seq<RowModel>)
    ensures
        match vote_counts(rows) {
            Ok((up, _)) => upvote_count(rows) == Ok::<_, ErrorModel>(up),
            Err(e) => upvote_count(rows) == Err::<nat, _>(e),
        },
    decreases rows.len(),
{
    if rows.len() > 0 {
        lemma_upvotes_agree(rows.drop_last());
    }
}

} // verus!
