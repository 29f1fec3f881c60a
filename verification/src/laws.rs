//! What holds of the ledger's operations taken together, stated over the
//! model of the store: the sequence of its records in id order.

use vstd::prelude::*;
use crate::comment::{Comment, CommentView};
use crate::contract::{
    answer, appended, donated, found_view, is_newest_part, lookup, newest, stored_under,
    stored_view, top_donated, views, window_start, LedgerError, TOP_WINDOW,
};

verus! {

/// The ids in `lo .. hi` whose record carries a transfer, ascending.
pub open spec fn donated_ids(ledger: Seq<CommentView>, lo: int, hi: int) -> Seq<int>
    decreases hi - lo,
{
    if hi <= lo {
        Seq::empty()
    } else if ledger[hi - 1].has_transfer() {
        donated_ids(ledger, lo, hi - 1).push(hi - 1)
    } else {
        donated_ids(ledger, lo, hi - 1)
    }
}

/// The ids of the records that the donation query returns, in its order.
pub open spec fn top_donated_ids(ledger: Seq<CommentView>) -> Seq<int> {
    donated_ids(ledger, window_start(ledger.len() as int), ledger.len() as int)
}

/// The filtered range `lo .. hi` of a ledger holds the records of
/// `donated_ids`, which ascend, lie in the range and miss no record with a
/// transfer.
proof fn lemma_donated_ids(ledger: Seq<CommentView>, lo: int, hi: int)
    requires
        0 <= lo <= hi <= ledger.len(),
    ensures
        donated_ids(ledger, lo, hi).len() == ledger.subrange(lo, hi).filter(donated()).len(),
        donated_ids(ledger, lo, hi).len() <= hi - lo,
        forall|j: int|
            0 <= j < donated_ids(ledger, lo, hi).len() ==> {
                let id = #[trigger] donated_ids(ledger, lo, hi)[j];
                &&& lo <= id < hi
                &&& ledger[id].has_transfer()
                &&& ledger.subrange(lo, hi).filter(donated())[j] == ledger[id]
            },
        forall|j: int, k: int|
            0 <= j < k < donated_ids(ledger, lo, hi).len() ==> donated_ids(ledger, lo, hi)[j]
                < donated_ids(ledger, lo, hi)[k],
        forall|id: int|
            lo <= id < hi && (#[trigger] ledger[id]).has_transfer() ==> donated_ids(
                ledger,
                lo,
                hi,
            ).contains(id),
    decreases hi - lo,
{
    reveal(Seq::filter);
    if hi > lo {
        lemma_donated_ids(ledger, lo, hi - 1);
        let range = ledger.subrange(lo, hi);
        let before = donated_ids(ledger, lo, hi - 1);
        let ids = donated_ids(ledger, lo, hi);
        assert(range.drop_last() =~= ledger.subrange(lo, hi - 1));
        assert(range.last() == ledger[hi - 1]);
        assert forall|id: int| lo <= id < hi && (#[trigger] ledger[id]).has_transfer() implies ids.contains(
            id,
        ) by {
            if id < hi - 1 {
                let j = choose|j: int| 0 <= j < before.len() && before[j] == id;
                assert(ids[j] == id);
            } else {
                assert(ids[ids.len() - 1] == id);
            }
        }
    } else {
        assert(ledger.subrange(lo, hi) =~= Seq::<CommentView>::empty());
    }
}

/// The donation query returns at most ten records. They are the records
/// with a transfer among the ten newest, each once, in ascending id order:
/// the ids that they stand under ascend strictly, lie in the window and
/// leave out no id of the window whose record carries a transfer.
pub proof fn law_top_donated_window(ledger: Seq<CommentView>)
    ensures
        top_donated(ledger).len() <= TOP_WINDOW,
        top_donated(ledger).len() == top_donated_ids(ledger).len(),
        forall|j: int|
            0 <= j < top_donated_ids(ledger).len() ==> {
                let id = #[trigger] top_donated_ids(ledger)[j];
                &&& window_start(ledger.len() as int) <= id < ledger.len()
                &&& ledger[id].has_transfer()
                &&& top_donated(ledger)[j] == ledger[id]
            },
        forall|j: int, k: int|
            0 <= j < k < top_donated_ids(ledger).len() ==> top_donated_ids(ledger)[j]
                < top_donated_ids(ledger)[k],
        forall|id: int|
            window_start(ledger.len() as int) <= id < ledger.len() && (
            #[trigger] ledger[id]).has_transfer() ==> top_donated_ids(ledger).contains(id),
{
    lemma_donated_ids(ledger, window_start(ledger.len() as int), ledger.len() as int);
}

/// A record older than the ten newest is never among the ids that the
/// donation query returns, whether or not it carries a transfer.
pub proof fn law_top_donated_skips_older(ledger: Seq<CommentView>, id: int)
    requires
        0 <= id < ledger.len() - TOP_WINDOW,
    ensures
        !top_donated_ids(ledger).contains(id),
{
    law_top_donated_window(ledger);
}

/// The donation query needs no more of the store than its newest ten
/// records: over any end of the ledger that holds them it gives what it
/// gives over the whole ledger.
pub proof fn law_top_donated_of_newest_part(ledger: Seq<CommentView>, part: Seq<CommentView>)
    requires
        is_newest_part(ledger, part),
    ensures
        newest(part) == newest(ledger),
        top_donated(part) == top_donated(ledger),
{
    assert(newest(part) =~= newest(ledger));
}

/// The records that stand under the ids of the ledger's window, in id
/// order, are the newest ten, and the donation query over them gives what it
/// gives over the whole ledger.
pub proof fn law_window_holds_the_newest(ledger: Seq<CommentView>, window: Seq<CommentView>)
    requires
        window.len() == ledger.len() - window_start(ledger.len() as int),
        forall|k: int|
            0 <= k < window.len() ==> #[trigger] window[k] == ledger[window_start(
                ledger.len() as int,
            ) + k],
    ensures
        window == newest(ledger),
        window.len() <= TOP_WINDOW,
        is_newest_part(ledger, window),
        top_donated(window) == top_donated(ledger),
{
    assert(window =~= newest(ledger));
    law_top_donated_of_newest_part(ledger, window);
}

/// Appending keeps every earlier record under its id and puts the new
/// record under the id that was next: a lookup after the append finds under
/// each id what was appended under it.
pub proof fn law_append_then_lookup(ledger: Seq<CommentView>, record: CommentView, id: u128)
    ensures
        id < ledger.len() ==> lookup(appended(ledger, record), id) == lookup(ledger, id),
        id == ledger.len() ==> lookup(appended(ledger, record), id) == Ok::<
            CommentView,
            LedgerError,
        >(record),
        id > ledger.len() ==> lookup(appended(ledger, record), id) == Err::<
            CommentView,
            LedgerError,
        >(LedgerError::NotFound),
{
}

/// A record stays under its id however many records are appended after it:
/// a lookup of an id that was assigned finds the same record in every later
/// ledger, and the record appended under an id is what a lookup of that id
/// finds from then on.
pub proof fn law_lookup_outlasts_appends(
    ledger: Seq<CommentView>,
    record: CommentView,
    later: Seq<CommentView>,
    id: u128,
)
    ensures
        id < ledger.len() ==> lookup(ledger + later, id) == lookup(ledger, id),
        id == ledger.len() ==> lookup(appended(ledger, record) + later, id) == Ok::<
            CommentView,
            LedgerError,
        >(record),
{
}

/// Where the counter is the number of records, a lookup decided over what
/// the store holds under the id answers as the ledger's model says: the
/// record for an id below the counter, `NotFound` for any other.
pub proof fn law_answer_is_lookup(ledger: Seq<CommentView>, next_id: u128, id: u128)
    requires
        ledger.len() == next_id,
    ensures
        answer(next_id, id, stored_under(ledger, id)) == lookup(ledger, id),
        id < next_id ==> lookup(ledger, id) == Ok::<CommentView, LedgerError>(ledger[id as int]),
        id >= next_id ==> lookup(ledger, id) == Err::<CommentView, LedgerError>(
            LedgerError::NotFound,
        ),
{
}

/// Reading does not depend on how often it is done: two results of a lookup
/// of one id at one state of the ledger have the same value, and so have two
/// results of the donation query over the same records.
pub proof fn law_reads_repeatable(
    next_id: u128,
    id: u128,
    stored: Option<Comment>,
    first: Result<Comment, LedgerError>,
    second: Result<Comment, LedgerError>,
    records: Vec<Comment>,
    first_top: Vec<Comment>,
    second_top: Vec<Comment>,
)
    requires
        found_view(first) == answer(next_id, id, stored_view(stored)),
        found_view(second) == answer(next_id, id, stored_view(stored)),
        views(first_top@) == top_donated(views(records@)),
        views(second_top@) == top_donated(views(records@)),
    ensures
        found_view(first) == found_view(second),
        views(first_top@) == views(second_top@),
{
}

} // verus!
