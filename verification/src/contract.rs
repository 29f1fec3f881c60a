//! The ledger: which id a new comment gets and what is stored under it,
//! what a lookup answers, and which of the newest records the donation
//! query keeps.
//!
//! The records live in the host's storage, with the caller. The ledger
//! itself holds the id counter. A write takes the facts of the call and
//! hands back the id and the record to store under it; a read decides over
//! what the caller found in storage. The store as a whole is modelled as a
//! sequence of records, the record with id `i` at index `i`.

use near_sdk::json_types::U128;
use vstd::prelude::*;
use crate::comment::{Comment, CommentView};
use crate::host::CallContext;
use crate::laws::{law_answer_is_lookup, law_top_donated_of_newest_part, law_top_donated_window};

verus! {

/// The number of newest records that the donation query looks at.
pub const TOP_WINDOW: u128 = 10;

/// The storage namespaces of the contract.
pub enum StorageKey {
    RecordKey,
}

impl StorageKey {
    /// The prefix under which the namespace is persisted: the variant's
    /// index as one byte.
    pub fn into_storage_key(self) -> (prefix: Vec<u8>)
        ensures
            prefix@ == seq![0u8],
    {
        let mut prefix: Vec<u8> = Vec::new();
        match self {
            StorageKey::RecordKey => prefix.push(0u8),
        }
        prefix
    }
}

/// Why a call was rejected.
#[derive(Clone, Copy, Debug, PartialEq, Eq, Structural)]
pub enum LedgerError {
    /// The message of a write was empty.
    InvalidContent,
    /// No record has the id that was asked for.
    NotFound,
}

/// The values of a sequence of comments.
pub open spec fn views(comments: Seq<Comment>) -> Seq<CommentView> {
    comments.map_values(|c: Comment| c@)
}

/// The test that the donation query applies to each record.
pub open spec fn donated() -> spec_fn(CommentView) -> bool {
    |c: CommentView| c.has_transfer()
}

/// The first id of the window of the newest records in a ledger of `n`.
pub open spec fn window_start(n: int) -> int {
    if n > TOP_WINDOW {
        n - TOP_WINDOW
    } else {
        0
    }
}

/// The records of a ledger that the donation query looks at: the newest
/// ten, or all of them where there are fewer.
pub open spec fn newest(ledger: Seq<CommentView>) -> Seq<CommentView> {
    ledger.subrange(window_start(ledger.len() as int), ledger.len() as int)
}

/// The records with a transfer among the newest ten, oldest first.
pub open spec fn top_donated(ledger: Seq<CommentView>) -> Seq<CommentView> {
    newest(ledger).filter(donated())
}

/// `part` is an end of the ledger that holds its newest ten records: the
/// last `part.len()` records, all of them or at least ten.
pub open spec fn is_newest_part(ledger: Seq<CommentView>, part: Seq<CommentView>) -> bool {
    &&& part.len() <= ledger.len()
    &&& part == ledger.subrange(ledger.len() - part.len(), ledger.len() as int)
    &&& (part.len() >= TOP_WINDOW || part.len() == ledger.len())
}

/// The ledger with one more record at its end.
pub open spec fn appended(ledger: Seq<CommentView>, record: CommentView) -> Seq<CommentView> {
    ledger.push(record)
}

/// What the store holds under `id`: the record at that index, if any.
pub open spec fn stored_under(ledger: Seq<CommentView>, id: u128) -> Option<CommentView> {
    if id < ledger.len() {
        Some(ledger[id as int])
    } else {
        None
    }
}

/// What a lookup of `id` gives in a ledger: the record at that index, or
/// `NotFound` at or past the ledger's end.
pub open spec fn lookup(ledger: Seq<CommentView>, id: u128) -> Result<CommentView, LedgerError> {
    if id < ledger.len() {
        Ok(ledger[id as int])
    } else {
        Err(LedgerError::NotFound)
    }
}

/// What a lookup of `id` answers when the counter stands at `next_id` and
/// the store held `stored` under `id`: the record, where the id was assigned
/// and a record stands under it, and else `NotFound`.
pub open spec fn answer(next_id: u128, id: u128, stored: Option<CommentView>) -> Result<
    CommentView,
    LedgerError,
> {
    match stored {
        Some(record) if id < next_id => Ok(record),
        _ => Err(LedgerError::NotFound),
    }
}

/// The value of what the store held under an id.
pub open spec fn stored_view(stored: Option<Comment>) -> Option<CommentView> {
    match stored {
        Some(comment) => Some(comment@),
        None => None,
    }
}

/// The value of a lookup's result.
pub open spec fn found_view(found: Result<Comment, LedgerError>) -> Result<
    CommentView,
    LedgerError,
> {
    match found {
        Ok(comment) => Ok(comment@),
        Err(e) => Err(e),
    }
}

/// A comment with the same fields.
fn copy_of(comment: &Comment) -> (copy: Comment)
    ensures
        copy == *comment,
{
    Comment {
        message: comment.message.clone(),
        author: comment.author.clone(),
        donation: comment.donation,
        created_at: comment.created_at,
        created_at_block: comment.created_at_block,
    }
}

/// The ledger's own state: the id that the next record gets, which is also
/// the number of records stored so far.
#[derive(Debug, PartialEq, Eq, Structural)]
pub struct SayHiContract {
    pub next_id: u128,
}

impl SayHiContract {
    /// Takes a new record into the ledger: assigns it the next id, advances
    /// the counter by one and hands back the id with the record to store
    /// under it. An empty message is rejected: nothing is handed back to
    /// store and the ledger stays as it was. The counter cannot pass
    /// `u128::MAX`, so a full ledger takes no further record.
    pub fn append(
        &mut self,
        message: String,
        author: String,
        donation: u128,
        created_at: u64,
        created_at_block: u64,
    ) -> (assigned: Result<(u128, Comment), LedgerError>)
        requires
            message@.len() > 0 ==> old(self).next_id < u128::MAX,
        ensures
            message@.len() == 0 ==> (assigned == Err::<(u128, Comment), LedgerError>(
                LedgerError::InvalidContent,
            ) && *final(self) == *old(self)),
            message@.len() > 0 ==> (assigned.is_ok() && assigned.unwrap().0 == old(self).next_id
                && final(self).next_id == old(self).next_id + 1
                && assigned.unwrap().1@ == (CommentView {
                message: message@,
                author: author@,
                donation,
                created_at,
                created_at_block,
            })),
    {
        if message.as_str().is_empty() {
            return Err(LedgerError::InvalidContent);
        }
        let id = self.next_id;
        let comment = Comment { message, author, donation, created_at, created_at_block };
        self.next_id = id + 1;
        Ok((id, comment))
    }

    /// Posts a message in the current call: the caller's account becomes
    /// the author, the attached deposit the donation, and the block's time
    /// and height the creation stamps, each as the host gave it.
    pub fn add_new_comment(&mut self, message: String, context: CallContext) -> (assigned: Result<
        (u128, Comment),
        LedgerError,
    >)
        requires
            message@.len() > 0 ==> old(self).next_id < u128::MAX,
        ensures
            message@.len() == 0 ==> (assigned == Err::<(u128, Comment), LedgerError>(
                LedgerError::InvalidContent,
            ) && *final(self) == *old(self)),
            message@.len() > 0 ==> (assigned.is_ok() && assigned.unwrap().0 == old(self).next_id
                && final(self).next_id == old(self).next_id + 1
                && assigned.unwrap().1@ == (CommentView {
                message: message@,
                author: context.predecessor_account_id@,
                donation: context.attached_deposit,
                created_at: context.block_timestamp,
                created_at_block: context.block_index,
            })),
    {
        self.append(
            message,
            context.predecessor_account_id,
            context.attached_deposit,
            context.block_timestamp,
            context.block_index,
        )
    }

    /// The ids that the donation query reads: from the first of the newest
    /// ten up to, and without, the counter.
    pub fn window(&self) -> (range: (u128, u128))
        ensures
            range.0 == window_start(self.next_id as int),
            range.1 == self.next_id,
    {
        if self.next_id > TOP_WINDOW {
            (self.next_id - TOP_WINDOW, self.next_id)
        } else {
            (0, self.next_id)
        }
    }

    /// The donation query over the newest records of the store, handed in
    /// in id order: of the last ten of them, those with a deposit, in the
    /// same order. Handed any end of the store that holds its newest ten
    /// records, the result is the store's donated records among those ten.
    pub fn get_top_message(&self, records: &Vec<Comment>) -> (top: Vec<Comment>)
        ensures
            views(top@) == top_donated(views(records@)),
            top@.len() <= TOP_WINDOW,
            forall|ledger: Seq<CommentView>| #[trigger]
                is_newest_part(ledger, views(records@)) ==> views(top@) == top_donated(ledger),
    {
        let n = records.len();
        let limit = TOP_WINDOW as usize;
        let start: usize = if n > limit {
            n - limit
        } else {
            0
        };
        let ghost handed = views(records@);
        let mut top: Vec<Comment> = Vec::new();
        let mut i: usize = start;
        assert(views(top@) =~= handed.subrange(start as int, i as int).filter(donated()));
        while i < n
            invariant
                n == records@.len(),
                handed == views(records@),
                start <= i <= n,
                views(top@) == handed.subrange(start as int, i as int).filter(donated()),
            decreases n - i,
        {
            proof {
                let seen = handed.subrange(start as int, i as int);
                let next = handed.subrange(i as int, i + 1);
                assert(handed.subrange(start as int, i + 1) =~= seen + next);
                Seq::filter_distributes_over_add(seen, next, donated());
                reveal_with_fuel(Seq::filter, 2);
                assert(next.drop_last() =~= Seq::<CommentView>::empty());
                assert(next.last() == records@[i as int]@);
            }
            if records[i].is_donate() {
                let ghost before = top@;
                top.push(copy_of(&records[i]));
                assert(views(top@) =~= views(before).push(records@[i as int]@));
            }
            i = i + 1;
        }
        proof {
            assert(start == window_start(handed.len() as int));
            law_top_donated_window(handed);
            assert forall|ledger: Seq<CommentView>| #[trigger]
                is_newest_part(ledger, handed) implies views(top@) == top_donated(ledger) by {
                law_top_donated_of_newest_part(ledger, handed);
            }
        }
        top
    }

    /// A lookup by id, decided over what the store held under that id: the
    /// record, where the id was assigned and a record stands under it, and
    /// else `NotFound`. Handed what a store of `next_id` records holds under
    /// the id, that is the store's record for an id below the counter and
    /// `NotFound` for any other.
    pub fn get(&self, id: u128, stored: Option<Comment>) -> (found: Result<Comment, LedgerError>)
        ensures
            found_view(found) == answer(self.next_id, id, stored_view(stored)),
            forall|ledger: Seq<CommentView>|
                ledger.len() == self.next_id && stored_under(ledger, id) == stored_view(stored)
                    ==> found_view(found) == #[trigger] lookup(ledger, id),
    {
        proof {
            assert forall|ledger: Seq<CommentView>|
                ledger.len() == self.next_id && stored_under(ledger, id) == stored_view(
                    stored,
                ) implies answer(self.next_id, id, stored_view(stored)) == #[trigger] lookup(
                ledger,
                id,
            ) by {
                law_answer_is_lookup(ledger, self.next_id, id);
            }
        }
        if id >= self.next_id {
            return Err(LedgerError::NotFound);
        }
        match stored {
            Some(comment) => Ok(comment),
            None => Err(LedgerError::NotFound),
        }
    }

    /// A lookup by the id as the contract's callers write it.
    pub fn get_message_by_id(&self, id: U128, stored: Option<Comment>) -> (found: Result<
        Comment,
        LedgerError,
    >)
        ensures
            found_view(found) == answer(self.next_id, id.0, stored_view(stored)),
            forall|ledger: Seq<CommentView>|
                ledger.len() == self.next_id && stored_under(ledger, id.0) == stored_view(stored)
                    ==> found_view(found) == #[trigger] lookup(ledger, id.0),
    {
        self.get(id.0, stored)
    }
}

impl Default for SayHiContract {
    /// An empty ledger: the first record gets the id 0.
    fn default() -> (contract: SayHiContract)
        ensures
            contract.next_id == 0,
    {
        SayHiContract { next_id: 0 }
    }
}

} // verus!
