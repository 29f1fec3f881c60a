//! The record that the ledger stores for each posted message.

use vstd::prelude::*;

verus! {

/// One posted message with its author, deposit and creation metadata.
#[derive(Clone, Debug, PartialEq, Eq)]
pub struct Comment {
    pub message: String,
    pub author: String,
    pub donation: u128,
    pub created_at: u64,
    pub created_at_block: u64,
}

/// The mathematical value of a [`Comment`].
pub ghost struct CommentView {
    pub message: Seq<char>,
    pub author: Seq<char>,
    pub donation: u128,
    pub created_at: u64,
    pub created_at_block: u64,
}

impl CommentView {
    /// A record carries a transfer when its deposit is positive.
    pub open spec fn has_transfer(self) -> bool {
        self.donation > 0
    }
}

impl View for Comment {
    type V = CommentView;

    open spec fn view(&self) -> CommentView {
        CommentView {
            message: self.message@,
            author: self.author@,
            donation: self.donation,
            created_at: self.created_at,
            created_at_block: self.created_at_block,
        }
    }
}

impl Comment {
    /// Whether a deposit was attached when the message was posted.
    pub fn is_donate(&self) -> (donated: bool)
        ensures
            donated == self@.has_transfer(),
    {
        self.donation > 0
    }
}

} // verus!
