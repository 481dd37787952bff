//! Posting and listing messages: what is asked of the input.

use crate::error::{lemma_literal_detail, AppError};
use crate::types::RowID;
use vstd::prelude::*;

verus! {

/// What a user sends to post a message.
#[derive(Debug, Clone)]
pub struct CreateMessage {
    pub chat_id: RowID,
    pub content: String,
    pub files: Vec<String>,
}

/// Which messages of a chat to list: at most `limit`, older than `last_id`.
#[derive(Debug, Clone)]
pub struct ListMessage {
    pub last_id: Option<RowID>,
    pub limit: u32,
}

impl ListMessage {
    /// The identifier below which messages are listed: `last_id`, or the
    /// largest there is.
    pub fn before(&self) -> (id: RowID)
        ensures
            id == match self.last_id {
                Some(id) => id,
                None => i64::MAX,
            },
    {
        match self.last_id {
            Some(id) => id,
            None => i64::MAX,
        }
    }
}

/// Whether the file system has every one of `files` files: `there` says for
/// each whether it was found, in their order; a file without an answer counts
/// as missing.
pub open spec fn all_there(files: nat, there: Seq<bool>) -> bool {
    forall|i: int| 0 <= i < files ==> #[trigger] found(there, i)
}

/// Whether the file system has the file at position `i`.
pub open spec fn found(there: Seq<bool>, i: int) -> bool {
    0 <= i < there.len() && there[i]
}

/// What is wrong with a message, if anything.
pub open spec fn message_fault(content: Seq<char>, files: nat, there: Seq<bool>) -> Option<
    Seq<char>,
> {
    if content.len() == 0 {
        Some("empty content"@)
    } else if !all_there(files, there) {
        Some("some files not exist"@)
    } else {
        None
    }
}

impl CreateMessage {
    /// Checks a message before it is stored: it must say something, and the
    /// files it names must be there. `there` holds, for each file in order,
    /// whether the file system has it.
    pub fn verify(&self, there: &Vec<bool>) -> (out: Result<(), AppError>)
        ensures
            match out {
                Ok(_) => message_fault(self.content@, self.files@.len(), there@) is None,
                Err(e) => e is InvalidInput && message_fault(
                    self.content@,
                    self.files@.len(),
                    there@,
                ) == Some(e.detail()@),
            },
    {
        if self.content.as_str().is_empty() {
            let e = AppError::invalid_input("empty content");
            proof {
                lemma_literal_detail("empty content", e.detail());
            }
            return Err(e);
        }
        let mut i: usize = 0;
        while i < self.files.len()
            invariant
                0 <= i <= self.files.len(),
                self.content@.len() != 0,
                forall|j: int| 0 <= j < i ==> #[trigger] found(there@, j),
            decreases self.files.len() - i,
        {
            if i >= there.len() || !there[i] {
                let e = AppError::invalid_input("some files not exist");
                proof {
                    lemma_literal_detail("some files not exist", e.detail());
                    assert(!found(there@, i as int));
                }
                return Err(e);
            }
            i += 1;
        }
        Ok(())
    }
}

} // verus!
