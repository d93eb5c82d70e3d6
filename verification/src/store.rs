//! The journal store: each operation as a function from the content of the
//! backing file to what has to be written back.
//!
//! The caller opens the file, reads all of it, hands the bytes to one of
//! `add_task`, `complete_task` or `list_tasks`, and carries out the
//! `WritePlan` that comes back with the cursor at the start of the file. On
//! an error nothing is to be written.

use crate::decode::{collect_tasks, load_failure, stored};
use crate::encode::{encode_all, encode_tasks};
use crate::error::JournalError;
use crate::task::{views, Task, TaskView};
use vstd::prelude::*;

verus! {

/// What the caller has to do to the backing file so that it holds a new
/// collection: cut the file to zero length first if `truncate` is set, then
/// write `data` from the start of the file.
#[derive(Debug, PartialEq, Eq)]
pub struct WritePlan {
    pub truncate: bool,
    pub data: Vec<u8>,
}

/// The content of a file that held `before` once `data` has been written
/// over it from offset zero: bytes of `before` beyond the end of `data`
/// stay where they were.
pub open spec fn overwritten(before: Seq<u8>, data: Seq<u8>) -> Seq<u8> {
    if data.len() >= before.len() {
        data
    } else {
        data + before.subrange(data.len() as int, before.len() as int)
    }
}

impl WritePlan {
    /// The content of a file that held `before` once the plan has been
    /// carried out.
    pub open spec fn file_after(&self, before: Seq<u8>) -> Seq<u8> {
        if self.truncate {
            overwritten(Seq::empty(), self.data@)
        } else {
            overwritten(before, self.data@)
        }
    }

    /// Carries the plan out on a copy of the file's content held in memory.
    pub fn apply(&self, before: &[u8]) -> (after: Vec<u8>)
        ensures
            after@ == self.file_after(before@),
    {
        let mut after: Vec<u8> = Vec::new();
        let len = self.data.len();
        let mut i: usize = 0;
        while i < len
            invariant
                len == self.data.len(),
                i <= len,
                after@ == self.data@.take(i as int),
            decreases len - i,
        {
            after.push(self.data[i]);
            assert(self.data@.take(i + 1) =~= self.data@.take(i as int).push(self.data@[i as int]));
            i += 1;
        }
        assert(after@ =~= self.data@);
        if !self.truncate && len < before.len() {
            let mut j: usize = len;
            assert(after@ =~= self.data@ + before@.subrange(len as int, j as int));
            while j < before.len()
                invariant
                    len == self.data.len(),
                    len <= j <= before.len(),
                    after@ == self.data@ + before@.subrange(len as int, j as int),
                decreases before.len() - j,
            {
                after.push(before[j]);
                assert(before@.subrange(len as int, j + 1) =~= before@.subrange(
                    len as int,
                    j as int,
                ).push(before@[j as int]));
                j += 1;
            }
        }
        after
    }
}

/// The content of the file once the caller has acted on an operation's
/// outcome: the plan carried out, or, after an error, nothing written.
pub open spec fn file_left(before: Seq<u8>, outcome: Result<WritePlan, JournalError>) -> Seq<u8> {
    match outcome {
        Ok(plan) => plan.file_after(before),
        Err(_) => before,
    }
}

/// Plans the write that replaces a file of `previous_len` bytes by the
/// document of `tasks`.
///
/// The document is written from the start of the file. Where it is shorter
/// than what the file held, the file is cut to zero length first, so that
/// nothing of the old content is left behind the new.
pub fn save_tasks(previous_len: usize, tasks: &Vec<Task>) -> (plan: WritePlan)
    ensures
        plan.data@ == encode_all(views(tasks@)),
        plan.truncate <==> plan.data@.len() < previous_len,
        forall|before: Seq<u8>|
            before.len() == previous_len ==> #[trigger] plan.file_after(before) == encode_all(
                views(tasks@),
            ),
{
    let data = encode_tasks(tasks);
    let truncate = data.len() < previous_len;
    WritePlan { truncate, data }
}

/// Appends `task` to the collection stored in a file whose content is
/// `content`, and plans the write of the longer collection.
pub fn add_task(content: &[u8], task: Task) -> (outcome: Result<WritePlan, JournalError>)
    ensures
        match outcome {
            Ok(plan) => {
                &&& stored(content@) matches Some(before)
                &&& plan.data@ == encode_all(before.push(task@))
                &&& plan.truncate <==> plan.data@.len() < content@.len()
                &&& plan.file_after(content@) == encode_all(before.push(task@))
            },
            Err(error) => load_failure(content@, error),
        },
        outcome is Ok <==> stored(content@) is Some,
{
    let mut tasks = collect_tasks(content)?;
    let ghost before = views(tasks@);
    tasks.push(task);
    assert(views(tasks@) =~= before.push(task@));
    Ok(save_tasks(content.len(), &tasks))
}

/// Removes the entry at the 1-based ordinal `position` from the collection
/// stored in a file whose content is `content`, and plans the write of the
/// shorter collection.
///
/// A position that names no entry is refused, and then nothing is to be
/// written.
pub fn complete_task(content: &[u8], position: usize) -> (outcome: Result<
    WritePlan,
    JournalError,
>)
    ensures
        match outcome {
            Ok(plan) => {
                &&& stored(content@) matches Some(before)
                &&& 1 <= position <= before.len()
                &&& plan.data@ == encode_all(before.remove(position - 1))
                &&& plan.truncate <==> plan.data@.len() < content@.len()
                &&& plan.file_after(content@) == encode_all(before.remove(position - 1))
            },
            Err(JournalError::InvalidPosition { position: refused }) => {
                &&& refused == position
                &&& stored(content@) matches Some(before)
                &&& (position == 0 || position > before.len())
            },
            Err(error) => load_failure(content@, error),
        },
        outcome is Ok <==> (stored(content@) matches Some(before) && 1 <= position
            <= before.len()),
        outcome is Err ==> file_left(content@, outcome) == content@,
{
    let mut tasks = collect_tasks(content)?;
    if position == 0 || position > tasks.len() {
        return Err(JournalError::InvalidPosition { position });
    }
    let ghost before = views(tasks@);
    tasks.remove(position - 1);
    assert(views(tasks@) =~= before.remove(position - 1));
    Ok(save_tasks(content.len(), &tasks))
}

/// What a journal shows when it is listed.
#[derive(Debug, PartialEq, Eq)]
pub enum Listing {
    /// The journal holds no entry.
    Empty,
    /// The entries of the journal, oldest first: the entry at index `i` has
    /// the ordinal `i + 1`.
    Entries(Vec<Task>),
}

impl Listing {
    /// The entries that the listing shows, in order.
    pub open spec fn entries(&self) -> Seq<TaskView> {
        match self {
            Listing::Empty => Seq::empty(),
            Listing::Entries(tasks) => views(tasks@),
        }
    }
}

/// Lists the collection stored in a file whose content is `content`.
/// Nothing is to be written.
pub fn list_tasks(content: &[u8]) -> (outcome: Result<Listing, JournalError>)
    ensures
        match outcome {
            Ok(listing) => {
                &&& stored(content@) == Some(listing.entries())
                &&& listing is Empty <==> listing.entries().len() == 0
            },
            Err(error) => load_failure(content@, error),
        },
        outcome is Ok <==> stored(content@) is Some,
{
    let tasks = collect_tasks(content)?;
    if tasks.len() == 0 {
        assert(views(tasks@) =~= Seq::<TaskView>::empty());
        Ok(Listing::Empty)
    } else {
        Ok(Listing::Entries(tasks))
    }
}

} // verus!
