//! Reading a collection of entries back from the bytes of a document.

use crate::encode::{created_at_key, text_key};
use crate::error::JournalError;
use crate::json::{document, integer_member, integer_members, members, parse_array, string_member, string_members};
use crate::task::{views, Task, TaskView};
use vstd::prelude::*;

verus! {

/// Whether the members of a JSON value make it an entry: a string under
/// `"text"` and an integer under `"created_at"`.
pub open spec fn is_entry(m: (Map<Seq<char>, Seq<char>>, Map<Seq<char>, int>)) -> bool {
    m.0.contains_key(text_key()) && m.1.contains_key(created_at_key())
}

/// The entry that the members of a JSON value spell out.
pub open spec fn entry_of(m: (Map<Seq<char>, Seq<char>>, Map<Seq<char>, int>)) -> TaskView {
    TaskView { text: m.0[text_key()], created_at: m.1[created_at_key()] }
}

/// Whether `index` is the first element of `items` that is no entry.
pub open spec fn first_stranger(
    items: Seq<(Map<Seq<char>, Seq<char>>, Map<Seq<char>, int>)>,
    index: int,
) -> bool {
    &&& 0 <= index < items.len()
    &&& !is_entry(items[index])
    &&& forall|j: int| 0 <= j < index ==> is_entry(#[trigger] items[j])
}

/// Whether every element of `items` is an entry.
pub open spec fn all_entries(items: Seq<(Map<Seq<char>, Seq<char>>, Map<Seq<char>, int>)>) -> bool {
    forall|j: int| 0 <= j < items.len() ==> is_entry(#[trigger] items[j])
}

/// The entries that the elements of `items` spell out, in order.
pub open spec fn entries_of(
    items: Seq<(Map<Seq<char>, Seq<char>>, Map<Seq<char>, int>)>,
) -> Seq<TaskView> {
    items.map_values(|m: (Map<Seq<char>, Seq<char>>, Map<Seq<char>, int>)| entry_of(m))
}

/// The collection stored in a file whose content is `bytes`, or `None`
/// where the content is no journal. An empty file stores the empty
/// collection; any other content must be one JSON array of entries.
pub open spec fn stored(bytes: Seq<u8>) -> Option<Seq<TaskView>> {
    if bytes.len() == 0 {
        Some(Seq::empty())
    } else {
        match document(bytes) {
            Some(items) if all_entries(items) => Some(entries_of(items)),
            _ => None,
        }
    }
}

/// Whether reading a file whose content is `content` fails with `error`.
pub open spec fn load_failure(content: Seq<u8>, error: JournalError) -> bool {
    match error {
        JournalError::Syntax(_) => content.len() > 0 && document(content) is None,
        JournalError::NotAnEntry { index } => {
            &&& content.len() > 0
            &&& document(content) matches Some(items)
            &&& first_stranger(items, index as int)
        },
        JournalError::InvalidPosition { .. } => false,
    }
}

/// Turns the values of a parsed document into entries, stopping at the
/// first value that is none.
pub fn entries_from_values(values: &Vec<serde_json::Value>) -> (outcome: Result<
    Vec<Task>,
    JournalError,
>)
    ensures
        match outcome {
            Ok(tasks) => all_entries(members(values@)) && views(tasks@) == entries_of(
                members(values@),
            ),
            Err(JournalError::NotAnEntry { index }) => first_stranger(
                members(values@),
                index as int,
            ),
            Err(_) => false,
        },
{
    let mut tasks: Vec<Task> = Vec::new();
    let mut i: usize = 0;
    while i < values.len()
        invariant
            i <= values.len(),
            tasks.len() == i,
            forall|j: int| 0 <= j < i ==> is_entry(#[trigger] members(values@)[j]),
            forall|j: int| 0 <= j < i ==> (#[trigger] tasks@[j])@ == entry_of(members(values@)[j]),
        decreases values.len() - i,
    {
        let text = string_member(&values[i], "text");
        let seconds = integer_member(&values[i], "created_at");
        match (text, seconds) {
            (Some(text), Some(seconds)) => {
                tasks.push(Task::at(text, seconds));
            },
            _ => {
                return Err(JournalError::NotAnEntry { index: i });
            },
        }
        i += 1;
    }
    proof {
        assert(views(tasks@) =~= entries_of(members(values@)));
    }
    Ok(tasks)
}

/// Reads the collection stored in a file from the file's whole content.
///
/// An empty file holds the empty collection. Any other content has to be
/// one JSON array whose elements are all entries; members of an element
/// beyond its text and its second are passed over.
pub fn collect_tasks(content: &[u8]) -> (outcome: Result<Vec<Task>, JournalError>)
    ensures
        match outcome {
            Ok(tasks) => stored(content@) == Some(views(tasks@)),
            Err(error) => load_failure(content@, error),
        },
        outcome is Ok <==> stored(content@) is Some,
        content@.len() == 0 ==> (outcome matches Ok(tasks) && tasks@.len() == 0),
{
    if content.len() == 0 {
        return Ok(Vec::new());
    }
    match parse_array(content) {
        Ok(values) => entries_from_values(&values),
        Err(reason) => Err(JournalError::Syntax(reason)),
    }
}

} // verus!
