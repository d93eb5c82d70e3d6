//! The journal's document: how a collection of entries is laid out as bytes.
//!
//! A collection is one JSON array. Each entry is an object of two members,
//! its text under `"text"` and its second under `"created_at"`, in that
//! order and without white space.

use crate::decimal::{decimal, push_decimal};
use crate::json::{quote, quoted};
use crate::task::{views, Task, TaskView};
use vstd::prelude::*;

verus! {

/// The key under which an entry's text is stored.
pub open spec fn text_key() -> Seq<char> {
    "text"@
}

/// The key under which an entry's second of creation is stored.
pub open spec fn created_at_key() -> Seq<char> {
    "created_at"@
}

/// The bytes of one entry.
pub open spec fn encode_task(task: TaskView) -> Seq<u8> {
    seq![0x7bu8] + quoted(text_key()) + seq![0x3au8] + quoted(task.text) + seq![0x2cu8] + quoted(
        created_at_key(),
    ) + seq![0x3au8] + decimal(task.created_at) + seq![0x7du8]
}

/// The bytes of the entries, one after another, with a comma between each
/// two.
pub open spec fn encode_items(tasks: Seq<TaskView>) -> Seq<u8>
    decreases tasks.len(),
{
    if tasks.len() == 0 {
        Seq::empty()
    } else if tasks.len() == 1 {
        encode_task(tasks[0])
    } else {
        encode_items(tasks.drop_last()) + seq![0x2cu8] + encode_task(tasks.last())
    }
}

/// The bytes of a collection: its entries between square brackets.
pub open spec fn encode_all(tasks: Seq<TaskView>) -> Seq<u8> {
    seq![0x5bu8] + encode_items(tasks) + seq![0x5du8]
}

/// Appends the bytes of one entry to `out`.
pub fn push_task(out: &mut Vec<u8>, task: &Task)
    ensures
        final(out)@ == old(out)@ + encode_task(task@),
{
    let mut text_key = quote("text");
    let mut text = quote(task.text.as_str());
    let mut created_at_key = quote("created_at");
    out.push(0x7bu8);
    out.append(&mut text_key);
    out.push(0x3au8);
    out.append(&mut text);
    out.push(0x2cu8);
    out.append(&mut created_at_key);
    out.push(0x3au8);
    push_decimal(out, task.created_at);
    out.push(0x7du8);
    assert(out@ =~= old(out)@ + encode_task(task@));
}

/// The bytes of a collection.
pub fn encode_tasks(tasks: &Vec<Task>) -> (out: Vec<u8>)
    ensures
        out@ == encode_all(views(tasks@)),
{
    let mut out: Vec<u8> = Vec::new();
    out.push(0x5bu8);
    let mut i: usize = 0;
    while i < tasks.len()
        invariant
            i <= tasks.len(),
            out@ == seq![0x5bu8] + encode_items(views(tasks@).take(i as int)),
        decreases tasks.len() - i,
    {
        let ghost before = views(tasks@).take(i as int);
        let ghost after = views(tasks@).take(i + 1);
        if i > 0 {
            out.push(0x2cu8);
        }
        push_task(&mut out, &tasks[i]);
        proof {
            assert(after.drop_last() =~= before);
            assert(after.last() == tasks@[i as int]@);
            assert(out@ =~= seq![0x5bu8] + encode_items(after));
        }
        i += 1;
    }
    proof {
        assert(views(tasks@).take(i as int) =~= views(tasks@));
    }
    out.push(0x5du8);
    out
}

} // verus!
