//! What holds of the journal's operations taken together.

use crate::decode::stored;
use crate::store::WritePlan;
use crate::task::TaskView;
use vstd::prelude::*;

verus! {

/// Adding appends: the collection after an add is one entry longer, keeps
/// every earlier entry in its place, and ends in the new entry.
pub proof fn law_add_appends(before: Seq<TaskView>, task: TaskView)
    ensures
        before.push(task).len() == before.len() + 1,
        before.push(task).take(before.len() as int) == before,
        forall|i: int| 0 <= i < before.len() ==> before.push(task)[i] == before[i],
        before.push(task)[before.len() as int] == task,
{
    assert(before.push(task).take(before.len() as int) =~= before);
}

/// Removing takes one entry out and nothing else: the collection after the
/// entry at the 1-based ordinal `position` is removed is one entry shorter,
/// the entries before that ordinal stay in place, and each entry behind it
/// moves up by one.
pub proof fn law_removal_keeps_the_rest(before: Seq<TaskView>, position: int)
    requires
        1 <= position <= before.len(),
    ensures
        before.remove(position - 1).len() == before.len() - 1,
        forall|i: int|
            0 <= i < position - 1 ==> #[trigger] before.remove(position - 1)[i] == before[i],
        forall|i: int|
            position - 1 <= i < before.len() - 1 ==> #[trigger] before.remove(position - 1)[i]
                == before[i + 1],
{
}

/// A plan that cuts the file exactly when its data is shorter than the
/// file leaves the file holding the data and nothing else, whatever the
/// file held before.
pub proof fn law_plan_leaves_no_tail(plan: WritePlan, before: Seq<u8>)
    requires
        plan.truncate <==> plan.data@.len() < before.len(),
    ensures
        plan.file_after(before) == plan.data@,
        plan.file_after(before).len() == plan.data@.len(),
{
}

/// A plan that does not cut a longer file leaves the end of the old content
/// behind the data: this is what cutting first prevents.
pub proof fn law_uncut_longer_file_keeps_its_tail(plan: WritePlan, before: Seq<u8>)
    requires
        !plan.truncate,
        plan.data@.len() < before.len(),
    ensures
        plan.file_after(before).len() == before.len(),
        plan.file_after(before) != plan.data@,
        forall|i: int|
            plan.data@.len() <= i < before.len() ==> plan.file_after(before)[i] == before[i],
{
}

/// Reading a file back after a save sees the saved data alone: what is
/// then stored is whatever the data by itself stores, whatever the file
/// held before the save.
pub proof fn law_reading_after_saving_sees_the_data_alone(plan: WritePlan, before: Seq<u8>)
    requires
        plan.truncate <==> plan.data@.len() < before.len(),
    ensures
        stored(plan.file_after(before)) == stored(plan.data@),
{
}

} // verus!
