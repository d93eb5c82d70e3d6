//! The journal's entry: a line of text and the instant it was created.

use crate::clock::{format_instant, has_instant, local_offset, now_seconds, stamp, stamp_pattern};
use vstd::prelude::*;
use vstd::string::StringExecFns;

verus! {

/// One journal entry.
///
/// `created_at` counts whole seconds since 1970-01-01T00:00:00 UTC, so the
/// entry means the same instant on every machine; a time zone enters only
/// when the entry is rendered.
#[derive(Debug, Clone, PartialEq, Eq)]
pub struct Task {
    pub text: String,
    pub created_at: i64,
}

/// What an entry is, mathematically: its characters and its second.
pub struct TaskView {
    pub text: Seq<char>,
    pub created_at: int,
}

impl View for Task {
    type V = TaskView;

    open spec fn view(&self) -> TaskView {
        TaskView { text: self.text@, created_at: self.created_at as int }
    }
}

/// The entries of a collection, each taken by its view, in order.
pub open spec fn views(tasks: Seq<Task>) -> Seq<TaskView> {
    tasks.map_values(|t: Task| t@)
}

/// The column to which an entry's text is padded when it is rendered.
pub const TEXT_COLUMNS: usize = 50;

/// The spaces that fill a text of `len` characters up to the text column;
/// none where the text reaches it already.
pub open spec fn padding(len: nat) -> Seq<char> {
    Seq::new(
        if len < TEXT_COLUMNS {
            (TEXT_COLUMNS - len) as nat
        } else {
            0
        },
        |i: int| ' ',
    )
}

/// One rendered line: the text, padded on the right to the text column and
/// never cut, then the stamp between square brackets.
pub open spec fn layout(text: Seq<char>, stamp: Seq<char>) -> Seq<char> {
    text + padding(text.len()) + seq![' ', '['] + stamp + seq![']']
}

impl Task {
    /// A new entry with the given text, created now by the system clock.
    pub fn new(text: String) -> (task: Task)
        ensures
            task.text == text,
    {
        Task::at(text, now_seconds())
    }

    /// The line that shows this entry with `stamp` as the text of its
    /// instant.
    pub fn layout(&self, stamp: &str) -> (line: String)
        ensures
            line@ == layout(self.text@, stamp@),
    {
        let mut line = self.text.clone();
        let mut columns = self.text.as_str().unicode_len();
        while columns < TEXT_COLUMNS
            invariant
                columns <= TEXT_COLUMNS || columns == self.text@.len(),
                columns >= self.text@.len(),
                line@ == self.text@ + Seq::new((columns - self.text@.len()) as nat, |i: int| ' '),
            decreases TEXT_COLUMNS - columns,
        {
            proof {
                reveal_strlit(" ");
            }
            line.append(" ");
            columns += 1;
            assert(line@ =~= self.text@ + Seq::new(
                (columns - self.text@.len()) as nat,
                |i: int| ' ',
            ));
        }
        assert(line@ =~= self.text@ + padding(self.text@.len()));
        proof {
            reveal_strlit(" [");
            reveal_strlit("]");
        }
        line.append(" [");
        line.append(stamp);
        line.append("]");
        assert(line@ =~= layout(self.text@, stamp@));
        line
    }

    /// The line that shows this entry to a reader whose clock is `offset`
    /// seconds ahead of UTC. There is none where the calendar does not
    /// reach the entry's instant, or where the offset is a day or more.
    pub fn render(&self, offset: i32) -> (line: Option<String>)
        ensures
            line is Some <==> (has_instant(self.created_at as int) && -86_400 < offset < 86_400),
            match line {
                Some(l) => stamp(self.created_at as int, offset as int, stamp_pattern())
                    matches Some(s) && l@ == layout(self.text@, s),
                None => stamp(self.created_at as int, offset as int, stamp_pattern()) is None,
            },
    {
        match format_instant(self.created_at, offset, "%F %H:%M") {
            Some(stamp) => Some(self.layout(stamp.as_str())),
            None => None,
        }
    }

    /// The line that shows this entry in the machine's own time zone, as
    /// that zone stood at the entry's instant. There is none where the
    /// calendar does not reach the instant.
    pub fn render_local(&self) -> (line: Option<String>)
        ensures
            line is Some <==> has_instant(self.created_at as int),
            line matches Some(l) ==> exists|offset: int|
                {
                    &&& -86_400 < offset < 86_400
                    &&& #[trigger] stamp(self.created_at as int, offset, stamp_pattern())
                        matches Some(s)
                    &&& l@ == layout(self.text@, s)
                },
    {
        match local_offset(self.created_at) {
            Some(offset) => self.render(offset),
            None => None,
        }
    }

    /// The entry with the given text, created at the given second.
    pub fn at(text: String, created_at: i64) -> (task: Task)
        ensures
            task.text == text,
            task.created_at == created_at,
    {
        Task { text, created_at }
    }
}

} // verus!
