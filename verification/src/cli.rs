//! What a caller can ask of the journal, and how the backing file has to be
//! opened for it.

use crate::decode::{load_failure, stored};
use crate::encode::encode_all;
use crate::error::JournalError;
use crate::store::{add_task, complete_task, list_tasks, Listing, WritePlan};
use crate::task::{Task, TaskView};
use std::path::PathBuf;
use vstd::prelude::*;

verus! {

/// A path in the file system. The journal carries it and never looks
/// inside.
#[verifier::external_type_specification]
#[verifier::external_body]
pub struct ExPathBuf(std::path::PathBuf);

/// One request to the journal.
#[derive(Debug, PartialEq, Eq)]
pub enum Action {
    /// Write a new entry with this text at the end of the journal.
    Add { text: String },
    /// Remove the entry at this 1-based ordinal.
    Done { position: usize },
    /// Show every entry of the journal.
    List,
}

/// A request together with the journal file it is meant for. Where no file
/// is named the caller picks its default.
#[derive(Debug)]
pub struct CommandLineArgs {
    pub action: Action,
    pub journal_file: Option<PathBuf>,
}

/// How the backing file is opened.
#[derive(Debug, Clone, Copy, PartialEq, Eq, Structural)]
pub struct OpenMode {
    pub read: bool,
    pub write: bool,
    pub create: bool,
}

/// What the caller has to do once a request has been carried out.
#[derive(Debug)]
pub enum Effect {
    /// Write the journal back as this plan says.
    Write(WritePlan),
    /// Show this listing; the file stays as it is.
    Show(Listing),
}

impl Action {
    /// The way the backing file is opened for this request. Every request
    /// reads the file. Adding and removing also write it. Only adding
    /// creates a file that is not there; removing from or listing a missing
    /// file fails when the file is opened.
    pub fn open_mode(&self) -> (mode: OpenMode)
        ensures
            mode.read,
            mode.write <==> !(self is List),
            mode.create <==> self is Add,
    {
        match self {
            Action::Add { .. } => OpenMode { read: true, write: true, create: true },
            Action::Done { .. } => OpenMode { read: true, write: true, create: false },
            Action::List => OpenMode { read: true, write: false, create: false },
        }
    }

    /// Carries this request out on a journal file whose content is
    /// `content`: adding stamps the new entry with the system clock's
    /// reading, removing and listing are `complete_task` and `list_tasks`.
    pub fn perform(self, content: &[u8]) -> (outcome: Result<Effect, JournalError>)
        ensures
            match (self, outcome) {
                (Action::Add { text }, Ok(Effect::Write(plan))) => {
                    &&& stored(content@) matches Some(before)
                    &&& exists|created_at: int|
                        plan.file_after(content@) == #[trigger] encode_all(
                            before.push(TaskView { text: text@, created_at }),
                        )
                },
                (Action::Done { position }, Ok(Effect::Write(plan))) => {
                    &&& stored(content@) matches Some(before)
                    &&& 1 <= position <= before.len()
                    &&& plan.file_after(content@) == encode_all(before.remove(position - 1))
                },
                (Action::List, Ok(Effect::Show(listing))) => stored(content@) == Some(
                    listing.entries(),
                ),
                (_, Ok(_)) => false,
                (Action::Done { position }, Err(JournalError::InvalidPosition { position: refused })) => {
                    &&& refused == position
                    &&& stored(content@) matches Some(before)
                    &&& (position == 0 || position > before.len())
                },
                (_, Err(error)) => load_failure(content@, error),
            },
    {
        match self {
            Action::Add { text } => {
                let task = Task::new(text);
                let ghost added = task@;
                let plan = add_task(content, task)?;
                assert(plan.file_after(content@) == encode_all(
                    stored(content@).unwrap().push(
                        TaskView { text: added.text, created_at: added.created_at },
                    ),
                ));
                Ok(Effect::Write(plan))
            },
            Action::Done { position } => {
                let plan = complete_task(content, position)?;
                Ok(Effect::Write(plan))
            },
            Action::List => {
                let listing = list_tasks(content)?;
                Ok(Effect::Show(listing))
            },
        }
    }
}

} // verus!
