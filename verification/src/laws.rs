//! Laws of the four requests, proved of the state machines run against the
//! model of the storage engine.
//!
//! A run begins on a store with no transaction open and is driven by a
//! sequence of events. The laws hold of every run in which each event is one
//! that the store admits as the answer to the action before it. No other
//! session writes meanwhile. Beside what must hold of every such run, each
//! request has a law that says that the run with nothing failing is such a
//! run, and where it ends.

use vstd::prelude::*;
use crate::protocol::{CommandView, EventView};

pub mod admin;
pub mod query;
pub mod rebuild;

verus! {

/// Dropping the last of a sequence with one more event gives the sequence.
pub(crate) proof fn lemma_pushed(events: Seq<EventView>, event: EventView)
    ensures
        events.push(event).drop_last() == events,
        events.push(event).last() == event,
        events.push(event).len() == events.len() + 1,
{
    assert(events.push(event).drop_last() =~= events);
}

/// Whether the command reads, writes, creates, renames or drops the table
/// of entries named `table`.
pub open spec fn touches(command: CommandView, table: Seq<char>) -> bool {
    match command {
        CommandView::CreateTable { table: t } => t == table,
        CommandView::InsertEntry { table: t, .. } => t == table,
        CommandView::DropTable { table: t } => t == table,
        CommandView::Search { table: t, .. } => t == table,
        CommandView::RenameTable { from, to } => from == table || to == table,
        _ => false,
    }
}

} // verus!
