//! Replacing all entries of an index at once.
//!
//! The new entries are streamed into a shadow table inside one transaction.
//! Once that is committed, a second transaction renames the live table away
//! and the shadow table into its place. Readers see the old entries until
//! that second commit and the new entries after it, and nothing in between.
//! The table renamed away is dropped last, and whether that succeeds does not
//! matter to the request.
//!
//! Rebuilds of one index are not serialised. Each has a shadow table of its
//! own, so two that overlap do not mix their entries; the one whose swap
//! commits last decides what the index holds.

use vstd::prelude::*;
use crate::catalog::resolve;
use crate::names::{fresh_shadow_table, retired_name, retired_table, shadow_name, shadow_table};
use crate::protocol::{
    Action,
    ActionView,
    Command,
    CommandView,
    Event,
    EventView,
    Outcome,
    OutcomeView,
};
use crate::status::Failure;

verus! {

/// How far a rebuild has come. Each phase is named after the action whose
/// answer it waits for.
#[derive(Clone, Copy, Debug, PartialEq, Eq, Structural)]
pub enum RebuildPhase {
    /// The settings of the index were asked for.
    Resolving,
    /// The first transaction was asked for.
    Opening,
    /// The creation of the shadow table was sent.
    Creating,
    /// The next entry of the stream is awaited.
    Streaming,
    /// The insertion of an entry was sent.
    Inserting,
    /// The commit of the shadow table was sent.
    Committing,
    /// The second transaction was asked for.
    SwapOpening,
    /// The renaming of the live table was sent.
    Retiring,
    /// The renaming of the shadow table was sent.
    Promoting,
    /// The commit of the swap was sent.
    SwapCommitting,
    /// The drop of the replaced table was sent.
    Cleaning,
    /// The request was answered.
    Finished,
}

/// One rebuild in progress.
#[derive(Clone, Debug, PartialEq, Eq)]
pub struct Rebuild {
    pub phase: RebuildPhase,
    /// The index, which is also the name of its live table.
    pub index: String,
    /// The shadow table of this rebuild.
    pub shadow: String,
    /// The language of the index, once resolved.
    pub language: String,
}

/// A rebuild in progress as plain values.
pub struct RebuildView {
    pub phase: RebuildPhase,
    pub index: Seq<char>,
    pub shadow: Seq<char>,
    pub language: Seq<char>,
}

impl View for Rebuild {
    type V = RebuildView;

    open spec fn view(&self) -> RebuildView {
        RebuildView {
            phase: self.phase,
            index: self.index@,
            shadow: self.shadow@,
            language: self.language@,
        }
    }
}

impl RebuildView {
    /// The same rebuild in another phase.
    pub open spec fn at(self, phase: RebuildPhase) -> RebuildView {
        RebuildView { phase, ..self }
    }

    /// The name under which the replaced table waits to be dropped.
    pub open spec fn retired(self) -> Seq<char> {
        retired_name(self.shadow)
    }
}

/// How the rebuild of `index` into the table `shadow` begins.
pub open spec fn rebuild_start(index: Seq<char>, shadow: Seq<char>) -> (RebuildView, ActionView) {
    (
        RebuildView { phase: RebuildPhase::Resolving, index, shadow, language: Seq::empty() },
        ActionView::Run(CommandView::LookupIndex { name: index }),
    )
}

/// How a rebuild goes on after an event.
///
/// A failure while a transaction is open rolls it back. A failure to open or
/// to commit one leaves none open. Either way the request fails and the live
/// table is as it was. Only the last step, the drop of the replaced table,
/// may fail without failing the request.
pub open spec fn rebuild_step(m: RebuildView, e: EventView) -> (RebuildView, ActionView) {
    let done = m.at(RebuildPhase::Finished);
    let failed = OutcomeView::Failed(Failure::Storage);
    match m.phase {
        RebuildPhase::Resolving => match e {
            EventView::Settings(Some(s)) => (
                RebuildView { phase: RebuildPhase::Opening, language: s.language, ..m },
                ActionView::Begin,
            ),
            EventView::Settings(None) => (
                done,
                ActionView::Finish(OutcomeView::Failed(Failure::UnknownIndex)),
            ),
            _ => (done, ActionView::Finish(failed)),
        },
        RebuildPhase::Opening => match e {
            EventView::Succeeded => (
                m.at(RebuildPhase::Creating),
                ActionView::Run(CommandView::CreateTable { table: m.shadow }),
            ),
            _ => (done, ActionView::Finish(failed)),
        },
        RebuildPhase::Creating => match e {
            EventView::Succeeded => (m.at(RebuildPhase::Streaming), ActionView::NextEntry),
            _ => (done, ActionView::Abort(failed)),
        },
        RebuildPhase::Streaming => match e {
            EventView::Entry(entry) => (
                m.at(RebuildPhase::Inserting),
                ActionView::Run(
                    CommandView::InsertEntry { table: m.shadow, language: m.language, entry },
                ),
            ),
            EventView::EndOfEntries => (m.at(RebuildPhase::Committing), ActionView::Commit),
            EventView::StreamBroken => (done, ActionView::Abort(OutcomeView::Cancelled)),
            _ => (done, ActionView::Abort(failed)),
        },
        RebuildPhase::Inserting => match e {
            EventView::Succeeded => (m.at(RebuildPhase::Streaming), ActionView::NextEntry),
            _ => (done, ActionView::Abort(failed)),
        },
        RebuildPhase::Committing => match e {
            EventView::Succeeded => (m.at(RebuildPhase::SwapOpening), ActionView::Begin),
            _ => (done, ActionView::Finish(failed)),
        },
        RebuildPhase::SwapOpening => match e {
            EventView::Succeeded => (
                m.at(RebuildPhase::Retiring),
                ActionView::Run(CommandView::RenameTable { from: m.index, to: m.retired() }),
            ),
            _ => (done, ActionView::Finish(failed)),
        },
        RebuildPhase::Retiring => match e {
            EventView::Succeeded => (
                m.at(RebuildPhase::Promoting),
                ActionView::Run(CommandView::RenameTable { from: m.shadow, to: m.index }),
            ),
            _ => (done, ActionView::Abort(failed)),
        },
        RebuildPhase::Promoting => match e {
            EventView::Succeeded => (m.at(RebuildPhase::SwapCommitting), ActionView::Commit),
            _ => (done, ActionView::Abort(failed)),
        },
        RebuildPhase::SwapCommitting => match e {
            EventView::Succeeded => (
                m.at(RebuildPhase::Cleaning),
                ActionView::Run(CommandView::DropTable { table: m.retired() }),
            ),
            _ => (done, ActionView::Finish(failed)),
        },
        RebuildPhase::Cleaning => (done, ActionView::Finish(OutcomeView::Done)),
        RebuildPhase::Finished => (done, ActionView::Finish(failed)),
    }
}

impl Rebuild {
    /// Begins the rebuild of `index` numbered `nonce`.
    pub fn start(index: String, nonce: u32) -> (r: (Rebuild, Action))
        ensures
            (r.0@, r.1@) == rebuild_start(index@, shadow_name(index@, nonce as nat)),
    {
        let shadow = shadow_table(index.as_str(), nonce);
        Rebuild::start_into(index, shadow)
    }

    /// Begins a rebuild of `index` under a number drawn at random.
    pub fn begin(index: String) -> (r: (Rebuild, Action))
        ensures
            exists|nonce: u32|
                (r.0@, r.1@) == rebuild_start(index@, shadow_name(index@, nonce as nat)),
    {
        let shadow = fresh_shadow_table(index.as_str());
        Rebuild::start_into(index, shadow)
    }

    /// Begins the rebuild of `index` into the shadow table named `shadow`.
    fn start_into(index: String, shadow: String) -> (r: (Rebuild, Action))
        ensures
            (r.0@, r.1@) == rebuild_start(index@, shadow@),
    {
        let name = index.clone();
        (
            Rebuild { phase: RebuildPhase::Resolving, index, shadow, language: String::new() },
            Action::Run(Command::LookupIndex { name }),
        )
    }

    /// Takes the event that answers the last action, and says what to do
    /// next.
    pub fn step(&mut self, event: Event) -> (action: Action)
        ensures
            (final(self)@, action@) == rebuild_step(old(self)@, event@),
    {
        let phase = self.phase;
        self.phase = RebuildPhase::Finished;
        match phase {
            RebuildPhase::Resolving => match event {
                Event::Settings(found) => match resolve(found) {
                    Ok(s) => {
                        self.phase = RebuildPhase::Opening;
                        self.language = s.language;
                        Action::Begin
                    },
                    Err(f) => Action::Finish(Outcome::Failed(f)),
                },
                _ => Action::Finish(Outcome::Failed(Failure::Storage)),
            },
            RebuildPhase::Opening => match event {
                Event::Succeeded => {
                    self.phase = RebuildPhase::Creating;
                    Action::Run(Command::CreateTable { table: self.shadow.clone() })
                },
                _ => Action::Finish(Outcome::Failed(Failure::Storage)),
            },
            RebuildPhase::Creating => match event {
                Event::Succeeded => {
                    self.phase = RebuildPhase::Streaming;
                    Action::NextEntry
                },
                _ => Action::Abort(Outcome::Failed(Failure::Storage)),
            },
            RebuildPhase::Streaming => match event {
                Event::Entry(entry) => {
                    self.phase = RebuildPhase::Inserting;
                    Action::Run(
                        Command::InsertEntry {
                            table: self.shadow.clone(),
                            language: self.language.clone(),
                            entry,
                        },
                    )
                },
                Event::EndOfEntries => {
                    self.phase = RebuildPhase::Committing;
                    Action::Commit
                },
                Event::StreamBroken => Action::Abort(Outcome::Cancelled),
                _ => Action::Abort(Outcome::Failed(Failure::Storage)),
            },
            RebuildPhase::Inserting => match event {
                Event::Succeeded => {
                    self.phase = RebuildPhase::Streaming;
                    Action::NextEntry
                },
                _ => Action::Abort(Outcome::Failed(Failure::Storage)),
            },
            RebuildPhase::Committing => match event {
                Event::Succeeded => {
                    self.phase = RebuildPhase::SwapOpening;
                    Action::Begin
                },
                _ => Action::Finish(Outcome::Failed(Failure::Storage)),
            },
            RebuildPhase::SwapOpening => match event {
                Event::Succeeded => {
                    self.phase = RebuildPhase::Retiring;
                    Action::Run(
                        Command::RenameTable {
                            from: self.index.clone(),
                            to: retired_table(self.shadow.as_str()),
                        },
                    )
                },
                _ => Action::Finish(Outcome::Failed(Failure::Storage)),
            },
            RebuildPhase::Retiring => match event {
                Event::Succeeded => {
                    self.phase = RebuildPhase::Promoting;
                    Action::Run(
                        Command::RenameTable { from: self.shadow.clone(), to: self.index.clone() },
                    )
                },
                _ => Action::Abort(Outcome::Failed(Failure::Storage)),
            },
            RebuildPhase::Promoting => match event {
                Event::Succeeded => {
                    self.phase = RebuildPhase::SwapCommitting;
                    Action::Commit
                },
                _ => Action::Abort(Outcome::Failed(Failure::Storage)),
            },
            RebuildPhase::SwapCommitting => match event {
                Event::Succeeded => {
                    self.phase = RebuildPhase::Cleaning;
                    Action::Run(Command::DropTable { table: retired_table(self.shadow.as_str()) })
                },
                _ => Action::Finish(Outcome::Failed(Failure::Storage)),
            },
            RebuildPhase::Cleaning => Action::Finish(Outcome::Done),
            RebuildPhase::Finished => Action::Finish(Outcome::Failed(Failure::Storage)),
        }
    }
}

} // verus!
