//! What the service relies on from its storage engine, as a model.
//!
//! The model knows tables of entries by name, the catalog, and transactions:
//! what an open transaction has changed is invisible to everyone else until
//! it commits, and gone if it does not. Of ranking and of distances it
//! knows only that the engine has a measure of each. It is a statement of
//! assumptions; nothing here runs.

use vstd::prelude::*;
use crate::catalog::{IndexSettingsView, INDEX_TABLE};
use crate::geo::Circle;
use crate::protocol::{ActionView, CommandView, EntryView, EventView, OutcomeView};
use crate::status::Failure;
use crate::storage::UNIQUE_VIOLATION;

verus! {

/// What the engine measures by means of its own: whether a geometry lies
/// within a circle, and how well a document matches a query text in a
/// language. A higher rank is a better match.
pub struct Measures {
    pub within: spec_fn(Seq<char>, Circle) -> bool,
    pub rank: spec_fn(Seq<char>, Seq<char>, Seq<char>) -> int,
}

/// One state of the database: the catalog, and the tables of entries by
/// name. The catalog table itself is not among them. The measures of the
/// engine are part of it and never change.
pub struct Tables {
    pub measures: Measures,
    pub catalog: Map<Seq<char>, IndexSettingsView>,
    pub tables: Map<Seq<char>, Seq<EntryView>>,
}

/// The database as one session sees it.
pub struct Store {
    /// What is committed: the state that every reader sees.
    pub committed: Tables,
    /// The state inside the open transaction of this session, if it has one.
    pub pending: Option<Tables>,
}

impl Tables {
    /// The settings of an index, where the catalog has it.
    pub open spec fn lookup(self, name: Seq<char>) -> Option<IndexSettingsView> {
        if self.catalog.contains_key(name) {
            Some(self.catalog[name])
        } else {
            None
        }
    }

    /// The entries of a table, where it exists.
    pub open spec fn entries(self, table: Seq<char>) -> Option<Seq<EntryView>> {
        if self.tables.contains_key(table) {
            Some(self.tables[table])
        } else {
            None
        }
    }

    /// What holds of the database between requests: every index of the
    /// catalog has its table of entries, and no index and no table of
    /// entries has the name of the catalog table.
    pub open spec fn well_formed(self) -> bool {
        &&& forall|name: Seq<char>| #[trigger]
            self.catalog.contains_key(name) ==> self.tables.contains_key(name)
        &&& !self.catalog.contains_key(INDEX_TABLE@)
        &&& !self.tables.contains_key(INDEX_TABLE@)
    }

    /// Whether a table of entries may bear this name now.
    pub open spec fn name_is_free(self, table: Seq<char>) -> bool {
        !self.tables.contains_key(table) && table != INDEX_TABLE@
    }

    /// Whether the engine can carry out the command in this state. It fails
    /// a command that it cannot carry out, and may fail any other.
    pub open spec fn can_run(self, command: CommandView) -> bool {
        match command {
            CommandView::InsertIndex { name, .. } => !self.catalog.contains_key(name),
            CommandView::CreateTable { table } => self.name_is_free(table),
            CommandView::InsertEntry { table, .. } => self.tables.contains_key(table),
            CommandView::RenameTable { from, to } => self.tables.contains_key(from)
                && self.name_is_free(to),
            CommandView::DropTable { table } => self.tables.contains_key(table),
            CommandView::Search { table, .. } => self.tables.contains_key(table),
            _ => true,
        }
    }

    /// Whether an entry is left in by the radius filter of a search: any
    /// entry where there is no filter, and else one that has a geometry, and
    /// whose geometry lies within the circle.
    pub open spec fn passes(self, entry: EntryView, filter: Option<Circle>) -> bool {
        match filter {
            None => true,
            Some(circle) => entry.geom matches Some(geometry) && (self.measures.within)(
                geometry,
                circle,
            ),
        }
    }

    /// Whether `rows` can be what a search selects: for some choice of
    /// entries of the table, the payloads of these in this order.
    pub open spec fn selects(self, command: CommandView, rows: Seq<Seq<u8>>) -> bool {
        &&& command is Search
        &&& self.tables.contains_key(command->Search_table)
        &&& exists|picks: Seq<int>| #[trigger] self.picked(command, picks, rows)
    }

    /// Whether the entries at the positions `picks` are what a search
    /// selects, and `rows` their payloads.
    ///
    /// No entry is picked twice and no more are picked than the limit. Every
    /// entry picked passes the radius filter. They come best match first.
    /// An entry that passes the filter is left out only when the limit is
    /// reached, and then none that was picked ranks below it.
    pub open spec fn picked(self, command: CommandView, picks: Seq<int>, rows: Seq<Seq<u8>>) -> bool {
        let entries = self.tables[command->Search_table];
        let filter = command->Search_filter;
        let limit = command->Search_limit;
        let rank = |i: int|
            (self.measures.rank)(command->Search_language, command->Search_text, entries[i].data);
        &&& picks.len() == rows.len()
        &&& picks.len() <= limit
        &&& picks.no_duplicates()
        &&& forall|i: int|
            0 <= i < picks.len() ==> {
                &&& 0 <= #[trigger] picks[i] < entries.len()
                &&& rows[i] == entries[picks[i]].response
                &&& self.passes(entries[picks[i]], filter)
            }
        &&& forall|i: int, j: int|
            0 <= i <= j < picks.len() ==> rank(#[trigger] picks[i]) >= rank(#[trigger] picks[j])
        &&& forall|k: int|
            0 <= k < entries.len() && !picks.contains(k) && #[trigger] self.passes(
                entries[k],
                filter,
            ) ==> picks.len() == limit && forall|i: int|
                0 <= i < picks.len() ==> rank(#[trigger] picks[i]) >= rank(k)
    }

    /// The state after the command was carried out.
    pub open spec fn after(self, command: CommandView) -> Tables {
        match command {
            CommandView::InsertIndex { name, language, response_width } => Tables {
                catalog: self.catalog.insert(name, IndexSettingsView { language, response_width }),
                ..self
            },
            CommandView::DeleteIndex { name } => Tables {
                catalog: self.catalog.remove(name),
                ..self
            },
            CommandView::CreateTable { table } => Tables {
                tables: self.tables.insert(table, Seq::empty()),
                ..self
            },
            CommandView::InsertEntry { table, entry, .. } => Tables {
                tables: self.tables.insert(table, self.tables[table].push(entry)),
                ..self
            },
            CommandView::RenameTable { from, to } => Tables {
                tables: self.tables.remove(from).insert(to, self.tables[from]),
                ..self
            },
            CommandView::DropTable { table } => Tables { tables: self.tables.remove(table), ..self },
            _ => self,
        }
    }
}

impl Store {
    /// A store with nothing pending.
    pub open spec fn at_rest(tables: Tables) -> Store {
        Store { committed: tables, pending: None }
    }

    /// The state that a command of this session runs on.
    pub open spec fn current(self) -> Tables {
        match self.pending {
            Some(p) => p,
            None => self.committed,
        }
    }

    /// The entries of a table as a reader sees them.
    pub open spec fn visible(self, table: Seq<char>) -> Option<Seq<EntryView>> {
        self.committed.entries(table)
    }

    /// Whether the event can be the answer to the action in this state.
    ///
    /// The engine may fail anything, but reports a unique violation only of
    /// an insert into the catalog under a name that is taken. It reports
    /// success only of what it can carry out, and reads the catalog as it
    /// is. The stream of entries may deliver, end or break. Once a request is
    /// answered, nothing follows.
    pub open spec fn admits(self, action: ActionView, event: EventView) -> bool {
        match action {
            ActionView::Begin => (event is Succeeded && self.pending is None) || event is Failed,
            ActionView::Run(command) => match event {
                EventView::Failed(code) => code == Some(UNIQUE_VIOLATION@) ==> !self.current().can_run(
                    command,
                ) && command is InsertIndex,
                EventView::Settings(found) => command matches CommandView::LookupIndex { name }
                    && found == self.current().lookup(name),
                EventView::Rows(rows) => self.current().selects(command, rows),
                EventView::Succeeded => !(command is LookupIndex) && !(command is Search)
                    && self.current().can_run(command),
                _ => false,
            },
            ActionView::Commit => (event is Succeeded && self.pending is Some) || event is Failed,
            ActionView::NextEntry => event is Entry || event is EndOfEntries
                || event is StreamBroken,
            ActionView::Finish(_) => false,
            ActionView::Abort(_) => false,
        }
    }

    /// The store after the action was answered by the event.
    pub open spec fn react(self, action: ActionView, event: EventView) -> Store {
        match action {
            ActionView::Begin => if event is Succeeded {
                Store { pending: Some(self.committed), ..self }
            } else {
                self
            },
            ActionView::Run(command) => if event is Failed {
                self
            } else {
                match self.pending {
                    Some(p) => Store { pending: Some(p.after(command)), ..self },
                    None => Store { committed: self.committed.after(command), ..self },
                }
            },
            ActionView::Commit => match self.pending {
                Some(p) => if event is Succeeded {
                    Store { committed: p, pending: None }
                } else {
                    Store { pending: None, ..self }
                },
                None => self,
            },
            _ => self,
        }
    }

    /// The store once the machine has chosen its next action: an abort rolls
    /// the open transaction back without waiting for an answer.
    pub open spec fn settle(self, next: ActionView) -> Store {
        if next is Abort {
            Store { pending: None, ..self }
        } else {
            self
        }
    }
}

/// Where a run stands: the machine, the action it asked for last, the store,
/// and whether every event so far was one that the store admits.
pub struct Run<M> {
    pub machine: M,
    pub action: ActionView,
    pub store: Store,
    pub valid: bool,
}

impl<M> Run<M> {
    /// Whether the run has ended, and the request was carried out.
    pub open spec fn completed(self) -> bool {
        self.action == ActionView::Finish(OutcomeView::Done)
    }

    /// Whether the run has ended with the given failure.
    pub open spec fn failed_with(self, failure: Failure) -> bool {
        self.action == ActionView::Finish(OutcomeView::Failed(failure)) || self.action
            == ActionView::Abort(OutcomeView::Failed(failure))
    }

    /// Whether the run has ended.
    pub open spec fn ended(self) -> bool {
        self.action is Finish || self.action is Abort
    }
}

/// A machine that begins with `first` and goes on by `step`, run on `store`
/// and driven by `events`.
pub open spec fn drive<M>(
    first: (M, ActionView),
    step: spec_fn(M, EventView) -> (M, ActionView),
    store: Store,
    events: Seq<EventView>,
) -> Run<M>
    decreases events.len(),
{
    if events.len() == 0 {
        Run { machine: first.0, action: first.1, store: store.settle(first.1), valid: true }
    } else {
        let before = drive(first, step, store, events.drop_last());
        let event = events.last();
        let (machine, action) = step(before.machine, event);
        Run {
            machine,
            action,
            store: before.store.react(before.action, event).settle(action),
            valid: before.valid && before.store.admits(before.action, event),
        }
    }
}

} // verus!
