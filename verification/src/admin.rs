//! Defining and removing indexes. Either changes the catalog and the
//! index's table of entries in one transaction: both or neither.

use vstd::prelude::*;
use crate::catalog::{
    check_definition,
    check_name,
    definition_verdict,
    name_verdict,
    IndexDefinition,
    IndexDefinitionView,
};
use crate::protocol::{
    Action,
    ActionView,
    Command,
    CommandView,
    Event,
    EventView,
    Outcome,
    OutcomeView,
};
use crate::status::Failure;
use crate::storage::{classify_insert_failure, insert_failure};

verus! {

/// The commands that prepare an empty database for the service: the
/// geospatial extension and the catalog table. Neither depends on the other,
/// and both leave alone what is there already.
pub open spec fn bootstrap_commands() -> Seq<CommandView> {
    seq![CommandView::AddExtension, CommandView::CreateCatalog]
}

/// Lists the commands to run before the first request is served.
pub fn ensure_data_structure() -> (commands: Vec<Command>)
    ensures
        commands@.map_values(|c: Command| c@) == bootstrap_commands(),
{
    let mut commands: Vec<Command> = Vec::new();
    commands.push(Command::AddExtension);
    commands.push(Command::CreateCatalog);
    assert(commands@.map_values(|c: Command| c@) =~= bootstrap_commands());
    commands
}

/// How far the definition of an index has come.
#[derive(Clone, Copy, Debug, PartialEq, Eq, Structural)]
pub enum AddIndexPhase {
    /// A transaction was asked for.
    Opening,
    /// The catalog row was sent.
    Registering,
    /// The creation of the table was sent.
    Creating,
    /// The commit was sent.
    Committing,
    /// The request was answered.
    Finished,
}

/// The definition of one index in progress.
#[derive(Clone, Debug, PartialEq, Eq)]
pub struct AddIndex {
    pub phase: AddIndexPhase,
    pub definition: IndexDefinition,
}

/// The definition of an index in progress, as plain values.
pub struct AddIndexView {
    pub phase: AddIndexPhase,
    pub definition: IndexDefinitionView,
}

impl View for AddIndex {
    type V = AddIndexView;

    open spec fn view(&self) -> AddIndexView {
        AddIndexView { phase: self.phase, definition: self.definition@ }
    }
}

impl AddIndexView {
    /// The same request in another phase.
    pub open spec fn at(self, phase: AddIndexPhase) -> AddIndexView {
        AddIndexView { phase, ..self }
    }
}

/// How the definition of an index begins. An invalid definition ends it
/// before the storage engine is touched.
pub open spec fn add_index_start(definition: IndexDefinitionView) -> (AddIndexView, ActionView) {
    let m = AddIndexView { phase: AddIndexPhase::Opening, definition };
    match definition_verdict(definition) {
        Err(f) => (m.at(AddIndexPhase::Finished), ActionView::Finish(OutcomeView::Failed(f))),
        Ok(_) => (m, ActionView::Begin),
    }
}

/// How the definition of an index goes on after an event.
pub open spec fn add_index_step(m: AddIndexView, e: EventView) -> (AddIndexView, ActionView) {
    let done = m.at(AddIndexPhase::Finished);
    let failed = OutcomeView::Failed(Failure::Storage);
    match m.phase {
        AddIndexPhase::Opening => match e {
            EventView::Succeeded => (
                m.at(AddIndexPhase::Registering),
                ActionView::Run(
                    CommandView::InsertIndex {
                        name: m.definition.name,
                        language: m.definition.language,
                        response_width: m.definition.response_width,
                    },
                ),
            ),
            _ => (done, ActionView::Finish(failed)),
        },
        AddIndexPhase::Registering => match e {
            EventView::Succeeded => (
                m.at(AddIndexPhase::Creating),
                ActionView::Run(CommandView::CreateTable { table: m.definition.name }),
            ),
            EventView::Failed(code) => (
                done,
                ActionView::Abort(OutcomeView::Failed(insert_failure(code))),
            ),
            _ => (done, ActionView::Abort(failed)),
        },
        AddIndexPhase::Creating => match e {
            EventView::Succeeded => (m.at(AddIndexPhase::Committing), ActionView::Commit),
            _ => (done, ActionView::Abort(failed)),
        },
        AddIndexPhase::Committing => match e {
            EventView::Succeeded => (done, ActionView::Finish(OutcomeView::Done)),
            _ => (done, ActionView::Finish(failed)),
        },
        AddIndexPhase::Finished => (done, ActionView::Finish(failed)),
    }
}

impl AddIndex {
    /// Begins to define an index.
    pub fn start(definition: IndexDefinition) -> (r: (AddIndex, Action))
        ensures
            (r.0@, r.1@) == add_index_start(definition@),
    {
        match check_definition(&definition) {
            Err(f) => (
                AddIndex { phase: AddIndexPhase::Finished, definition },
                Action::Finish(Outcome::Failed(f)),
            ),
            Ok(_) => (AddIndex { phase: AddIndexPhase::Opening, definition }, Action::Begin),
        }
    }

    /// Takes the event that answers the last action, and says what to do
    /// next.
    pub fn step(&mut self, event: Event) -> (action: Action)
        ensures
            (final(self)@, action@) == add_index_step(old(self)@, event@),
    {
        let phase = self.phase;
        self.phase = AddIndexPhase::Finished;
        match phase {
            AddIndexPhase::Opening => match event {
                Event::Succeeded => {
                    self.phase = AddIndexPhase::Registering;
                    Action::Run(
                        Command::InsertIndex {
                            name: self.definition.name.clone(),
                            language: self.definition.language.clone(),
                            response_width: self.definition.response_width,
                        },
                    )
                },
                _ => Action::Finish(Outcome::Failed(Failure::Storage)),
            },
            AddIndexPhase::Registering => match event {
                Event::Succeeded => {
                    self.phase = AddIndexPhase::Creating;
                    Action::Run(Command::CreateTable { table: self.definition.name.clone() })
                },
                Event::Failed(code) => Action::Abort(Outcome::Failed(classify_insert_failure(&code))),
                _ => Action::Abort(Outcome::Failed(Failure::Storage)),
            },
            AddIndexPhase::Creating => match event {
                Event::Succeeded => {
                    self.phase = AddIndexPhase::Committing;
                    Action::Commit
                },
                _ => Action::Abort(Outcome::Failed(Failure::Storage)),
            },
            AddIndexPhase::Committing => match event {
                Event::Succeeded => Action::Finish(Outcome::Done),
                _ => Action::Finish(Outcome::Failed(Failure::Storage)),
            },
            AddIndexPhase::Finished => Action::Finish(Outcome::Failed(Failure::Storage)),
        }
    }
}

/// How far the removal of an index has come.
#[derive(Clone, Copy, Debug, PartialEq, Eq, Structural)]
pub enum DeleteIndexPhase {
    /// A transaction was asked for.
    Opening,
    /// The drop of the table was sent.
    Dropping,
    /// The removal of the catalog row was sent.
    Unregistering,
    /// The commit was sent.
    Committing,
    /// The request was answered.
    Finished,
}

/// The removal of one index in progress.
#[derive(Clone, Debug, PartialEq, Eq)]
pub struct DeleteIndex {
    pub phase: DeleteIndexPhase,
    pub name: String,
}

/// The removal of an index in progress, as plain values.
pub struct DeleteIndexView {
    pub phase: DeleteIndexPhase,
    pub name: Seq<char>,
}

impl View for DeleteIndex {
    type V = DeleteIndexView;

    open spec fn view(&self) -> DeleteIndexView {
        DeleteIndexView { phase: self.phase, name: self.name@ }
    }
}

impl DeleteIndexView {
    /// The same request in another phase.
    pub open spec fn at(self, phase: DeleteIndexPhase) -> DeleteIndexView {
        DeleteIndexView { phase, ..self }
    }
}

/// How the removal of an index begins. An empty name and the catalog
/// table's own name end it before the storage engine is touched.
pub open spec fn delete_index_start(name: Seq<char>) -> (DeleteIndexView, ActionView) {
    let m = DeleteIndexView { phase: DeleteIndexPhase::Opening, name };
    match name_verdict(name) {
        Err(f) => (m.at(DeleteIndexPhase::Finished), ActionView::Finish(OutcomeView::Failed(f))),
        Ok(_) => (m, ActionView::Begin),
    }
}

/// How the removal of an index goes on after an event.
pub open spec fn delete_index_step(m: DeleteIndexView, e: EventView) -> (
    DeleteIndexView,
    ActionView,
) {
    let done = m.at(DeleteIndexPhase::Finished);
    let failed = OutcomeView::Failed(Failure::Storage);
    match m.phase {
        DeleteIndexPhase::Opening => match e {
            EventView::Succeeded => (
                m.at(DeleteIndexPhase::Dropping),
                ActionView::Run(CommandView::DropTable { table: m.name }),
            ),
            _ => (done, ActionView::Finish(failed)),
        },
        DeleteIndexPhase::Dropping => match e {
            EventView::Succeeded => (
                m.at(DeleteIndexPhase::Unregistering),
                ActionView::Run(CommandView::DeleteIndex { name: m.name }),
            ),
            _ => (done, ActionView::Abort(failed)),
        },
        DeleteIndexPhase::Unregistering => match e {
            EventView::Succeeded => (m.at(DeleteIndexPhase::Committing), ActionView::Commit),
            _ => (done, ActionView::Abort(failed)),
        },
        DeleteIndexPhase::Committing => match e {
            EventView::Succeeded => (done, ActionView::Finish(OutcomeView::Done)),
            _ => (done, ActionView::Finish(failed)),
        },
        DeleteIndexPhase::Finished => (done, ActionView::Finish(failed)),
    }
}

impl DeleteIndex {
    /// Begins to remove an index.
    pub fn start(name: String) -> (r: (DeleteIndex, Action))
        ensures
            (r.0@, r.1@) == delete_index_start(name@),
    {
        match check_name(name.as_str()) {
            Err(f) => (
                DeleteIndex { phase: DeleteIndexPhase::Finished, name },
                Action::Finish(Outcome::Failed(f)),
            ),
            Ok(_) => (DeleteIndex { phase: DeleteIndexPhase::Opening, name }, Action::Begin),
        }
    }

    /// Takes the event that answers the last action, and says what to do
    /// next.
    pub fn step(&mut self, event: Event) -> (action: Action)
        ensures
            (final(self)@, action@) == delete_index_step(old(self)@, event@),
    {
        let phase = self.phase;
        self.phase = DeleteIndexPhase::Finished;
        match phase {
            DeleteIndexPhase::Opening => match event {
                Event::Succeeded => {
                    self.phase = DeleteIndexPhase::Dropping;
                    Action::Run(Command::DropTable { table: self.name.clone() })
                },
                _ => Action::Finish(Outcome::Failed(Failure::Storage)),
            },
            DeleteIndexPhase::Dropping => match event {
                Event::Succeeded => {
                    self.phase = DeleteIndexPhase::Unregistering;
                    Action::Run(Command::DeleteIndex { name: self.name.clone() })
                },
                _ => Action::Abort(Outcome::Failed(Failure::Storage)),
            },
            DeleteIndexPhase::Unregistering => match event {
                Event::Succeeded => {
                    self.phase = DeleteIndexPhase::Committing;
                    Action::Commit
                },
                _ => Action::Abort(Outcome::Failed(Failure::Storage)),
            },
            DeleteIndexPhase::Committing => match event {
                Event::Succeeded => Action::Finish(Outcome::Done),
                _ => Action::Finish(Outcome::Failed(Failure::Storage)),
            },
            DeleteIndexPhase::Finished => Action::Finish(Outcome::Failed(Failure::Storage)),
        }
    }
}

} // verus!
