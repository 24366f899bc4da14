//! Laws of the definition and the removal of an index: each changes the
//! catalog and the index's table together or not at all.

use vstd::prelude::*;
use crate::admin::{
    add_index_start,
    add_index_step,
    delete_index_start,
    delete_index_step,
    AddIndexPhase,
    AddIndexView,
    DeleteIndexPhase,
    DeleteIndexView,
};
use crate::catalog::{
    definition_verdict,
    name_verdict,
    IndexDefinitionView,
    IndexSettingsView,
    INDEX_TABLE,
};
use crate::geo::{filter_verdict, Circle};
use crate::laws::query::{law_search_needs_a_defined_index, search_run};
use crate::laws::{lemma_pushed, touches};
use crate::model::{drive, Run, Store, Tables};
use crate::protocol::{ActionView, CommandView, EventView, OutcomeView};
use crate::status::{Code, Failure};
use crate::storage::UNIQUE_VIOLATION;

verus! {

/// Four times success: the events of a definition or a removal with
/// nothing failing.
pub open spec fn four_successes() -> Seq<EventView> {
    seq![
        EventView::Succeeded,
        EventView::Succeeded,
        EventView::Succeeded,
        EventView::Succeeded,
    ]
}

/// The definition of an index, begun on `tables` and driven by `events`.
pub open spec fn add_index_run(
    tables: Tables,
    definition: IndexDefinitionView,
    events: Seq<EventView>,
) -> Run<AddIndexView> {
    drive(
        add_index_start(definition),
        |m: AddIndexView, e: EventView| add_index_step(m, e),
        Store::at_rest(tables),
        events,
    )
}

/// The removal of an index, begun on `tables` and driven by `events`.
pub open spec fn delete_index_run(tables: Tables, name: Seq<char>, events: Seq<EventView>) -> Run<
    DeleteIndexView,
> {
    drive(
        delete_index_start(name),
        |m: DeleteIndexView, e: EventView| delete_index_step(m, e),
        Store::at_rest(tables),
        events,
    )
}

/// The database with one more index, defined and empty.
pub open spec fn defined(tables: Tables, definition: IndexDefinitionView) -> Tables {
    Tables {
        catalog: tables.catalog.insert(
            definition.name,
            IndexSettingsView {
                language: definition.language,
                response_width: definition.response_width,
            },
        ),
        tables: tables.tables.insert(definition.name, Seq::empty()),
        ..tables
    }
}

/// The database without an index and its entries.
pub open spec fn removed(tables: Tables, name: Seq<char>) -> Tables {
    Tables { catalog: tables.catalog.remove(name), tables: tables.tables.remove(name), ..tables }
}

/// What holds of a valid definition of an index at every moment.
spec fn add_index_consistent(run: Run<AddIndexView>, t0: Tables, d: IndexDefinitionView) -> bool {
    let m = run.machine;
    let committed = run.store.committed;
    let pending = run.store.pending;
    let row = Tables {
        catalog: t0.catalog.insert(
            d.name,
            IndexSettingsView { language: d.language, response_width: d.response_width },
        ),
        ..t0
    };
    &&& m.definition == d
    &&& match m.phase {
        AddIndexPhase::Opening => {
            &&& run.action == ActionView::Begin
            &&& run.store == Store::at_rest(t0)
            &&& definition_verdict(d) is Ok
        },
        AddIndexPhase::Registering => {
            &&& run.action == ActionView::Run(
                CommandView::InsertIndex {
                    name: d.name,
                    language: d.language,
                    response_width: d.response_width,
                },
            )
            &&& run.store == Store { committed: t0, pending: Some(t0) }
            &&& definition_verdict(d) is Ok
        },
        AddIndexPhase::Creating => {
            &&& run.action == ActionView::Run(CommandView::CreateTable { table: d.name })
            &&& run.store == Store { committed: t0, pending: Some(row) }
            &&& definition_verdict(d) is Ok
            &&& !t0.catalog.contains_key(d.name)
        },
        AddIndexPhase::Committing => {
            &&& run.action == ActionView::Commit
            &&& run.store == Store { committed: t0, pending: Some(defined(t0, d)) }
            &&& definition_verdict(d) is Ok
            &&& !t0.catalog.contains_key(d.name)
            &&& !t0.tables.contains_key(d.name)
        },
        AddIndexPhase::Finished => {
            &&& run.ended()
            &&& pending is None
            &&& if run.completed() {
                &&& committed == defined(t0, d)
                &&& definition_verdict(d) is Ok
                &&& !t0.catalog.contains_key(d.name)
                &&& !t0.tables.contains_key(d.name)
            } else {
                committed == t0
            }
            &&& run.failed_with(Failure::IndexExists) ==> t0.catalog.contains_key(d.name)
            &&& definition_verdict(d) matches Err(f) ==> run.action == ActionView::Finish(
                OutcomeView::Failed(f),
            )
        },
    }
}

/// Every valid definition of an index is consistent.
proof fn lemma_add_index_consistent(t0: Tables, d: IndexDefinitionView, events: Seq<EventView>)
    requires
        add_index_run(t0, d, events).valid,
    ensures
        add_index_consistent(add_index_run(t0, d, events), t0, d),
    decreases events.len(),
{
    if events.len() > 0 {
        let earlier = events.drop_last();
        lemma_add_index_consistent(t0, d, earlier);
        let before = add_index_run(t0, d, earlier);
        assert(before.store.admits(before.action, events.last()));
    }
}

/// An index is defined wholly or not at all. Once the request is carried
/// out, the catalog has the index with its settings and the index has an
/// empty table of entries, and nothing else has changed. If the request ends
/// in any other way, nothing has changed at all.
pub proof fn law_add_index_is_all_or_nothing(
    tables: Tables,
    definition: IndexDefinitionView,
    events: Seq<EventView>,
)
    requires
        add_index_run(tables, definition, events).valid,
    ensures
        ({
            let end = add_index_run(tables, definition, events);
            &&& end.store.committed == tables || end.store.committed == defined(tables, definition)
            &&& end.completed() ==> end.store.committed == defined(tables, definition)
            &&& end.ended() && !end.completed() ==> end.store == Store::at_rest(tables)
            &&& tables.well_formed() ==> end.store.committed.well_formed()
        }),
{
    lemma_add_index_consistent(tables, definition, events);
    let end = add_index_run(tables, definition, events);
    if tables.well_formed() && end.store.committed == defined(tables, definition)
        && end.store.committed != tables {
        assert(end.completed());
        assert(defined(tables, definition).well_formed());
    }
}

/// A name is defined once. The request to define an index whose name the
/// catalog has already is never carried out, and changes nothing. The
/// request is never answered "already exists" unless that is so.
pub proof fn law_add_index_refuses_a_second_definition(
    tables: Tables,
    definition: IndexDefinitionView,
    events: Seq<EventView>,
)
    requires
        add_index_run(tables, definition, events).valid,
    ensures
        ({
            let end = add_index_run(tables, definition, events);
            &&& tables.catalog.contains_key(definition.name) ==> !end.completed()
                && end.store.committed == tables
            &&& end.failed_with(Failure::IndexExists) ==> tables.catalog.contains_key(
                definition.name,
            )
        }),
{
    lemma_add_index_consistent(tables, definition, events);
}

/// An invalid definition is refused before the storage engine is touched:
/// the request is answered at once with the failure that validation found,
/// and no valid run has a single event.
pub proof fn law_add_index_validates_first(
    tables: Tables,
    definition: IndexDefinitionView,
    events: Seq<EventView>,
)
    requires
        add_index_run(tables, definition, events).valid,
        definition_verdict(definition) is Err,
    ensures
        events.len() == 0,
        add_index_run(tables, definition, events).action == ActionView::Finish(
            OutcomeView::Failed(definition_verdict(definition)->Err_0),
        ),
        add_index_run(tables, definition, events).store == Store::at_rest(tables),
{
    lemma_add_index_consistent(tables, definition, events);
    if events.len() > 0 {
        let earlier = events.drop_last();
        lemma_add_index_consistent(tables, definition, earlier);
        let before = add_index_run(tables, definition, earlier);
        assert(!before.store.admits(before.action, events.last()));
    }
}

/// A definition that nothing hinders is carried out: where the definition
/// is valid and its name is free, the run in which the engine fails nothing
/// is one that the model admits, and at its end the index is defined and
/// empty.
pub proof fn law_unhindered_add_index_is_carried_out(
    tables: Tables,
    definition: IndexDefinitionView,
)
    requires
        definition_verdict(definition) is Ok,
        !tables.catalog.contains_key(definition.name),
        !tables.tables.contains_key(definition.name),
    ensures
        ({
            let end = add_index_run(tables, definition, four_successes());
            &&& end.valid
            &&& end.completed()
            &&& end.store == Store::at_rest(defined(tables, definition))
        }),
{
    let e0 = Seq::<EventView>::empty();
    let e1 = e0.push(EventView::Succeeded);
    let e2 = e1.push(EventView::Succeeded);
    let e3 = e2.push(EventView::Succeeded);
    let e4 = e3.push(EventView::Succeeded);
    lemma_pushed(e0, EventView::Succeeded);
    lemma_pushed(e1, EventView::Succeeded);
    lemma_pushed(e2, EventView::Succeeded);
    lemma_pushed(e3, EventView::Succeeded);
    assert(four_successes() =~= e4);
    assert(add_index_run(tables, definition, e0).valid);
    lemma_add_index_consistent(tables, definition, e0);
    assert(add_index_run(tables, definition, e1).valid);
    lemma_add_index_consistent(tables, definition, e1);
    assert(add_index_run(tables, definition, e2).valid);
    lemma_add_index_consistent(tables, definition, e2);
    assert(add_index_run(tables, definition, e3).valid);
    lemma_add_index_consistent(tables, definition, e3);
    assert(add_index_run(tables, definition, e4).valid);
    lemma_add_index_consistent(tables, definition, e4);
}

/// The second definition under one name is answered "already exists":
/// where the catalog has the name and the engine refuses the second row for
/// it, as the model admits, the request fails with that answer and changes
/// nothing.
pub proof fn law_second_definition_already_exists(
    tables: Tables,
    definition: IndexDefinitionView,
)
    requires
        definition_verdict(definition) is Ok,
        tables.catalog.contains_key(definition.name),
    ensures
        ({
            let events = seq![
                EventView::Succeeded,
                EventView::Failed(Some(UNIQUE_VIOLATION@)),
            ];
            let end = add_index_run(tables, definition, events);
            &&& end.valid
            &&& end.action == ActionView::Abort(OutcomeView::Failed(Failure::IndexExists))
            &&& Failure::IndexExists.spec_code() == Code::AlreadyExists
            &&& end.store == Store::at_rest(tables)
        }),
{
    let e0 = Seq::<EventView>::empty();
    let e1 = e0.push(EventView::Succeeded);
    let e2 = e1.push(EventView::Failed(Some(UNIQUE_VIOLATION@)));
    lemma_pushed(e0, EventView::Succeeded);
    lemma_pushed(e1, EventView::Failed(Some(UNIQUE_VIOLATION@)));
    assert(seq![EventView::Succeeded, EventView::Failed(Some(UNIQUE_VIOLATION@))] =~= e2);
    assert(add_index_run(tables, definition, e0).valid);
    lemma_add_index_consistent(tables, definition, e0);
    assert(add_index_run(tables, definition, e1).valid);
    lemma_add_index_consistent(tables, definition, e1);
    assert(add_index_run(tables, definition, e2).valid);
    lemma_add_index_consistent(tables, definition, e2);
}

/// The definition of an index never treats the catalog table as a table of
/// entries. A definition under the catalog table's name is refused at once,
/// and from any other, whatever the event, the next command touches no table
/// of that name.
pub proof fn law_add_index_spares_the_catalog_table(
    definition: IndexDefinitionView,
    m: AddIndexView,
    event: EventView,
)
    ensures
        definition.name == INDEX_TABLE@ ==> add_index_start(definition).1 == ActionView::Finish(
            OutcomeView::Failed(Failure::ReservedName),
        ),
        add_index_start(definition).0.definition == definition,
        add_index_step(m, event).0.definition == m.definition,
        m.definition.name != INDEX_TABLE@ ==> (add_index_step(m, event).1 matches ActionView::Run(
            command,
        ) ==> !touches(command, INDEX_TABLE@)),
{
    reveal_strlit("index");
    assert(INDEX_TABLE@.len() == 5);
}

/// What holds of a valid removal of an index at every moment.
spec fn delete_index_consistent(run: Run<DeleteIndexView>, t0: Tables, name: Seq<char>) -> bool {
    let m = run.machine;
    let committed = run.store.committed;
    let pending = run.store.pending;
    let dropped = Tables { tables: t0.tables.remove(name), ..t0 };
    &&& m.name == name
    &&& match m.phase {
        DeleteIndexPhase::Opening => {
            &&& run.action == ActionView::Begin
            &&& run.store == Store::at_rest(t0)
            &&& name_verdict(name) is Ok
        },
        DeleteIndexPhase::Dropping => {
            &&& run.action == ActionView::Run(CommandView::DropTable { table: name })
            &&& run.store == Store { committed: t0, pending: Some(t0) }
            &&& name_verdict(name) is Ok
        },
        DeleteIndexPhase::Unregistering => {
            &&& run.action == ActionView::Run(CommandView::DeleteIndex { name })
            &&& run.store == Store { committed: t0, pending: Some(dropped) }
            &&& name_verdict(name) is Ok
        },
        DeleteIndexPhase::Committing => {
            &&& run.action == ActionView::Commit
            &&& run.store == Store { committed: t0, pending: Some(removed(t0, name)) }
            &&& name_verdict(name) is Ok
        },
        DeleteIndexPhase::Finished => {
            &&& run.ended()
            &&& pending is None
            &&& if run.completed() {
                committed == removed(t0, name)
            } else {
                committed == t0
            }
            &&& name_verdict(name) matches Err(f) ==> run.action == ActionView::Finish(
                OutcomeView::Failed(f),
            )
        },
    }
}

/// Every valid removal of an index is consistent.
proof fn lemma_delete_index_consistent(t0: Tables, name: Seq<char>, events: Seq<EventView>)
    requires
        delete_index_run(t0, name, events).valid,
    ensures
        delete_index_consistent(delete_index_run(t0, name, events), t0, name),
    decreases events.len(),
{
    if events.len() > 0 {
        let earlier = events.drop_last();
        lemma_delete_index_consistent(t0, name, earlier);
        let before = delete_index_run(t0, name, earlier);
        assert(before.store.admits(before.action, events.last()));
    }
}

/// An index is removed wholly or not at all. Once the request is carried
/// out, the catalog no longer has the index and its table of entries is
/// gone, and nothing else has changed. If the request ends in any other way,
/// nothing has changed at all.
pub proof fn law_delete_index_is_all_or_nothing(
    tables: Tables,
    name: Seq<char>,
    events: Seq<EventView>,
)
    requires
        delete_index_run(tables, name, events).valid,
    ensures
        ({
            let end = delete_index_run(tables, name, events);
            &&& end.store.committed == tables || end.store.committed == removed(tables, name)
            &&& end.completed() ==> end.store.committed == removed(tables, name)
            &&& end.ended() && !end.completed() ==> end.store == Store::at_rest(tables)
            &&& tables.well_formed() ==> end.store.committed.well_formed()
        }),
{
    lemma_delete_index_consistent(tables, name, events);
    if tables.well_formed() {
        assert(removed(tables, name).well_formed());
    }
}

/// An empty name and the catalog table's own name are refused before the
/// storage engine is touched.
pub proof fn law_delete_index_validates_first(
    tables: Tables,
    name: Seq<char>,
    events: Seq<EventView>,
)
    requires
        delete_index_run(tables, name, events).valid,
        name_verdict(name) is Err,
    ensures
        events.len() == 0,
        delete_index_run(tables, name, events).action == ActionView::Finish(
            OutcomeView::Failed(name_verdict(name)->Err_0),
        ),
        delete_index_run(tables, name, events).store == Store::at_rest(tables),
{
    lemma_delete_index_consistent(tables, name, events);
    if events.len() > 0 {
        let earlier = events.drop_last();
        lemma_delete_index_consistent(tables, name, earlier);
        let before = delete_index_run(tables, name, earlier);
        assert(!before.store.admits(before.action, events.last()));
    }
}

/// A removal that nothing hinders is carried out: where the name is valid
/// and the index has its table, the run in which the engine fails nothing is
/// one that the model admits, and at its end the index and its entries are
/// gone.
pub proof fn law_unhindered_delete_index_is_carried_out(tables: Tables, name: Seq<char>)
    requires
        name_verdict(name) is Ok,
        tables.tables.contains_key(name),
    ensures
        ({
            let end = delete_index_run(tables, name, four_successes());
            &&& end.valid
            &&& end.completed()
            &&& end.store == Store::at_rest(removed(tables, name))
        }),
{
    let e0 = Seq::<EventView>::empty();
    let e1 = e0.push(EventView::Succeeded);
    let e2 = e1.push(EventView::Succeeded);
    let e3 = e2.push(EventView::Succeeded);
    let e4 = e3.push(EventView::Succeeded);
    lemma_pushed(e0, EventView::Succeeded);
    lemma_pushed(e1, EventView::Succeeded);
    lemma_pushed(e2, EventView::Succeeded);
    lemma_pushed(e3, EventView::Succeeded);
    assert(four_successes() =~= e4);
    assert(delete_index_run(tables, name, e0).valid);
    lemma_delete_index_consistent(tables, name, e0);
    assert(delete_index_run(tables, name, e1).valid);
    lemma_delete_index_consistent(tables, name, e1);
    assert(delete_index_run(tables, name, e2).valid);
    lemma_delete_index_consistent(tables, name, e2);
    assert(delete_index_run(tables, name, e3).valid);
    lemma_delete_index_consistent(tables, name, e3);
    assert(delete_index_run(tables, name, e4).valid);
    lemma_delete_index_consistent(tables, name, e4);
}

/// The removal of an index never treats the catalog table as a table of
/// entries. A removal under the catalog table's name is refused at once, and
/// from any other, whatever the event, the next command touches no table of
/// that name.
pub proof fn law_delete_index_spares_the_catalog_table(
    name: Seq<char>,
    m: DeleteIndexView,
    event: EventView,
)
    ensures
        name == INDEX_TABLE@ ==> delete_index_start(name).1 == ActionView::Finish(
            OutcomeView::Failed(Failure::ReservedName),
        ),
        delete_index_start(name).0.name == name,
        delete_index_step(m, event).0.name == m.name,
        m.name != INDEX_TABLE@ ==> (delete_index_step(m, event).1 matches ActionView::Run(command)
            ==> !touches(command, INDEX_TABLE@)),
{
    reveal_strlit("index");
    assert(INDEX_TABLE@.len() == 5);
}

/// Once an index is removed, a search of it finds no index: it returns no
/// page, whatever it is driven by.
pub proof fn law_removed_index_is_unknown(
    tables: Tables,
    name: Seq<char>,
    removal: Seq<EventView>,
    text: Seq<char>,
    filter: Option<Circle>,
    events: Seq<EventView>,
)
    requires
        delete_index_run(tables, name, removal).valid,
        delete_index_run(tables, name, removal).completed(),
        search_run(delete_index_run(tables, name, removal).store.committed, name, text, filter, events).valid,
        search_run(delete_index_run(tables, name, removal).store.committed, name, text, filter, events).ended(),
    ensures
        ({
            let after = delete_index_run(tables, name, removal).store.committed;
            let end = search_run(after, name, text, filter, events);
            match filter_verdict(filter) {
                Err(f) => end.action == ActionView::Finish(OutcomeView::Failed(f)),
                Ok(_) => end.failed_with(Failure::UnknownIndex) || end.failed_with(Failure::Storage),
            }
        }),
{
    law_delete_index_is_all_or_nothing(tables, name, removal);
    let after = delete_index_run(tables, name, removal).store.committed;
    assert(!after.catalog.contains_key(name));
    law_search_needs_a_defined_index(after, name, text, filter, events);
}

} // verus!
