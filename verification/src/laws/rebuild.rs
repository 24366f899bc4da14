//! Laws of the rebuild: what a reader of the index can see while its
//! entries are replaced, and after.

use vstd::prelude::*;
use crate::catalog::{IndexSettingsView, INDEX_TABLE};
use crate::geo::Circle;
use crate::laws::query::{law_search_returns_a_page_of_the_index, search_command, search_run};
use crate::laws::touches;
use crate::model::{drive, Run, Store, Tables};
use crate::names::{
    lemma_rebuild_names_are_free_of_catalog,
    lemma_rebuild_names_differ,
    retired_name,
    shadow_name,
};
use crate::protocol::{ActionView, CommandView, EntryView, EventView, OutcomeView};
use crate::rebuild::{rebuild_start, rebuild_step, RebuildPhase, RebuildView};
use crate::status::Failure;

verus! {

/// The entries that the stream delivered, in order.
pub open spec fn entries_of(events: Seq<EventView>) -> Seq<EntryView>
    decreases events.len(),
{
    if events.len() == 0 {
        Seq::empty()
    } else {
        match events.last() {
            EventView::Entry(entry) => entries_of(events.drop_last()).push(entry),
            _ => entries_of(events.drop_last()),
        }
    }
}

/// The rebuild of `index` into `shadow`, begun on `tables` and driven by
/// `events`.
pub open spec fn rebuild_run(
    tables: Tables,
    index: Seq<char>,
    shadow: Seq<char>,
    events: Seq<EventView>,
) -> Run<RebuildView> {
    drive(
        rebuild_start(index, shadow),
        |m: RebuildView, e: EventView| rebuild_step(m, e),
        Store::at_rest(tables),
        events,
    )
}

/// The tables `a` and `b` agree on every table but the three that a rebuild
/// of `index` into `shadow` may touch.
pub open spec fn same_elsewhere(a: Tables, b: Tables, index: Seq<char>, shadow: Seq<char>) -> bool {
    forall|t: Seq<char>|
        t != index && t != shadow && t != retired_name(shadow) ==> #[trigger] a.entries(t)
            == b.entries(t)
}

/// The tables once the shadow table holds `new`.
spec fn staged(t0: Tables, shadow: Seq<char>, new: Seq<EntryView>) -> Map<
    Seq<char>,
    Seq<EntryView>,
> {
    t0.tables.insert(shadow, new)
}

/// The tables once the live table is renamed away.
spec fn vacated(t0: Tables, index: Seq<char>, shadow: Seq<char>, new: Seq<EntryView>) -> Map<
    Seq<char>,
    Seq<EntryView>,
> {
    staged(t0, shadow, new).remove(index).insert(retired_name(shadow), t0.tables[index])
}

/// The tables once the shadow table has taken the live table's place.
spec fn swapped(t0: Tables, index: Seq<char>, shadow: Seq<char>, new: Seq<EntryView>) -> Map<
    Seq<char>,
    Seq<EntryView>,
> {
    vacated(t0, index, shadow, new).remove(shadow).insert(index, new)
}

/// What holds of a valid rebuild at every moment.
spec fn rebuild_consistent(
    run: Run<RebuildView>,
    t0: Tables,
    index: Seq<char>,
    shadow: Seq<char>,
    new: Seq<EntryView>,
) -> bool {
    let m = run.machine;
    let retired = retired_name(shadow);
    let committed = run.store.committed;
    let pending = run.store.pending;
    &&& m.index == index
    &&& m.shadow == shadow
    &&& committed.catalog == t0.catalog
    &&& committed.measures == t0.measures
    &&& pending is Some ==> pending->0.catalog == t0.catalog && pending->0.measures == t0.measures
    &&& t0.well_formed() ==> committed.well_formed()
    &&& match m.phase {
        RebuildPhase::Resolving => {
            &&& run.action == ActionView::Run(CommandView::LookupIndex { name: index })
            &&& committed.tables =~= t0.tables
            &&& pending is None
            &&& new.len() == 0
        },
        RebuildPhase::Opening => {
            &&& run.action == ActionView::Begin
            &&& committed.tables =~= t0.tables
            &&& pending is None
            &&& new.len() == 0
        },
        RebuildPhase::Creating => {
            &&& run.action == ActionView::Run(CommandView::CreateTable { table: shadow })
            &&& committed.tables =~= t0.tables
            &&& pending is Some
            &&& pending->0.tables =~= t0.tables
            &&& new.len() == 0
        },
        RebuildPhase::Streaming => {
            &&& run.action == ActionView::NextEntry
            &&& committed.tables =~= t0.tables
            &&& pending is Some
            &&& pending->0.tables =~= staged(t0, shadow, new)
            &&& t0.name_is_free(shadow)
        },
        RebuildPhase::Inserting => {
            &&& new.len() > 0
            &&& run.action == ActionView::Run(
                CommandView::InsertEntry { table: shadow, language: m.language, entry: new.last() },
            )
            &&& committed.tables =~= t0.tables
            &&& pending is Some
            &&& pending->0.tables =~= staged(t0, shadow, new.drop_last())
            &&& t0.name_is_free(shadow)
        },
        RebuildPhase::Committing => {
            &&& run.action == ActionView::Commit
            &&& committed.tables =~= t0.tables
            &&& pending is Some
            &&& pending->0.tables =~= staged(t0, shadow, new)
            &&& t0.name_is_free(shadow)
        },
        RebuildPhase::SwapOpening => {
            &&& run.action == ActionView::Begin
            &&& committed.tables =~= staged(t0, shadow, new)
            &&& pending is None
            &&& t0.name_is_free(shadow)
        },
        RebuildPhase::Retiring => {
            &&& run.action == ActionView::Run(CommandView::RenameTable { from: index, to: retired })
            &&& committed.tables =~= staged(t0, shadow, new)
            &&& pending is Some
            &&& pending->0.tables =~= staged(t0, shadow, new)
            &&& t0.name_is_free(shadow)
        },
        RebuildPhase::Promoting => {
            &&& run.action == ActionView::Run(CommandView::RenameTable { from: shadow, to: index })
            &&& committed.tables =~= staged(t0, shadow, new)
            &&& pending is Some
            &&& pending->0.tables =~= vacated(t0, index, shadow, new)
            &&& t0.name_is_free(shadow)
            &&& t0.name_is_free(retired)
            &&& t0.tables.contains_key(index)
        },
        RebuildPhase::SwapCommitting => {
            &&& run.action == ActionView::Commit
            &&& committed.tables =~= staged(t0, shadow, new)
            &&& pending is Some
            &&& pending->0.tables =~= swapped(t0, index, shadow, new)
            &&& t0.name_is_free(shadow)
            &&& t0.name_is_free(retired)
            &&& t0.tables.contains_key(index)
            &&& index != INDEX_TABLE@
        },
        RebuildPhase::Cleaning => {
            &&& run.action == ActionView::Run(CommandView::DropTable { table: retired })
            &&& committed.tables =~= swapped(t0, index, shadow, new)
            &&& pending is None
            &&& t0.name_is_free(shadow)
            &&& t0.name_is_free(retired)
            &&& t0.tables.contains_key(index)
            &&& index != INDEX_TABLE@
        },
        RebuildPhase::Finished => {
            &&& run.ended()
            &&& pending is None
            &&& same_elsewhere(committed, t0, index, shadow)
            &&& if run.completed() {
                committed.entries(index) == Some(new)
            } else {
                committed.entries(index) == t0.entries(index)
            }
        },
    }
}

/// Every valid rebuild is consistent.
proof fn lemma_rebuild_consistent(t0: Tables, index: Seq<char>, nonce: nat, events: Seq<EventView>)
    requires
        rebuild_run(t0, index, shadow_name(index, nonce), events).valid,
    ensures
        rebuild_consistent(
            rebuild_run(t0, index, shadow_name(index, nonce), events),
            t0,
            index,
            shadow_name(index, nonce),
            entries_of(events),
        ),
    decreases events.len(),
{
    let shadow = shadow_name(index, nonce);
    lemma_rebuild_names_differ(index, nonce);
    if events.len() > 0 {
        let earlier = events.drop_last();
        lemma_rebuild_consistent(t0, index, nonce, earlier);
        let before = rebuild_run(t0, index, shadow, earlier);
        let old_new = entries_of(earlier);
        let new = entries_of(events);
        let event = events.last();
        let run = rebuild_run(t0, index, shadow, events);
        assert(before.store.admits(before.action, event));
        if event is Entry {
            assert(new.drop_last() =~= old_new);
        }
        match before.machine.phase {
            RebuildPhase::Creating => {
                if event is Succeeded {
                    assert(new =~= Seq::<EntryView>::empty());
                }
            },
            RebuildPhase::Inserting => {
                if event is Succeeded {
                    assert(old_new.drop_last().push(old_new.last()) =~= old_new);
                }
            },
            _ => {},
        }
        assert(rebuild_consistent(run, t0, index, shadow, new));
    }
}

/// While an index is rebuilt, and after, a reader sees either all the
/// entries it had before or all the entries that the stream delivered, and
/// never some of each. If the index had a table, it is never without one.
/// The catalog is not changed, and no table of another index is.
pub proof fn law_rebuild_is_atomic(
    tables: Tables,
    index: Seq<char>,
    nonce: nat,
    events: Seq<EventView>,
)
    requires
        rebuild_run(tables, index, shadow_name(index, nonce), events).valid,
    ensures
        ({
            let end = rebuild_run(tables, index, shadow_name(index, nonce), events);
            &&& end.store.visible(index) == tables.entries(index) || end.store.visible(index)
                == Some(entries_of(events))
            &&& tables.entries(index) is Some ==> end.store.visible(index) is Some
            &&& end.store.committed.catalog == tables.catalog
            &&& same_elsewhere(end.store.committed, tables, index, shadow_name(index, nonce))
            &&& tables.well_formed() ==> end.store.committed.well_formed()
        }),
{
    lemma_rebuild_consistent(tables, index, nonce, events);
    lemma_rebuild_names_differ(index, nonce);
}

/// A rebuild that is carried out leaves the index with exactly the entries
/// that the stream delivered, in their order. One that ends in any other
/// way leaves the index with the entries it had. Either way no transaction
/// stays open.
pub proof fn law_rebuild_replaces_or_keeps(
    tables: Tables,
    index: Seq<char>,
    nonce: nat,
    events: Seq<EventView>,
)
    requires
        rebuild_run(tables, index, shadow_name(index, nonce), events).valid,
        rebuild_run(tables, index, shadow_name(index, nonce), events).ended(),
    ensures
        ({
            let end = rebuild_run(tables, index, shadow_name(index, nonce), events);
            &&& end.completed() ==> end.store.visible(index) == Some(entries_of(events))
            &&& !end.completed() ==> end.store.visible(index) == tables.entries(index)
            &&& end.store.pending is None
        }),
{
    lemma_rebuild_consistent(tables, index, nonce, events);
}

/// A rebuild from a stream without entries, once carried out, leaves the
/// index empty but defined: its table exists and holds nothing, and the
/// catalog has its settings as before.
pub proof fn law_empty_rebuild_empties(
    tables: Tables,
    index: Seq<char>,
    nonce: nat,
    events: Seq<EventView>,
)
    requires
        rebuild_run(tables, index, shadow_name(index, nonce), events).valid,
        rebuild_run(tables, index, shadow_name(index, nonce), events).completed(),
        entries_of(events).len() == 0,
    ensures
        ({
            let end = rebuild_run(tables, index, shadow_name(index, nonce), events);
            &&& end.store.visible(index) == Some(Seq::<EntryView>::empty())
            &&& end.store.committed.lookup(index) == tables.lookup(index)
        }),
{
    lemma_rebuild_consistent(tables, index, nonce, events);
    assert(entries_of(events) =~= Seq::<EntryView>::empty());
}

/// A rebuild is carried out only of an index that the catalog has.
pub proof fn law_rebuild_needs_a_defined_index(
    tables: Tables,
    index: Seq<char>,
    nonce: nat,
    events: Seq<EventView>,
)
    requires
        rebuild_run(tables, index, shadow_name(index, nonce), events).valid,
        !tables.catalog.contains_key(index),
    ensures
        ({
            let end = rebuild_run(tables, index, shadow_name(index, nonce), events);
            &&& !end.completed()
            &&& end.store == Store::at_rest(tables)
            &&& events.len() > 0 ==> end.failed_with(Failure::UnknownIndex) || end.failed_with(
                Failure::Storage,
            )
        }),
    decreases events.len(),
{
    let shadow = shadow_name(index, nonce);
    if events.len() > 0 {
        let earlier = events.drop_last();
        law_rebuild_needs_a_defined_index(tables, index, nonce, earlier);
        let before = rebuild_run(tables, index, shadow, earlier);
        if earlier.len() > 0 {
            assert(!before.store.admits(before.action, events.last()));
        }
    }
}

/// A search that runs while an index is rebuilt, at whatever moment, draws
/// its page from all the entries that the index had before or from all the
/// entries that the stream delivered, and never from some of each.
pub proof fn law_search_during_rebuild(
    tables: Tables,
    index: Seq<char>,
    nonce: nat,
    events: Seq<EventView>,
    text: Seq<char>,
    filter: Option<Circle>,
    answers: Seq<EventView>,
)
    requires
        rebuild_run(tables, index, shadow_name(index, nonce), events).valid,
        search_run(
            rebuild_run(tables, index, shadow_name(index, nonce), events).store.committed,
            index,
            text,
            filter,
            answers,
        ).valid,
    ensures
        ({
            let seen = rebuild_run(tables, index, shadow_name(index, nonce), events).store.committed;
            let end = search_run(seen, index, text, filter, answers);
            end.action matches ActionView::Finish(OutcomeView::Page(page)) ==> {
                &&& tables.catalog.contains_key(index)
                &&& seen.selects(search_command(index, text, filter, tables.catalog[index]), page)
                &&& seen.entries(index) == tables.entries(index) || seen.entries(index) == Some(
                    entries_of(events),
                )
            }
        }),
{
    law_rebuild_is_atomic(tables, index, nonce, events);
    let seen = rebuild_run(tables, index, shadow_name(index, nonce), events).store.committed;
    law_search_returns_a_page_of_the_index(seen, index, text, filter, answers);
}

/// The events of entries delivered and inserted one by one.
pub open spec fn deliveries(entries: Seq<EntryView>) -> Seq<EventView>
    decreases entries.len(),
{
    if entries.len() == 0 {
        Seq::empty()
    } else {
        deliveries(entries.drop_last()).push(EventView::Entry(entries.last())).push(
            EventView::Succeeded,
        )
    }
}

/// The events of a rebuild up to the end of its stream, with nothing
/// failing: the settings are found, the transaction opens, the shadow table
/// is created, and every entry is delivered and inserted.
pub open spec fn unhindered_streaming(
    settings: IndexSettingsView,
    entries: Seq<EntryView>,
) -> Seq<EventView> {
    seq![EventView::Settings(Some(settings)), EventView::Succeeded, EventView::Succeeded]
        + deliveries(entries)
}

/// The events of a whole rebuild with nothing failing: after the stream has
/// ended, the shadow table is committed, the swap opens, both tables are
/// renamed, the swap is committed and the replaced table is dropped.
pub open spec fn unhindered(settings: IndexSettingsView, entries: Seq<EntryView>) -> Seq<
    EventView,
> {
    unhindered_streaming(settings, entries).push(EventView::EndOfEntries).push(
        EventView::Succeeded,
    ).push(EventView::Succeeded).push(EventView::Succeeded).push(EventView::Succeeded).push(
        EventView::Succeeded,
    ).push(EventView::Succeeded)
}

/// What a rebuild needs to go through: the index is defined, and the names
/// of its shadow table and of its retired table are not taken.
pub open spec fn ready_for_rebuild(tables: Tables, index: Seq<char>, nonce: nat) -> bool {
    &&& tables.well_formed()
    &&& tables.catalog.contains_key(index)
    &&& !tables.tables.contains_key(shadow_name(index, nonce))
    &&& !tables.tables.contains_key(retired_name(shadow_name(index, nonce)))
}

/// One more event on a valid run: the run it makes, and that dropping the
/// event gives the run before.
proof fn lemma_one_more(
    t0: Tables,
    index: Seq<char>,
    nonce: nat,
    events: Seq<EventView>,
    event: EventView,
)
    requires
        rebuild_run(t0, index, shadow_name(index, nonce), events).valid,
    ensures
        events.push(event).drop_last() == events,
        events.push(event).last() == event,
        rebuild_consistent(
            rebuild_run(t0, index, shadow_name(index, nonce), events),
            t0,
            index,
            shadow_name(index, nonce),
            entries_of(events),
        ),
        entries_of(events.push(event)) == match event {
            EventView::Entry(entry) => entries_of(events).push(entry),
            _ => entries_of(events),
        },
{
    assert(events.push(event).drop_last() =~= events);
    lemma_rebuild_consistent(t0, index, nonce, events);
}

/// An unhindered rebuild reaches the end of its stream with every entry in
/// the shadow table.
proof fn lemma_unhindered_streaming(
    t0: Tables,
    index: Seq<char>,
    nonce: nat,
    entries: Seq<EntryView>,
)
    requires
        ready_for_rebuild(t0, index, nonce),
    ensures
        ({
            let events = unhindered_streaming(t0.catalog[index], entries);
            let run = rebuild_run(t0, index, shadow_name(index, nonce), events);
            &&& run.valid
            &&& run.machine.phase == RebuildPhase::Streaming
            &&& entries_of(events) == entries
        }),
    decreases entries.len(),
{
    let shadow = shadow_name(index, nonce);
    let settings = t0.catalog[index];
    lemma_rebuild_names_differ(index, nonce);
    lemma_rebuild_names_are_free_of_catalog(index, nonce);
    if entries.len() == 0 {
        let e0 = Seq::<EventView>::empty();
        let e1 = e0.push(EventView::Settings(Some(settings)));
        let e2 = e1.push(EventView::Succeeded);
        let e3 = e2.push(EventView::Succeeded);
        lemma_one_more(t0, index, nonce, e0, EventView::Settings(Some(settings)));
        lemma_one_more(t0, index, nonce, e1, EventView::Succeeded);
        lemma_one_more(t0, index, nonce, e2, EventView::Succeeded);
        assert(unhindered_streaming(settings, entries) =~= e3);
        assert(entries_of(e3) =~= entries);
    } else {
        let earlier = entries.drop_last();
        lemma_unhindered_streaming(t0, index, nonce, earlier);
        let before = unhindered_streaming(settings, earlier);
        let delivered = before.push(EventView::Entry(entries.last()));
        let inserted = delivered.push(EventView::Succeeded);
        lemma_one_more(t0, index, nonce, before, EventView::Entry(entries.last()));
        lemma_one_more(t0, index, nonce, delivered, EventView::Succeeded);
        assert(unhindered_streaming(settings, entries) =~= inserted);
        assert(entries_of(inserted) =~= entries);
    }
}

/// A rebuild that nothing hinders is carried out: where the index is
/// defined and the names of the shadow table and the retired table are not
/// taken, the run in which the engine fails nothing and the stream delivers
/// `entries` and ends is one that the model admits, and at its end the index
/// holds exactly `entries`, every other table is as it was, and neither the
/// shadow table nor the retired table is left behind.
pub proof fn law_unhindered_rebuild_is_carried_out(
    tables: Tables,
    index: Seq<char>,
    nonce: nat,
    entries: Seq<EntryView>,
)
    requires
        ready_for_rebuild(tables, index, nonce),
    ensures
        ({
            let events = unhindered(tables.catalog[index], entries);
            let end = rebuild_run(tables, index, shadow_name(index, nonce), events);
            &&& end.valid
            &&& end.completed()
            &&& entries_of(events) == entries
            &&& end.store == Store::at_rest(
                Tables { tables: tables.tables.insert(index, entries), ..tables },
            )
        }),
{
    let shadow = shadow_name(index, nonce);
    let settings = tables.catalog[index];
    lemma_rebuild_names_differ(index, nonce);
    lemma_rebuild_names_are_free_of_catalog(index, nonce);
    lemma_unhindered_streaming(tables, index, nonce, entries);
    let e0 = unhindered_streaming(settings, entries);
    let e1 = e0.push(EventView::EndOfEntries);
    let e2 = e1.push(EventView::Succeeded);
    let e3 = e2.push(EventView::Succeeded);
    let e4 = e3.push(EventView::Succeeded);
    let e5 = e4.push(EventView::Succeeded);
    let e6 = e5.push(EventView::Succeeded);
    let e7 = e6.push(EventView::Succeeded);
    lemma_one_more(tables, index, nonce, e0, EventView::EndOfEntries);
    lemma_one_more(tables, index, nonce, e1, EventView::Succeeded);
    lemma_one_more(tables, index, nonce, e2, EventView::Succeeded);
    lemma_one_more(tables, index, nonce, e3, EventView::Succeeded);
    lemma_one_more(tables, index, nonce, e4, EventView::Succeeded);
    lemma_one_more(tables, index, nonce, e5, EventView::Succeeded);
    lemma_one_more(tables, index, nonce, e6, EventView::Succeeded);
    let cleaning = rebuild_run(tables, index, shadow, e6);
    assert(cleaning.machine.phase == RebuildPhase::Cleaning);
    let end = rebuild_run(tables, index, shadow, e7);
    assert(end.store.committed.tables =~= tables.tables.insert(index, entries));
}

/// A rebuild never treats the catalog table as a table of entries, unless
/// it were asked to rebuild an index of that very name, which the catalog
/// cannot hold: whatever the event, the next command touches only the live
/// table, the shadow table and the retired table, and the names of the last
/// two are not the catalog table's.
pub proof fn law_rebuild_spares_the_catalog_table(m: RebuildView, nonce: nat, event: EventView)
    requires
        m.shadow == shadow_name(m.index, nonce),
        m.index != INDEX_TABLE@,
    ensures
        rebuild_step(m, event).1 matches ActionView::Run(command) ==> !touches(
            command,
            INDEX_TABLE@,
        ),
        rebuild_step(m, event).0.shadow == m.shadow,
        rebuild_step(m, event).0.index == m.index,
{
    lemma_rebuild_names_are_free_of_catalog(m.index, nonce);
}

} // verus!
