//! Laws of the search: it changes nothing, and its page keeps to the filter
//! and to the width of the index.

use vstd::prelude::*;
use crate::catalog::IndexSettingsView;
use crate::geo::{filter_verdict, Circle};
use crate::laws::lemma_pushed;
use crate::model::{drive, Run, Store, Tables};
use crate::protocol::{ActionView, CommandView, EventView, OutcomeView};
use crate::query::{page_of, search_start, search_step, SearchPhase, SearchView};
use crate::status::Failure;

verus! {

/// A search, begun on `tables` and driven by `events`.
pub open spec fn search_run(
    tables: Tables,
    index: Seq<char>,
    text: Seq<char>,
    filter: Option<Circle>,
    events: Seq<EventView>,
) -> Run<SearchView> {
    drive(
        search_start(index, text, filter),
        |m: SearchView, e: EventView| search_step(m, e),
        Store::at_rest(tables),
        events,
    )
}

/// The command that a search of `index` sends once it knows the settings.
pub open spec fn search_command(
    index: Seq<char>,
    text: Seq<char>,
    filter: Option<Circle>,
    settings: IndexSettingsView,
) -> CommandView {
    CommandView::Search {
        table: index,
        text,
        filter,
        language: settings.language,
        limit: settings.response_width,
    }
}

/// What holds of a valid search at every moment.
spec fn search_consistent(
    run: Run<SearchView>,
    t0: Tables,
    index: Seq<char>,
    text: Seq<char>,
    filter: Option<Circle>,
) -> bool {
    let m = run.machine;
    &&& m.index == index
    &&& m.text == text
    &&& m.filter == filter
    &&& run.store == Store::at_rest(t0)
    &&& match m.phase {
        SearchPhase::Resolving => {
            &&& run.action == ActionView::Run(CommandView::LookupIndex { name: index })
            &&& filter_verdict(filter) is Ok
        },
        SearchPhase::Searching => {
            &&& t0.catalog.contains_key(index)
            &&& m.width == t0.catalog[index].response_width
            &&& run.action == ActionView::Run(search_command(index, text, filter, t0.catalog[index]))
            &&& filter_verdict(filter) is Ok
        },
        SearchPhase::Finished => {
            &&& run.action is Finish
            &&& !run.completed()
            &&& run.action matches ActionView::Finish(OutcomeView::Page(page)) ==> {
                &&& t0.catalog.contains_key(index)
                &&& filter_verdict(filter) is Ok
                &&& t0.selects(search_command(index, text, filter, t0.catalog[index]), page)
            }
            &&& filter_verdict(filter) matches Err(f) ==> run.action == ActionView::Finish(
                OutcomeView::Failed(f),
            )
            &&& run.failed_with(Failure::UnknownIndex) ==> !t0.catalog.contains_key(index)
        },
    }
}

/// Every valid search is consistent.
proof fn lemma_search_consistent(
    t0: Tables,
    index: Seq<char>,
    text: Seq<char>,
    filter: Option<Circle>,
    events: Seq<EventView>,
)
    requires
        search_run(t0, index, text, filter, events).valid,
    ensures
        search_consistent(search_run(t0, index, text, filter, events), t0, index, text, filter),
    decreases events.len(),
{
    if events.len() > 0 {
        let earlier = events.drop_last();
        lemma_search_consistent(t0, index, text, filter, earlier);
        let before = search_run(t0, index, text, filter, earlier);
        assert(before.store.admits(before.action, events.last()));
        if before.machine.phase == SearchPhase::Searching {
            if let EventView::Rows(rows) = events.last() {
                assert(page_of(rows, before.machine.width) =~= rows);
            }
        }
    }
}

/// A search changes nothing, and its page is what the engine selected from
/// the entries that the index holds: no more payloads than the index is
/// wide, each the payload of an entry of its own, and with a radius filter
/// only of entries that have a geometry. A page is returned only of a
/// defined index and a valid filter.
pub proof fn law_search_returns_a_page_of_the_index(
    tables: Tables,
    index: Seq<char>,
    text: Seq<char>,
    filter: Option<Circle>,
    events: Seq<EventView>,
)
    requires
        search_run(tables, index, text, filter, events).valid,
    ensures
        ({
            let end = search_run(tables, index, text, filter, events);
            &&& end.store == Store::at_rest(tables)
            &&& end.action matches ActionView::Finish(OutcomeView::Page(page)) ==> {
                &&& tables.catalog.contains_key(index)
                &&& filter_verdict(filter) is Ok
                &&& page.len() <= tables.catalog[index].response_width
                &&& tables.selects(search_command(index, text, filter, tables.catalog[index]), page)
            }
        }),
{
    lemma_search_consistent(tables, index, text, filter, events);
}

/// Whether the entry at position `k` of the index passes the filter and
/// has the given payload.
pub open spec fn is_hit(
    tables: Tables,
    index: Seq<char>,
    filter: Option<Circle>,
    k: int,
    payload: Seq<u8>,
) -> bool {
    let entries = tables.tables[index];
    0 <= k < entries.len() && entries[k].response == payload && tables.passes(entries[k], filter)
}

/// Whether some entry of the index passes the filter and has the given
/// payload.
pub open spec fn has_hit(
    tables: Tables,
    index: Seq<char>,
    filter: Option<Circle>,
    payload: Seq<u8>,
) -> bool {
    exists|k: int| is_hit(tables, index, filter, k, payload)
}

/// Every payload of a page belongs to an entry of the index that passes the
/// radius filter: with a filter, to one that has a geometry within the
/// circle, and never to one without geometry. A page holds no more payloads
/// than the index is wide, and holds fewer only where it holds the payload of
/// every entry that passes the filter.
pub proof fn law_page_keeps_to_filter_and_width(
    tables: Tables,
    index: Seq<char>,
    text: Seq<char>,
    filter: Option<Circle>,
    events: Seq<EventView>,
)
    requires
        search_run(tables, index, text, filter, events).valid,
    ensures
        ({
            let end = search_run(tables, index, text, filter, events);
            end.action matches ActionView::Finish(OutcomeView::Page(page)) ==> {
                &&& tables.catalog.contains_key(index)
                &&& tables.tables.contains_key(index)
                &&& page.len() <= tables.catalog[index].response_width
                &&& forall|i: int|
                    0 <= i < page.len() ==> has_hit(tables, index, filter, #[trigger] page[i])
                &&& page.len() < tables.catalog[index].response_width ==> forall|k: int|
                    #![trigger tables.tables[index][k]]
                    0 <= k < tables.tables[index].len() && tables.passes(
                        tables.tables[index][k],
                        filter,
                    ) ==> page.contains(tables.tables[index][k].response)
            }
        }),
{
    law_search_returns_a_page_of_the_index(tables, index, text, filter, events);
    let end = search_run(tables, index, text, filter, events);
    if let ActionView::Finish(OutcomeView::Page(page)) = end.action {
        let command = search_command(index, text, filter, tables.catalog[index]);
        let entries = tables.tables[index];
        let picks = choose|picks: Seq<int>| tables.picked(command, picks, page);
        assert(tables.picked(command, picks, page));
        assert forall|i: int| 0 <= i < page.len() implies has_hit(
            tables,
            index,
            filter,
            #[trigger] page[i],
        ) by {
            assert(is_hit(tables, index, filter, picks[i], page[i]));
        }
        if page.len() < tables.catalog[index].response_width {
            assert forall|k: int|
                #![trigger tables.tables[index][k]]
                0 <= k < entries.len() && tables.passes(entries[k], filter) implies page.contains(
                entries[k].response,
            ) by {
                assert(picks.contains(k));
                let i = choose|i: int| 0 <= i < picks.len() && picks[i] == k;
                assert(page[i] == entries[k].response);
            }
        }
    }
}

/// A search that nothing hinders returns what the engine selected: where
/// the filter is valid and the index is defined, the run in which the engine
/// finds the settings and selects `rows` is one that the model admits, and
/// its page is `rows`.
pub proof fn law_unhindered_search_returns_the_selection(
    tables: Tables,
    index: Seq<char>,
    text: Seq<char>,
    filter: Option<Circle>,
    rows: Seq<Seq<u8>>,
)
    requires
        filter_verdict(filter) is Ok,
        tables.catalog.contains_key(index),
        tables.selects(search_command(index, text, filter, tables.catalog[index]), rows),
    ensures
        ({
            let events = seq![
                EventView::Settings(Some(tables.catalog[index])),
                EventView::Rows(rows),
            ];
            let end = search_run(tables, index, text, filter, events);
            &&& end.valid
            &&& end.action == ActionView::Finish(OutcomeView::Page(rows))
        }),
{
    let found = EventView::Settings(Some(tables.catalog[index]));
    let e0 = Seq::<EventView>::empty();
    let e1 = e0.push(found);
    let e2 = e1.push(EventView::Rows(rows));
    lemma_pushed(e0, found);
    lemma_pushed(e1, EventView::Rows(rows));
    assert(seq![found, EventView::Rows(rows)] =~= e2);
    assert(search_run(tables, index, text, filter, e0).valid);
    lemma_search_consistent(tables, index, text, filter, e0);
    assert(search_run(tables, index, text, filter, e1).valid);
    lemma_search_consistent(tables, index, text, filter, e1);
    assert(search_run(tables, index, text, filter, e2).valid);
    assert(page_of(rows, tables.catalog[index].response_width) =~= rows);
}

/// A search of an index that the catalog does not have returns no page.
/// Unless its filter is invalid, it is answered "unknown index" or, where
/// the engine fails, "internal error".
pub proof fn law_search_needs_a_defined_index(
    tables: Tables,
    index: Seq<char>,
    text: Seq<char>,
    filter: Option<Circle>,
    events: Seq<EventView>,
)
    requires
        search_run(tables, index, text, filter, events).valid,
        search_run(tables, index, text, filter, events).ended(),
        !tables.catalog.contains_key(index),
    ensures
        ({
            let end = search_run(tables, index, text, filter, events);
            match filter_verdict(filter) {
                Err(f) => end.action == ActionView::Finish(OutcomeView::Failed(f)),
                Ok(_) => end.failed_with(Failure::UnknownIndex) || end.failed_with(Failure::Storage),
            }
        }),
{
    lemma_search_consistent(tables, index, text, filter, events);
    if events.len() > 0 {
        let earlier = events.drop_last();
        lemma_search_consistent(tables, index, text, filter, earlier);
        let before = search_run(tables, index, text, filter, earlier);
        assert(before.store.admits(before.action, events.last()));
    }
}

} // verus!
