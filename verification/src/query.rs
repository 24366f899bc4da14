//! Answering a query: validate its radius filter, resolve the settings of the
//! index, run one statement that ranks, filters and limits, and return the
//! page.

use vstd::prelude::*;
use crate::catalog::resolve;
use crate::geo::{check_filter, filter_verdict, Circle};
use crate::protocol::{
    payloads,
    Action,
    ActionView,
    Command,
    CommandView,
    Event,
    EventView,
    Outcome,
    OutcomeView,
};
use crate::status::Failure;

verus! {

/// How far a search has come.
#[derive(Clone, Copy, Debug, PartialEq, Eq, Structural)]
pub enum SearchPhase {
    /// The settings of the index were asked for.
    Resolving,
    /// The search statement was sent.
    Searching,
    /// The request was answered.
    Finished,
}

/// One search in progress.
#[derive(Clone, Debug, PartialEq, Eq)]
pub struct Search {
    pub phase: SearchPhase,
    pub index: String,
    pub text: String,
    pub filter: Option<Circle>,
    /// The response width of the index, once resolved.
    pub width: i32,
}

/// A search in progress as plain values.
pub struct SearchView {
    pub phase: SearchPhase,
    pub index: Seq<char>,
    pub text: Seq<char>,
    pub filter: Option<Circle>,
    pub width: int,
}

impl View for Search {
    type V = SearchView;

    open spec fn view(&self) -> SearchView {
        SearchView {
            phase: self.phase,
            index: self.index@,
            text: self.text@,
            filter: self.filter,
            width: self.width as int,
        }
    }
}

impl SearchView {
    /// The same search in another phase.
    pub open spec fn at(self, phase: SearchPhase) -> SearchView {
        SearchView { phase, ..self }
    }
}

/// The page made of the rows that the engine selected: the rows in their
/// order, and no more of them than the index is wide.
pub open spec fn page_of(rows: Seq<Seq<u8>>, width: int) -> Seq<Seq<u8>> {
    if width <= 0 {
        Seq::empty()
    } else if rows.len() <= width {
        rows
    } else {
        rows.take(width)
    }
}

/// How a search begins. An invalid radius filter ends it before the storage
/// engine is touched.
pub open spec fn search_start(index: Seq<char>, text: Seq<char>, filter: Option<Circle>) -> (
    SearchView,
    ActionView,
) {
    let m = SearchView { phase: SearchPhase::Resolving, index, text, filter, width: 0 };
    match filter_verdict(filter) {
        Err(f) => (m.at(SearchPhase::Finished), ActionView::Finish(OutcomeView::Failed(f))),
        Ok(_) => (m, ActionView::Run(CommandView::LookupIndex { name: index })),
    }
}

/// How a search goes on after an event.
pub open spec fn search_step(m: SearchView, e: EventView) -> (SearchView, ActionView) {
    let failed = (
        m.at(SearchPhase::Finished),
        ActionView::Finish(OutcomeView::Failed(Failure::Storage)),
    );
    match m.phase {
        SearchPhase::Resolving => match e {
            EventView::Settings(Some(s)) => (
                SearchView { phase: SearchPhase::Searching, width: s.response_width, ..m },
                ActionView::Run(
                    CommandView::Search {
                        table: m.index,
                        text: m.text,
                        filter: m.filter,
                        language: s.language,
                        limit: s.response_width,
                    },
                ),
            ),
            EventView::Settings(None) => (
                m.at(SearchPhase::Finished),
                ActionView::Finish(OutcomeView::Failed(Failure::UnknownIndex)),
            ),
            _ => failed,
        },
        SearchPhase::Searching => match e {
            EventView::Rows(rows) => (
                m.at(SearchPhase::Finished),
                ActionView::Finish(OutcomeView::Page(page_of(rows, m.width))),
            ),
            _ => failed,
        },
        SearchPhase::Finished => failed,
    }
}

/// Cuts the rows that the engine selected down to a page.
pub fn page(rows: Vec<Vec<u8>>, width: i32) -> (p: Vec<Vec<u8>>)
    ensures
        payloads(p@) == page_of(payloads(rows@), width as int),
{
    let mut p = rows;
    if width <= 0 {
        p.truncate(0);
    } else if p.len() > width as usize {
        p.truncate(width as usize);
    }
    assert(payloads(p@) =~= page_of(payloads(rows@), width as int));
    p
}

impl Search {
    /// Begins a search of `index` for `text`, within `filter` if there is
    /// one.
    pub fn start(index: String, text: String, filter: Option<Circle>) -> (r: (Search, Action))
        ensures
            (r.0@, r.1@) == search_start(index@, text@, filter),
    {
        match check_filter(&filter) {
            Err(f) => (
                Search { phase: SearchPhase::Finished, index, text, filter, width: 0 },
                Action::Finish(Outcome::Failed(f)),
            ),
            Ok(_) => {
                let name = index.clone();
                (
                    Search { phase: SearchPhase::Resolving, index, text, filter, width: 0 },
                    Action::Run(Command::LookupIndex { name }),
                )
            },
        }
    }

    /// Takes the event that answers the last action, and says what to do
    /// next.
    pub fn step(&mut self, event: Event) -> (action: Action)
        ensures
            (final(self)@, action@) == search_step(old(self)@, event@),
    {
        match self.phase {
            SearchPhase::Resolving => match event {
                Event::Settings(found) => match resolve(found) {
                    Ok(s) => {
                        self.phase = SearchPhase::Searching;
                        self.width = s.response_width;
                        Action::Run(
                            Command::Search {
                                table: self.index.clone(),
                                text: self.text.clone(),
                                filter: self.filter,
                                language: s.language,
                                limit: s.response_width,
                            },
                        )
                    },
                    Err(f) => {
                        self.phase = SearchPhase::Finished;
                        Action::Finish(Outcome::Failed(f))
                    },
                },
                _ => {
                    self.phase = SearchPhase::Finished;
                    Action::Finish(Outcome::Failed(Failure::Storage))
                },
            },
            SearchPhase::Searching => match event {
                Event::Rows(rows) => {
                    self.phase = SearchPhase::Finished;
                    Action::Finish(Outcome::Page(page(rows, self.width)))
                },
                _ => {
                    self.phase = SearchPhase::Finished;
                    Action::Finish(Outcome::Failed(Failure::Storage))
                },
            },
            SearchPhase::Finished => Action::Finish(Outcome::Failed(Failure::Storage)),
        }
    }
}

} // verus!
