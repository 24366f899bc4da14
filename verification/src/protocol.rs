//! The vocabulary shared by the state machines and their driver: the
//! commands sent to the storage engine, the actions a machine asks for, and
//! the events the driver reports back.

use vstd::prelude::*;
use vstd::string::StringExecFns;
use crate::catalog::{IndexSettings, IndexSettingsView, INDEX_TABLE, SCHEMA};
use crate::geo::Circle;
use crate::statements;
use crate::statements::ADD_POSTGIS;
use crate::status::Failure;

verus! {

/// One document of an index: the structured text that it is found by, where
/// it lies, and the payload returned when it matches.
#[derive(Clone, Debug, PartialEq, Eq)]
pub struct Entry {
    pub data: String,
    pub geom: Option<String>,
    pub response: Vec<u8>,
}

/// An entry as plain values.
pub struct EntryView {
    pub data: Seq<char>,
    pub geom: Option<Seq<char>>,
    pub response: Seq<u8>,
}

/// The characters of an optional text.
pub open spec fn optional_text(text: Option<String>) -> Option<Seq<char>> {
    match text {
        Some(t) => Some(t@),
        None => None,
    }
}

/// The payloads of a sequence of rows.
pub open spec fn payloads(rows: Seq<Vec<u8>>) -> Seq<Seq<u8>> {
    rows.map_values(|row: Vec<u8>| row@)
}

impl View for Entry {
    type V = EntryView;

    open spec fn view(&self) -> EntryView {
        EntryView { data: self.data@, geom: optional_text(self.geom), response: self.response@ }
    }
}

/// One statement for the storage engine, with the values it is run on.
#[derive(Clone, Debug, PartialEq, Eq)]
pub enum Command {
    /// Make the geospatial functions available.
    AddExtension,
    /// Create the catalog table unless it exists.
    CreateCatalog,
    /// Add an index to the catalog.
    InsertIndex { name: String, language: String, response_width: i32 },
    /// Remove an index from the catalog.
    DeleteIndex { name: String },
    /// Read the settings of an index from the catalog.
    LookupIndex { name: String },
    /// Create an empty table of entries.
    CreateTable { table: String },
    /// Add an entry to a table, analysed in the language given.
    InsertEntry { table: String, language: String, entry: Entry },
    /// Give a table another name.
    RenameTable { from: String, to: String },
    /// Drop a table and its entries.
    DropTable { table: String },
    /// Select a page of results from a table.
    Search { table: String, text: String, filter: Option<Circle>, language: String, limit: i32 },
}

/// A command as plain values.
pub enum CommandView {
    AddExtension,
    CreateCatalog,
    InsertIndex { name: Seq<char>, language: Seq<char>, response_width: int },
    DeleteIndex { name: Seq<char> },
    LookupIndex { name: Seq<char> },
    CreateTable { table: Seq<char> },
    InsertEntry { table: Seq<char>, language: Seq<char>, entry: EntryView },
    RenameTable { from: Seq<char>, to: Seq<char> },
    DropTable { table: Seq<char> },
    Search {
        table: Seq<char>,
        text: Seq<char>,
        filter: Option<Circle>,
        language: Seq<char>,
        limit: int,
    },
}

impl View for Command {
    type V = CommandView;

    open spec fn view(&self) -> CommandView {
        match *self {
            Command::AddExtension => CommandView::AddExtension,
            Command::CreateCatalog => CommandView::CreateCatalog,
            Command::InsertIndex { name, language, response_width } => CommandView::InsertIndex {
                name: name@,
                language: language@,
                response_width: response_width as int,
            },
            Command::DeleteIndex { name } => CommandView::DeleteIndex { name: name@ },
            Command::LookupIndex { name } => CommandView::LookupIndex { name: name@ },
            Command::CreateTable { table } => CommandView::CreateTable { table: table@ },
            Command::InsertEntry { table, language, entry } => CommandView::InsertEntry {
                table: table@,
                language: language@,
                entry: entry@,
            },
            Command::RenameTable { from, to } => CommandView::RenameTable { from: from@, to: to@ },
            Command::DropTable { table } => CommandView::DropTable { table: table@ },
            Command::Search { table, text, filter, language, limit } => CommandView::Search {
                table: table@,
                text: text@,
                filter,
                language: language@,
                limit: limit as int,
            },
        }
    }
}

/// A value bound to a numbered parameter of a statement.
#[derive(Clone, Debug, PartialEq, Eq)]
pub enum Param {
    Text(String),
    /// A text, or NULL.
    OptionalText(Option<String>),
    Bytes(Vec<u8>),
    Integer(i32),
    /// A single-precision number given by its bit pattern, or NULL.
    Real(Option<u32>),
}

/// A parameter as a plain value.
pub enum ParamView {
    Text(Seq<char>),
    OptionalText(Option<Seq<char>>),
    Bytes(Seq<u8>),
    Integer(int),
    Real(Option<u32>),
}

impl View for Param {
    type V = ParamView;

    open spec fn view(&self) -> ParamView {
        match *self {
            Param::Text(t) => ParamView::Text(t@),
            Param::OptionalText(t) => ParamView::OptionalText(optional_text(t)),
            Param::Bytes(b) => ParamView::Bytes(b@),
            Param::Integer(i) => ParamView::Integer(i as int),
            Param::Real(r) => ParamView::Real(r),
        }
    }
}

/// The values of a list of parameters.
pub open spec fn param_views(params: Seq<Param>) -> Seq<ParamView> {
    params.map_values(|p: Param| p@)
}

/// The statement that carries out a command.
pub open spec fn statement_text(command: CommandView) -> Seq<char> {
    match command {
        CommandView::AddExtension => ADD_POSTGIS@,
        CommandView::CreateCatalog => statements::create_main_table_text(SCHEMA@, INDEX_TABLE@),
        CommandView::InsertIndex { .. } => statements::add_index_text(SCHEMA@, INDEX_TABLE@),
        CommandView::DeleteIndex { .. } => statements::delete_index_text(SCHEMA@, INDEX_TABLE@),
        CommandView::LookupIndex { .. } => statements::get_index_text(SCHEMA@, INDEX_TABLE@),
        CommandView::CreateTable { table } => statements::create_index_table_text(SCHEMA@, table),
        CommandView::InsertEntry { table, .. } => statements::add_entry_text(SCHEMA@, table),
        CommandView::RenameTable { from, to } => statements::rename_table_text(SCHEMA@, from, to),
        CommandView::DropTable { table } => statements::drop_table_text(SCHEMA@, table),
        CommandView::Search { table, .. } => statements::search_text(SCHEMA@, table),
    }
}

/// The latitude, longitude and radius bound to a search: those of the
/// filter, or three NULLs where the query has none.
pub open spec fn filter_params(filter: Option<Circle>) -> Seq<ParamView> {
    match filter {
        Some(c) => seq![
            ParamView::Real(Some(c.lat)),
            ParamView::Real(Some(c.long)),
            ParamView::Real(Some(c.radius)),
        ],
        None => seq![ParamView::Real(None), ParamView::Real(None), ParamView::Real(None)],
    }
}

/// The values bound to the parameters of a command's statement: the first
/// to `$1`, the second to `$2`, and so on.
pub open spec fn parameter_list(command: CommandView) -> Seq<ParamView> {
    match command {
        CommandView::InsertIndex { name, language, response_width } => seq![
            ParamView::Text(name),
            ParamView::Text(language),
            ParamView::Integer(response_width),
        ],
        CommandView::DeleteIndex { name } => seq![ParamView::Text(name)],
        CommandView::LookupIndex { name } => seq![ParamView::Text(name)],
        CommandView::InsertEntry { language, entry, .. } => seq![
            ParamView::Text(entry.data),
            ParamView::OptionalText(entry.geom),
            ParamView::Bytes(entry.response),
            ParamView::Text(language),
        ],
        CommandView::Search { text, filter, language, limit, .. } => seq![ParamView::Text(text)]
            + filter_params(filter) + seq![ParamView::Text(language), ParamView::Integer(limit)],
        _ => Seq::empty(),
    }
}

impl Command {
    /// Renders the statement of this command. Names of tables appear in it
    /// as quoted identifiers; values do not appear in it at all.
    pub fn statement(&self) -> (s: String)
        ensures
            s@ == statement_text(self@),
    {
        match self {
            Command::AddExtension => String::from_str(ADD_POSTGIS),
            Command::CreateCatalog => statements::create_main_table(SCHEMA, INDEX_TABLE),
            Command::InsertIndex { .. } => statements::add_index(SCHEMA, INDEX_TABLE),
            Command::DeleteIndex { .. } => statements::delete_index(SCHEMA, INDEX_TABLE),
            Command::LookupIndex { .. } => statements::get_index(SCHEMA, INDEX_TABLE),
            Command::CreateTable { table } => statements::create_index_table(SCHEMA, table.as_str()),
            Command::InsertEntry { table, .. } => statements::add_entry(SCHEMA, table.as_str()),
            Command::RenameTable { from, to } => statements::rename_table(
                SCHEMA,
                from.as_str(),
                to.as_str(),
            ),
            Command::DropTable { table } => statements::drop_table(SCHEMA, table.as_str()),
            Command::Search { table, .. } => statements::search(SCHEMA, table.as_str()),
        }
    }

    /// Hands out the values to bind to the parameters of the statement, in
    /// the order of their numbers.
    pub fn parameters(self) -> (params: Vec<Param>)
        ensures
            param_views(params@) == parameter_list(self@),
    {
        let mut params: Vec<Param> = Vec::new();
        match self {
            Command::InsertIndex { name, language, response_width } => {
                params.push(Param::Text(name));
                params.push(Param::Text(language));
                params.push(Param::Integer(response_width));
            },
            Command::DeleteIndex { name } => {
                params.push(Param::Text(name));
            },
            Command::LookupIndex { name } => {
                params.push(Param::Text(name));
            },
            Command::InsertEntry { table, language, entry } => {
                params.push(Param::Text(entry.data));
                params.push(Param::OptionalText(entry.geom));
                params.push(Param::Bytes(entry.response));
                params.push(Param::Text(language));
            },
            Command::Search { table, text, filter, language, limit } => {
                params.push(Param::Text(text));
                match filter {
                    Some(c) => {
                        params.push(Param::Real(Some(c.lat)));
                        params.push(Param::Real(Some(c.long)));
                        params.push(Param::Real(Some(c.radius)));
                    },
                    None => {
                        params.push(Param::Real(None));
                        params.push(Param::Real(None));
                        params.push(Param::Real(None));
                    },
                }
                params.push(Param::Text(language));
                params.push(Param::Integer(limit));
            },
            _ => {},
        }
        assert(param_views(params@) =~= parameter_list(self@));
        params
    }
}

/// How a request ends.
#[derive(Clone, Debug, PartialEq, Eq)]
pub enum Outcome {
    /// The request was carried out.
    Done,
    /// The search was carried out; these are the payloads of its results,
    /// best match first.
    Page(Vec<Vec<u8>>),
    /// The request failed.
    Failed(Failure),
    /// The stream of entries broke off; its own error goes to the caller.
    Cancelled,
}

/// An outcome as plain values.
pub enum OutcomeView {
    Done,
    Page(Seq<Seq<u8>>),
    Failed(Failure),
    Cancelled,
}

impl View for Outcome {
    type V = OutcomeView;

    open spec fn view(&self) -> OutcomeView {
        match *self {
            Outcome::Done => OutcomeView::Done,
            Outcome::Page(rows) => OutcomeView::Page(payloads(rows@)),
            Outcome::Failed(f) => OutcomeView::Failed(f),
            Outcome::Cancelled => OutcomeView::Cancelled,
        }
    }
}

/// What a machine asks its driver to do next. The driver answers every
/// action but the last two with one [`Event`].
#[derive(Clone, Debug, PartialEq, Eq)]
pub enum Action {
    /// Open a transaction.
    Begin,
    /// Run a command: in the open transaction if there is one, else on its
    /// own.
    Run(Command),
    /// Commit the open transaction.
    Commit,
    /// Wait for the next entry of the inbound stream.
    NextEntry,
    /// Answer the request. No transaction is open.
    Finish(Outcome),
    /// Roll the open transaction back, then answer the request.
    Abort(Outcome),
}

/// An action as plain values.
pub enum ActionView {
    Begin,
    Run(CommandView),
    Commit,
    NextEntry,
    Finish(OutcomeView),
    Abort(OutcomeView),
}

impl View for Action {
    type V = ActionView;

    open spec fn view(&self) -> ActionView {
        match *self {
            Action::Begin => ActionView::Begin,
            Action::Run(c) => ActionView::Run(c@),
            Action::Commit => ActionView::Commit,
            Action::NextEntry => ActionView::NextEntry,
            Action::Finish(o) => ActionView::Finish(o@),
            Action::Abort(o) => ActionView::Abort(o@),
        }
    }
}

/// What came of the last action.
#[derive(Clone, Debug, PartialEq, Eq)]
pub enum Event {
    /// The transaction was opened or committed, or the command was run.
    Succeeded,
    /// The storage engine reported an error, with this SQLSTATE code if it
    /// gave one.
    Failed(Option<String>),
    /// The catalog was read: the settings of the index, or nothing if it is
    /// not defined.
    Settings(Option<IndexSettings>),
    /// The search was run: the payloads of the rows it selected, in order.
    Rows(Vec<Vec<u8>>),
    /// The stream delivered an entry.
    Entry(Entry),
    /// The stream has ended.
    EndOfEntries,
    /// The stream broke off with an error.
    StreamBroken,
}

/// An event as plain values.
pub enum EventView {
    Succeeded,
    Failed(Option<Seq<char>>),
    Settings(Option<IndexSettingsView>),
    Rows(Seq<Seq<u8>>),
    Entry(EntryView),
    EndOfEntries,
    StreamBroken,
}

impl View for Event {
    type V = EventView;

    open spec fn view(&self) -> EventView {
        match *self {
            Event::Succeeded => EventView::Succeeded,
            Event::Failed(code) => EventView::Failed(optional_text(code)),
            Event::Settings(s) => EventView::Settings(
                match s {
                    Some(settings) => Some(settings@),
                    None => None,
                },
            ),
            Event::Rows(rows) => EventView::Rows(payloads(rows@)),
            Event::Entry(e) => EventView::Entry(e@),
            Event::EndOfEntries => EventView::EndOfEntries,
            Event::StreamBroken => EventView::StreamBroken,
        }
    }
}

} // verus!
