use search_index::admin::{
    ensure_data_structure, AddIndex, AddIndexPhase, DeleteIndex, DeleteIndexPhase,
};
use search_index::catalog::{IndexDefinition, IndexSettings};
use search_index::geo::Circle;
use search_index::protocol::{Action, Command, Entry, Event, Outcome, Param};
use search_index::query::{page, Search, SearchPhase};
use search_index::rebuild::{Rebuild, RebuildPhase};
use search_index::status::Failure;
use search_index::storage::{
    classify_insert_failure, err_status, failure_with_state, internal_error, UNIQUE_VIOLATION,
};
use tokio_postgres::error::SqlState;

fn definition(name: &str, width: i32) -> IndexDefinition {
    IndexDefinition { name: name.to_string(), language: "english".to_string(), response_width: width }
}

fn settings(language: &str, width: i32) -> Event {
    Event::Settings(Some(IndexSettings { language: language.to_string(), response_width: width }))
}

fn entry(data: &str, geom: Option<&str>, response: &[u8]) -> Entry {
    Entry {
        data: data.to_string(),
        geom: geom.map(|g| g.to_string()),
        response: response.to_vec(),
    }
}

fn failed() -> Action {
    Action::Finish(Outcome::Failed(Failure::Storage))
}

fn aborted() -> Action {
    Action::Abort(Outcome::Failed(Failure::Storage))
}

fn rows(n: u8) -> Vec<Vec<u8>> {
    (0..n).map(|i| vec![i]).collect()
}

#[test]
fn bootstrap_commands() {
    assert_eq!(ensure_data_structure(), vec![Command::AddExtension, Command::CreateCatalog]);
}

#[test]
fn commands_without_parameters() {
    assert_eq!(Command::AddExtension.parameters(), vec![]);
    assert_eq!(Command::CreateCatalog.parameters(), vec![]);
    assert_eq!(Command::CreateTable { table: "t".to_string() }.parameters(), vec![]);
    assert_eq!(Command::DropTable { table: "t".to_string() }.parameters(), vec![]);
    assert_eq!(
        Command::RenameTable { from: "a".to_string(), to: "b".to_string() }.parameters(),
        vec![]
    );
}

#[test]
fn catalog_commands_bind_the_name() {
    assert_eq!(
        Command::LookupIndex { name: "foo".to_string() }.parameters(),
        vec![Param::Text("foo".to_string())]
    );
    assert_eq!(
        Command::DeleteIndex { name: "foo".to_string() }.parameters(),
        vec![Param::Text("foo".to_string())]
    );
    assert_eq!(
        Command::InsertIndex {
            name: "foo".to_string(),
            language: "spanish".to_string(),
            response_width: 3
        }
        .parameters(),
        vec![Param::Text("foo".to_string()), Param::Text("spanish".to_string()), Param::Integer(3)]
    );
}

#[test]
fn an_entry_binds_document_geometry_payload_language() {
    let with = Command::InsertEntry {
        table: "_t_1".to_string(),
        language: "english".to_string(),
        entry: entry("{\"k\": \"v\"}", Some("SRID=4326; POINT(12 0)"), b"r"),
    };
    assert_eq!(
        with.parameters(),
        vec![
            Param::Text("{\"k\": \"v\"}".to_string()),
            Param::OptionalText(Some("SRID=4326; POINT(12 0)".to_string())),
            Param::Bytes(b"r".to_vec()),
            Param::Text("english".to_string()),
        ]
    );
    let without = Command::InsertEntry {
        table: "_t_1".to_string(),
        language: "english".to_string(),
        entry: entry("{}", None, b""),
    };
    assert_eq!(
        without.parameters(),
        vec![
            Param::Text("{}".to_string()),
            Param::OptionalText(None),
            Param::Bytes(vec![]),
            Param::Text("english".to_string()),
        ]
    );
}

#[test]
fn a_search_binds_text_filter_language_width() {
    let circle = Circle {
        lat: 11.5f32.to_bits(),
        long: 0.0f32.to_bits(),
        radius: 112_000.0f32.to_bits(),
    };
    let filtered = Command::Search {
        table: "test".to_string(),
        text: "hola".to_string(),
        filter: Some(circle),
        language: "spanish".to_string(),
        limit: 4,
    };
    assert_eq!(
        filtered.parameters(),
        vec![
            Param::Text("hola".to_string()),
            Param::Real(Some(11.5f32.to_bits())),
            Param::Real(Some(0.0f32.to_bits())),
            Param::Real(Some(112_000.0f32.to_bits())),
            Param::Text("spanish".to_string()),
            Param::Integer(4),
        ]
    );
    let unfiltered = Command::Search {
        table: "test".to_string(),
        text: "hola".to_string(),
        filter: None,
        language: "spanish".to_string(),
        limit: 4,
    };
    assert_eq!(
        unfiltered.parameters(),
        vec![
            Param::Text("hola".to_string()),
            Param::Real(None),
            Param::Real(None),
            Param::Real(None),
            Param::Text("spanish".to_string()),
            Param::Integer(4),
        ]
    );
}

#[test]
fn commands_render_their_statements() {
    assert_eq!(Command::AddExtension.statement(), "CREATE EXTENSION IF NOT EXISTS postgis");
    assert_eq!(
        Command::DropTable { table: "a\"b".to_string() }.statement(),
        "DROP TABLE \"index\".\"a\"\"b\""
    );
    assert_eq!(
        Command::RenameTable { from: "_t_1".to_string(), to: "t".to_string() }.statement(),
        "ALTER TABLE \"index\".\"_t_1\" RENAME TO \"t\""
    );
    assert_eq!(
        Command::DeleteIndex { name: "anything".to_string() }.statement(),
        "
        DELETE FROM \"index\".\"index\"
            WHERE name = $1
    "
    );
    assert_eq!(
        Command::CreateCatalog.statement(),
        search_index::statements::create_main_table("index", "index")
    );
    assert_eq!(
        Command::LookupIndex { name: "x".to_string() }.statement(),
        search_index::statements::get_index("index", "index")
    );
    assert_eq!(
        Command::InsertIndex { name: "x".to_string(), language: "y".to_string(), response_width: 1 }
            .statement(),
        search_index::statements::add_index("index", "index")
    );
    assert_eq!(
        Command::CreateTable { table: "x".to_string() }.statement(),
        search_index::statements::create_index_table("index", "x")
    );
    assert_eq!(
        Command::InsertEntry {
            table: "x".to_string(),
            language: "y".to_string(),
            entry: entry("{}", None, b"")
        }
        .statement(),
        search_index::statements::add_entry("index", "x")
    );
    assert_eq!(
        Command::Search {
            table: "x".to_string(),
            text: "q".to_string(),
            filter: None,
            language: "y".to_string(),
            limit: 1
        }
        .statement(),
        search_index::statements::search("index", "x")
    );
}

#[test]
fn add_index_happy_path() {
    let (mut m, first) = AddIndex::start(definition("foo", 3));
    assert_eq!(first, Action::Begin);
    assert_eq!(m.phase, AddIndexPhase::Opening);
    assert_eq!(
        m.step(Event::Succeeded),
        Action::Run(Command::InsertIndex {
            name: "foo".to_string(),
            language: "english".to_string(),
            response_width: 3
        })
    );
    assert_eq!(
        m.step(Event::Succeeded),
        Action::Run(Command::CreateTable { table: "foo".to_string() })
    );
    assert_eq!(m.step(Event::Succeeded), Action::Commit);
    assert_eq!(m.step(Event::Succeeded), Action::Finish(Outcome::Done));
    assert_eq!(m.phase, AddIndexPhase::Finished);
    assert_eq!(m.step(Event::Succeeded), failed());
}

#[test]
fn add_index_refuses_bad_definitions_before_storage() {
    let (m, a) = AddIndex::start(definition("", 3));
    assert_eq!(a, Action::Finish(Outcome::Failed(Failure::EmptyName)));
    assert_eq!(m.phase, AddIndexPhase::Finished);
    let (_, a) = AddIndex::start(definition("index", 3));
    assert_eq!(a, Action::Finish(Outcome::Failed(Failure::ReservedName)));
    let (_, a) = AddIndex::start(definition("foo", 0));
    assert_eq!(a, Action::Finish(Outcome::Failed(Failure::InvalidWidth)));
    let (_, a) = AddIndex::start(definition("foo", -7));
    assert_eq!(a, Action::Finish(Outcome::Failed(Failure::InvalidWidth)));
}

#[test]
fn add_index_duplicate_is_already_exists() {
    let (mut m, _) = AddIndex::start(definition("foo", 3));
    m.step(Event::Succeeded);
    assert_eq!(
        m.step(Event::Failed(Some("23505".to_string()))),
        Action::Abort(Outcome::Failed(Failure::IndexExists))
    );
    assert_eq!(m.phase, AddIndexPhase::Finished);
}

#[test]
fn add_index_storage_failures() {
    let (mut m, _) = AddIndex::start(definition("foo", 3));
    assert_eq!(m.step(Event::Failed(None)), failed());

    let (mut m, _) = AddIndex::start(definition("foo", 3));
    m.step(Event::Succeeded);
    assert_eq!(m.step(Event::Failed(Some("23514".to_string()))), aborted());

    let (mut m, _) = AddIndex::start(definition("foo", 3));
    m.step(Event::Succeeded);
    assert_eq!(m.step(Event::Failed(None)), aborted());

    let (mut m, _) = AddIndex::start(definition("foo", 3));
    m.step(Event::Succeeded);
    m.step(Event::Succeeded);
    assert_eq!(m.step(Event::Failed(Some("23505".to_string()))), aborted());

    let (mut m, _) = AddIndex::start(definition("foo", 3));
    m.step(Event::Succeeded);
    m.step(Event::Succeeded);
    m.step(Event::Succeeded);
    assert_eq!(m.step(Event::Failed(None)), failed());
}

#[test]
fn add_index_unexpected_events() {
    let (mut m, _) = AddIndex::start(definition("foo", 3));
    assert_eq!(m.step(Event::EndOfEntries), failed());
    let (mut m, _) = AddIndex::start(definition("foo", 3));
    m.step(Event::Succeeded);
    assert_eq!(m.step(Event::Rows(vec![])), aborted());
}

#[test]
fn delete_index_happy_path() {
    let (mut m, first) = DeleteIndex::start("foo".to_string());
    assert_eq!(first, Action::Begin);
    assert_eq!(m.phase, DeleteIndexPhase::Opening);
    assert_eq!(
        m.step(Event::Succeeded),
        Action::Run(Command::DropTable { table: "foo".to_string() })
    );
    assert_eq!(
        m.step(Event::Succeeded),
        Action::Run(Command::DeleteIndex { name: "foo".to_string() })
    );
    assert_eq!(m.step(Event::Succeeded), Action::Commit);
    assert_eq!(m.step(Event::Succeeded), Action::Finish(Outcome::Done));
    assert_eq!(m.phase, DeleteIndexPhase::Finished);
}

#[test]
fn delete_index_refuses_bad_names_before_storage() {
    let (_, a) = DeleteIndex::start(String::new());
    assert_eq!(a, Action::Finish(Outcome::Failed(Failure::EmptyName)));
    let (m, a) = DeleteIndex::start("index".to_string());
    assert_eq!(a, Action::Finish(Outcome::Failed(Failure::ReservedName)));
    assert_eq!(m.phase, DeleteIndexPhase::Finished);
}

#[test]
fn delete_index_storage_failures() {
    let (mut m, _) = DeleteIndex::start("foo".to_string());
    assert_eq!(m.step(Event::Failed(None)), failed());

    let (mut m, _) = DeleteIndex::start("foo".to_string());
    m.step(Event::Succeeded);
    assert_eq!(m.step(Event::Failed(Some("42P01".to_string()))), aborted());

    let (mut m, _) = DeleteIndex::start("foo".to_string());
    m.step(Event::Succeeded);
    m.step(Event::Succeeded);
    assert_eq!(m.step(Event::Failed(None)), aborted());

    let (mut m, _) = DeleteIndex::start("foo".to_string());
    m.step(Event::Succeeded);
    m.step(Event::Succeeded);
    m.step(Event::Succeeded);
    assert_eq!(m.step(Event::Failed(None)), failed());
    assert_eq!(m.step(Event::Succeeded), failed());
}

#[test]
fn search_happy_path() {
    let circle = Circle {
        lat: 11.5f32.to_bits(),
        long: 0.0f32.to_bits(),
        radius: 112_000.0f32.to_bits(),
    };
    let (mut m, first) = Search::start("test".to_string(), "hola".to_string(), Some(circle));
    assert_eq!(first, Action::Run(Command::LookupIndex { name: "test".to_string() }));
    assert_eq!(m.phase, SearchPhase::Resolving);
    assert_eq!(
        m.step(settings("spanish", 2)),
        Action::Run(Command::Search {
            table: "test".to_string(),
            text: "hola".to_string(),
            filter: Some(circle),
            language: "spanish".to_string(),
            limit: 2,
        })
    );
    assert_eq!(m.phase, SearchPhase::Searching);
    assert_eq!(
        m.step(Event::Rows(vec![b"response hola".to_vec()])),
        Action::Finish(Outcome::Page(vec![b"response hola".to_vec()]))
    );
    assert_eq!(m.phase, SearchPhase::Finished);
    assert_eq!(m.step(Event::Rows(vec![])), failed());
}

#[test]
fn search_refuses_bad_filters_before_storage() {
    let bad_lat = Circle { lat: 90.0001f32.to_bits(), long: 0, radius: 0 };
    let (m, a) = Search::start("test".to_string(), "q".to_string(), Some(bad_lat));
    assert_eq!(a, Action::Finish(Outcome::Failed(Failure::LatitudeOutOfRange)));
    assert_eq!(m.phase, SearchPhase::Finished);
    let bad_long = Circle { lat: 0, long: (-180.0f32).to_bits(), radius: 0 };
    let (_, a) = Search::start("test".to_string(), "q".to_string(), Some(bad_long));
    assert_eq!(a, Action::Finish(Outcome::Failed(Failure::LongitudeOutOfRange)));
    let bad_radius = Circle { lat: 0, long: 0, radius: f32::NAN.to_bits() };
    let (_, a) = Search::start("test".to_string(), "q".to_string(), Some(bad_radius));
    assert_eq!(a, Action::Finish(Outcome::Failed(Failure::RadiusNotFinite)));
}

#[test]
fn search_of_an_unknown_index() {
    let (mut m, _) = Search::start("nope".to_string(), "q".to_string(), None);
    assert_eq!(
        m.step(Event::Settings(None)),
        Action::Finish(Outcome::Failed(Failure::UnknownIndex))
    );
    assert_eq!(m.phase, SearchPhase::Finished);
}

#[test]
fn search_storage_failures_return_no_rows() {
    let (mut m, _) = Search::start("test".to_string(), "q".to_string(), None);
    assert_eq!(m.step(Event::Failed(None)), failed());

    let (mut m, _) = Search::start("test".to_string(), "q".to_string(), None);
    m.step(settings("english", 3));
    assert_eq!(m.step(Event::Failed(Some("42P01".to_string()))), failed());

    let (mut m, _) = Search::start("test".to_string(), "q".to_string(), None);
    m.step(settings("english", 3));
    assert_eq!(m.step(Event::Succeeded), failed());
}

#[test]
fn a_page_is_no_longer_than_the_index_is_wide() {
    assert_eq!(page(rows(10), 3), rows(3));
    assert_eq!(page(rows(3), 3), rows(3));
    assert_eq!(page(rows(2), 3), rows(2));
    assert_eq!(page(rows(0), 3), rows(0));
    assert_eq!(page(rows(5), 0), rows(0));
    assert_eq!(page(rows(5), -1), rows(0));
    assert_eq!(page(rows(5), i32::MAX), rows(5));
}

#[test]
fn search_cuts_the_rows_to_a_page() {
    let (mut m, _) = Search::start("test".to_string(), "q".to_string(), None);
    m.step(settings("english", 3));
    assert_eq!(m.step(Event::Rows(rows(10))), Action::Finish(Outcome::Page(rows(3))));
}

#[test]
fn rebuild_happy_path() {
    let (mut m, first) = Rebuild::start("test".to_string(), 42);
    assert_eq!(first, Action::Run(Command::LookupIndex { name: "test".to_string() }));
    assert_eq!(m.phase, RebuildPhase::Resolving);
    assert_eq!(m.shadow, "_test_42");
    assert_eq!(m.step(settings("spanish", 3)), Action::Begin);
    assert_eq!(
        m.step(Event::Succeeded),
        Action::Run(Command::CreateTable { table: "_test_42".to_string() })
    );
    assert_eq!(m.step(Event::Succeeded), Action::NextEntry);
    let e1 = entry("{\"pepito\": \"hola\"}", Some("SRID=4326; POINT(12 0)"), b"response hola");
    assert_eq!(
        m.step(Event::Entry(e1.clone())),
        Action::Run(Command::InsertEntry {
            table: "_test_42".to_string(),
            language: "spanish".to_string(),
            entry: e1,
        })
    );
    assert_eq!(m.step(Event::Succeeded), Action::NextEntry);
    let e2 = entry("{\"key\": \"adeu\"}", None, b"response adeu");
    assert_eq!(
        m.step(Event::Entry(e2.clone())),
        Action::Run(Command::InsertEntry {
            table: "_test_42".to_string(),
            language: "spanish".to_string(),
            entry: e2,
        })
    );
    assert_eq!(m.step(Event::Succeeded), Action::NextEntry);
    assert_eq!(m.step(Event::EndOfEntries), Action::Commit);
    assert_eq!(m.step(Event::Succeeded), Action::Begin);
    assert_eq!(
        m.step(Event::Succeeded),
        Action::Run(Command::RenameTable {
            from: "test".to_string(),
            to: "_test_42_".to_string()
        })
    );
    assert_eq!(
        m.step(Event::Succeeded),
        Action::Run(Command::RenameTable { from: "_test_42".to_string(), to: "test".to_string() })
    );
    assert_eq!(m.step(Event::Succeeded), Action::Commit);
    assert_eq!(
        m.step(Event::Succeeded),
        Action::Run(Command::DropTable { table: "_test_42_".to_string() })
    );
    assert_eq!(m.step(Event::Succeeded), Action::Finish(Outcome::Done));
    assert_eq!(m.phase, RebuildPhase::Finished);
    assert_eq!(m.step(Event::Succeeded), failed());
}

#[test]
fn rebuild_of_an_unknown_index() {
    let (mut m, _) = Rebuild::start("nope".to_string(), 1);
    assert_eq!(
        m.step(Event::Settings(None)),
        Action::Finish(Outcome::Failed(Failure::UnknownIndex))
    );
    let (mut m, _) = Rebuild::start("nope".to_string(), 1);
    assert_eq!(m.step(Event::Failed(None)), failed());
}

#[test]
fn rebuild_failures_before_the_swap() {
    // opening the first transaction
    let (mut m, _) = Rebuild::start("test".to_string(), 1);
    m.step(settings("english", 3));
    assert_eq!(m.step(Event::Failed(None)), failed());
    // creating the shadow table
    let (mut m, _) = Rebuild::start("test".to_string(), 1);
    m.step(settings("english", 3));
    m.step(Event::Succeeded);
    assert_eq!(m.step(Event::Failed(Some("42P07".to_string()))), aborted());
    // inserting an entry
    let (mut m, _) = Rebuild::start("test".to_string(), 1);
    m.step(settings("english", 3));
    m.step(Event::Succeeded);
    m.step(Event::Succeeded);
    m.step(Event::Entry(entry("not json", None, b"")));
    assert_eq!(m.step(Event::Failed(Some("22P02".to_string()))), aborted());
    assert_eq!(m.phase, RebuildPhase::Finished);
    // committing the shadow table
    let (mut m, _) = Rebuild::start("test".to_string(), 1);
    m.step(settings("english", 3));
    m.step(Event::Succeeded);
    m.step(Event::Succeeded);
    m.step(Event::EndOfEntries);
    assert_eq!(m.step(Event::Failed(None)), failed());
}

#[test]
fn rebuild_cancelled_by_the_client() {
    let (mut m, _) = Rebuild::start("test".to_string(), 1);
    m.step(settings("english", 3));
    m.step(Event::Succeeded);
    m.step(Event::Succeeded);
    m.step(Event::Entry(entry("{}", None, b"x")));
    m.step(Event::Succeeded);
    assert_eq!(m.step(Event::StreamBroken), Action::Abort(Outcome::Cancelled));
    assert_eq!(m.phase, RebuildPhase::Finished);
}

#[test]
fn rebuild_failures_during_the_swap() {
    let to_swap = || {
        let (mut m, _) = Rebuild::start("test".to_string(), 1);
        m.step(settings("english", 3));
        m.step(Event::Succeeded);
        m.step(Event::Succeeded);
        m.step(Event::EndOfEntries);
        assert_eq!(m.step(Event::Succeeded), Action::Begin);
        m
    };
    let mut m = to_swap();
    assert_eq!(m.step(Event::Failed(None)), failed());
    let mut m = to_swap();
    m.step(Event::Succeeded);
    assert_eq!(m.step(Event::Failed(None)), aborted());
    let mut m = to_swap();
    m.step(Event::Succeeded);
    m.step(Event::Succeeded);
    assert_eq!(m.step(Event::Failed(None)), aborted());
    let mut m = to_swap();
    m.step(Event::Succeeded);
    m.step(Event::Succeeded);
    m.step(Event::Succeeded);
    assert_eq!(m.step(Event::Failed(None)), failed());
}

#[test]
fn rebuild_cleanup_failure_is_not_fatal() {
    let (mut m, _) = Rebuild::start("test".to_string(), 1);
    m.step(settings("english", 3));
    m.step(Event::Succeeded);
    m.step(Event::Succeeded);
    m.step(Event::EndOfEntries);
    m.step(Event::Succeeded);
    m.step(Event::Succeeded);
    m.step(Event::Succeeded);
    m.step(Event::Succeeded);
    assert_eq!(
        m.step(Event::Succeeded),
        Action::Run(Command::DropTable { table: "_test_1_".to_string() })
    );
    assert_eq!(m.step(Event::Failed(None)), Action::Finish(Outcome::Done));
}

#[test]
fn insert_failures_are_classified() {
    assert_eq!(UNIQUE_VIOLATION, "23505");
    assert_eq!(classify_insert_failure(&Some("23505".to_string())), Failure::IndexExists);
    assert_eq!(classify_insert_failure(&Some("23514".to_string())), Failure::Storage);
    assert_eq!(classify_insert_failure(&Some(String::new())), Failure::Storage);
    assert_eq!(classify_insert_failure(&None), Failure::Storage);
}

#[test]
fn sqlstates_become_failure_events() {
    assert_eq!(
        failure_with_state(Some(&SqlState::UNIQUE_VIOLATION)),
        Event::Failed(Some("23505".to_string()))
    );
    assert_eq!(
        failure_with_state(Some(&SqlState::from_code("42P01"))),
        Event::Failed(Some("42P01".to_string()))
    );
    assert_eq!(
        failure_with_state(Some(&SqlState::from_code("ZZ999"))),
        Event::Failed(Some("ZZ999".to_string()))
    );
    assert_eq!(failure_with_state(None), Event::Failed(None));
}

#[test]
fn causes_are_hidden() {
    assert_eq!(internal_error("connection reset by peer"), Failure::Storage);
    assert_eq!(err_status::<u8, &str>(Ok(7)), Ok(7));
    assert_eq!(err_status::<u8, &str>(Err("relation does not exist")), Err(Failure::Storage));
}

/// The numbers of the placeholders `$n` in a statement.
fn placeholders(statement: &str) -> Vec<usize> {
    let mut found = Vec::new();
    let mut rest = statement;
    while let Some(at) = rest.find('$') {
        rest = &rest[at + 1..];
        let digits: String = rest.chars().take_while(|c| c.is_ascii_digit()).collect();
        if let Ok(n) = digits.parse() {
            if !found.contains(&n) {
                found.push(n);
            }
        }
    }
    found.sort();
    found
}

#[test]
fn every_parameter_has_its_placeholder() {
    let circle = Some(Circle { lat: 0, long: 0, radius: 0 });
    let commands = vec![
        Command::AddExtension,
        Command::CreateCatalog,
        Command::InsertIndex { name: "n".to_string(), language: "l".to_string(), response_width: 1 },
        Command::DeleteIndex { name: "n".to_string() },
        Command::LookupIndex { name: "n".to_string() },
        Command::CreateTable { table: "t".to_string() },
        Command::InsertEntry {
            table: "t".to_string(),
            language: "l".to_string(),
            entry: entry("{}", None, b""),
        },
        Command::RenameTable { from: "a".to_string(), to: "b".to_string() },
        Command::DropTable { table: "t".to_string() },
        Command::Search {
            table: "t".to_string(),
            text: "q".to_string(),
            filter: circle,
            language: "l".to_string(),
            limit: 1,
        },
        Command::Search {
            table: "t".to_string(),
            text: "q".to_string(),
            filter: None,
            language: "l".to_string(),
            limit: 1,
        },
    ];
    for command in commands {
        let numbers = placeholders(&command.statement());
        let count = command.clone().parameters().len();
        assert_eq!(numbers, (1..=count).collect::<Vec<usize>>(), "{:?}", command);
    }
}
