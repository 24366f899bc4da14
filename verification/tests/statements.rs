use search_index::statements::{
    add_entry, add_index, create_index_table, create_main_table, delete_index, drop_table,
    get_index, rename_table, search, ADD_POSTGIS,
};

#[test]
fn add_postgis_text() {
    assert_eq!(ADD_POSTGIS, "CREATE EXTENSION IF NOT EXISTS postgis");
}

#[test]
fn create_main_table_text() {
    assert_eq!(
        create_main_table("index", "index"),
        "
        CREATE TABLE IF NOT EXISTS \"index\".\"index\" (
            name varchar(100) primary key,
            lang varchar(25) not null,
            response_size integer not null
        )
    "
    );
}

#[test]
fn add_index_text() {
    assert_eq!(
        add_index("index", "index"),
        "
        INSERT INTO \"index\".\"index\" (name, lang, response_size)
            VALUES ($1, $2, $3)
    "
    );
}

#[test]
fn delete_index_text() {
    assert_eq!(
        delete_index("index", "index"),
        "
        DELETE FROM \"index\".\"index\"
            WHERE name = $1
    "
    );
}

#[test]
fn get_index_text() {
    assert_eq!(
        get_index("index", "index"),
        "
        SELECT lang, response_size
            FROM \"index\".\"index\"
            WHERE name = $1
            LIMIT 1
    "
    );
}

#[test]
fn create_index_table_text() {
    assert_eq!(
        create_index_table("index", "books"),
        "
        CREATE TABLE \"index\".\"books\" (
            index tsvector NOT NULL,
            geo geography,
            result bytea NOT NULL
        )
    "
    );
}

#[test]
fn add_entry_text() {
    assert_eq!(
        add_entry("index", "_books_7"),
        "
        INSERT INTO \"index\".\"_books_7\" (index, geo, result)
            VALUES (
                json_to_tsvector($4::text::regconfig, ($1::text)::json, '[\"string\", \"numeric\"]'),
                ST_GeomFromEWKT($2)::geography,
                $3
            )
    "
    );
}

#[test]
fn rename_table_text() {
    assert_eq!(
        rename_table("index", "_books_7", "books"),
        "ALTER TABLE \"index\".\"_books_7\" RENAME TO \"books\""
    );
}

#[test]
fn drop_table_text() {
    assert_eq!(drop_table("index", "books"), "DROP TABLE \"index\".\"books\"");
}

#[test]
fn search_text() {
    assert_eq!(
        search("index", "books"),
        "
        SELECT result
            FROM \"index\".\"books\"
            WHERE $4::real IS NULL
                OR ST_DWithin(geo, ST_SetSRID(ST_MakePoint($3::real, $2::real), 4326)::geography, $4::real, TRUE)
            ORDER BY ts_rank(index, websearch_to_tsquery($5::text::regconfig, $1)) DESC
            LIMIT $6::integer
    "
    );
}

#[test]
fn quotes_in_names_are_doubled() {
    assert_eq!(drop_table("in\"dex", "a\"b"), "DROP TABLE \"in\"\"dex\".\"a\"\"b\"");
    assert_eq!(
        rename_table("s", "x\"", "\"\"y"),
        "ALTER TABLE \"s\".\"x\"\"\" RENAME TO \"\"\"\"\"y\""
    );
}

#[test]
fn a_name_cannot_close_its_identifier() {
    let text = drop_table("index", "books\"; DROP TABLE \"index\".\"index");
    assert_eq!(
        text,
        "DROP TABLE \"index\".\"books\"\"; DROP TABLE \"\"index\"\".\"\"index\""
    );
}

#[test]
fn names_beyond_ascii_pass_unchanged() {
    assert_eq!(drop_table("índex", "añ\"o"), "DROP TABLE \"índex\".\"añ\"\"o\"");
    assert_eq!(drop_table("", ""), "DROP TABLE \"\".\"\"");
}
