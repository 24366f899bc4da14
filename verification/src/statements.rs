//! The SQL statements sent to the storage engine.
//!
//! Schema and table names are data. Each is written as a quoted identifier,
//! with every double quote inside it doubled, so that it cannot end the
//! identifier early. Values never appear in the text: they travel as the
//! numbered parameters `$1`, `$2`, ...

use vstd::prelude::*;
use vstd::string::StringExecFns;
use crate::text::{doubled_quotes, push_doubling_quotes};

verus! {

/// Makes the geospatial functions available.
pub const ADD_POSTGIS: &'static str = "CREATE EXTENSION IF NOT EXISTS postgis";

/// `"schema"."table"`, the two names with their quotes doubled.
pub open spec fn qualified(schema: Seq<char>, table: Seq<char>) -> Seq<char> {
    "\""@ + doubled_quotes(schema) + "\".\""@ + doubled_quotes(table) + "\""@
}

/// `"name"`, with its quotes doubled.
pub open spec fn quoted(name: Seq<char>) -> Seq<char> {
    "\""@ + doubled_quotes(name) + "\""@
}

/// Appends `"schema"."table"` to `out`.
fn push_qualified(out: &mut String, schema: &str, table: &str)
    ensures
        final(out)@ == old(out)@ + qualified(schema@, table@),
{
    out.append("\"");
    push_doubling_quotes(out, schema);
    out.append("\".\"");
    push_doubling_quotes(out, table);
    out.append("\"");
    assert(out@ == old(out)@ + qualified(schema@, table@));
}

/// Appends `"name"` to `out`.
fn push_quoted(out: &mut String, name: &str)
    ensures
        final(out)@ == old(out)@ + quoted(name@),
{
    out.append("\"");
    push_doubling_quotes(out, name);
    out.append("\"");
    assert(out@ == old(out)@ + quoted(name@));
}

/// `head`, then `"schema"."table"`, then `tail`.
fn around_table(head: &str, schema: &str, table: &str, tail: &str) -> (s: String)
    ensures
        s@ == head@ + qualified(schema@, table@) + tail@,
{
    let mut out = String::from_str(head);
    push_qualified(&mut out, schema, table);
    out.append(tail);
    out
}

pub const CREATE_MAIN_TABLE_HEAD: &'static str = "
        CREATE TABLE IF NOT EXISTS ";

pub const CREATE_MAIN_TABLE_TAIL: &'static str = " (
            name varchar(100) primary key,
            lang varchar(25) not null,
            response_size integer not null
        )
    ";

/// The text of [`create_main_table`].
pub open spec fn create_main_table_text(schema: Seq<char>, table: Seq<char>) -> Seq<char> {
    CREATE_MAIN_TABLE_HEAD@ + qualified(schema, table) + CREATE_MAIN_TABLE_TAIL@
}

/// Creates the catalog table unless it exists: one row per index, keyed by
/// its name.
pub fn create_main_table(schema: &str, table: &str) -> (s: String)
    ensures
        s@ == create_main_table_text(schema@, table@),
{
    around_table(CREATE_MAIN_TABLE_HEAD, schema, table, CREATE_MAIN_TABLE_TAIL)
}

pub const ADD_INDEX_HEAD: &'static str = "
        INSERT INTO ";

pub const ADD_INDEX_TAIL: &'static str = " (name, lang, response_size)
            VALUES ($1, $2, $3)
    ";

/// The text of [`add_index`].
pub open spec fn add_index_text(schema: Seq<char>, table: Seq<char>) -> Seq<char> {
    ADD_INDEX_HEAD@ + qualified(schema, table) + ADD_INDEX_TAIL@
}

/// Adds a row to the catalog table. `$1` is the index name, `$2` its
/// language, `$3` its response width.
pub fn add_index(schema: &str, table: &str) -> (s: String)
    ensures
        s@ == add_index_text(schema@, table@),
{
    around_table(ADD_INDEX_HEAD, schema, table, ADD_INDEX_TAIL)
}

pub const DELETE_INDEX_HEAD: &'static str = "
        DELETE FROM ";

pub const DELETE_INDEX_TAIL: &'static str = "
            WHERE name = $1
    ";

/// The text of [`delete_index`].
pub open spec fn delete_index_text(schema: Seq<char>, table: Seq<char>) -> Seq<char> {
    DELETE_INDEX_HEAD@ + qualified(schema, table) + DELETE_INDEX_TAIL@
}

/// Removes the row of the index named `$1` from the catalog table.
pub fn delete_index(schema: &str, table: &str) -> (s: String)
    ensures
        s@ == delete_index_text(schema@, table@),
{
    around_table(DELETE_INDEX_HEAD, schema, table, DELETE_INDEX_TAIL)
}

pub const GET_INDEX_HEAD: &'static str = "
        SELECT lang, response_size
            FROM ";

pub const GET_INDEX_TAIL: &'static str = "
            WHERE name = $1
            LIMIT 1
    ";

/// The text of [`get_index`].
pub open spec fn get_index_text(schema: Seq<char>, table: Seq<char>) -> Seq<char> {
    GET_INDEX_HEAD@ + qualified(schema, table) + GET_INDEX_TAIL@
}

/// Reads language and response width of the index named `$1` from the
/// catalog table: one row, or none if the index is not defined.
pub fn get_index(schema: &str, table: &str) -> (s: String)
    ensures
        s@ == get_index_text(schema@, table@),
{
    around_table(GET_INDEX_HEAD, schema, table, GET_INDEX_TAIL)
}

pub const CREATE_INDEX_TABLE_HEAD: &'static str = "
        CREATE TABLE ";

pub const CREATE_INDEX_TABLE_TAIL: &'static str = " (
            index tsvector NOT NULL,
            geo geography,
            result bytea NOT NULL
        )
    ";

/// The text of [`create_index_table`].
pub open spec fn create_index_table_text(schema: Seq<char>, table: Seq<char>) -> Seq<char> {
    CREATE_INDEX_TABLE_HEAD@ + qualified(schema, table) + CREATE_INDEX_TABLE_TAIL@
}

/// Creates an empty table of entries: searchable terms, optional geography,
/// response payload.
pub fn create_index_table(schema: &str, table: &str) -> (s: String)
    ensures
        s@ == create_index_table_text(schema@, table@),
{
    around_table(CREATE_INDEX_TABLE_HEAD, schema, table, CREATE_INDEX_TABLE_TAIL)
}

pub const ADD_ENTRY_HEAD: &'static str = "
        INSERT INTO ";

pub const ADD_ENTRY_TAIL: &'static str = " (index, geo, result)
            VALUES (
                json_to_tsvector($4::text::regconfig, ($1::text)::json, '[\"string\", \"numeric\"]'),
                ST_GeomFromEWKT($2)::geography,
                $3
            )
    ";

/// The text of [`add_entry`].
pub open spec fn add_entry_text(schema: Seq<char>, table: Seq<char>) -> Seq<char> {
    ADD_ENTRY_HEAD@ + qualified(schema, table) + ADD_ENTRY_TAIL@
}

/// Inserts one entry. `$1` is the document, `$2` the geometry or NULL, `$3`
/// the response payload, `$4` the language of the index, by which the
/// searchable terms are derived from the document.
pub fn add_entry(schema: &str, table: &str) -> (s: String)
    ensures
        s@ == add_entry_text(schema@, table@),
{
    around_table(ADD_ENTRY_HEAD, schema, table, ADD_ENTRY_TAIL)
}

pub const RENAME_TABLE_HEAD: &'static str = "ALTER TABLE ";

pub const RENAME_TABLE_INFIX: &'static str = " RENAME TO ";

/// The text of [`rename_table`].
pub open spec fn rename_table_text(schema: Seq<char>, from_table: Seq<char>, to_table: Seq<char>) -> Seq<
    char,
> {
    RENAME_TABLE_HEAD@ + qualified(schema, from_table) + RENAME_TABLE_INFIX@ + quoted(to_table)
}

/// Renames a table within its schema.
pub fn rename_table(schema: &str, from_table: &str, to_table: &str) -> (s: String)
    ensures
        s@ == rename_table_text(schema@, from_table@, to_table@),
{
    let mut out = around_table(RENAME_TABLE_HEAD, schema, from_table, RENAME_TABLE_INFIX);
    push_quoted(&mut out, to_table);
    out
}

pub const DROP_TABLE_HEAD: &'static str = "DROP TABLE ";

/// The text of [`drop_table`].
pub open spec fn drop_table_text(schema: Seq<char>, table: Seq<char>) -> Seq<char> {
    DROP_TABLE_HEAD@ + qualified(schema, table)
}

/// Drops a table with all its entries.
pub fn drop_table(schema: &str, table: &str) -> (s: String)
    ensures
        s@ == drop_table_text(schema@, table@),
{
    let mut out = String::from_str(DROP_TABLE_HEAD);
    push_qualified(&mut out, schema, table);
    out
}

pub const SEARCH_HEAD: &'static str = "
        SELECT result
            FROM ";

pub const SEARCH_TAIL: &'static str = "
            WHERE $4::real IS NULL
                OR ST_DWithin(geo, ST_SetSRID(ST_MakePoint($3::real, $2::real), 4326)::geography, $4::real, TRUE)
            ORDER BY ts_rank(index, websearch_to_tsquery($5::text::regconfig, $1)) DESC
            LIMIT $6::integer
    ";

/// The text of [`search`].
pub open spec fn search_text(schema: Seq<char>, table: Seq<char>) -> Seq<char> {
    SEARCH_HEAD@ + qualified(schema, table) + SEARCH_TAIL@
}

/// Selects the response payloads of a page of results, best match first.
///
/// `$1` is the query text, `$2` the latitude, `$3` the longitude, `$4` the
/// radius in metres, `$5` the language of the index and `$6` its response
/// width. With a NULL radius no row is left out for its distance. With a
/// radius, a row stays only if its geography lies within that many metres of
/// the point, which no row without geography does.
pub fn search(schema: &str, table: &str) -> (s: String)
    ensures
        s@ == search_text(schema@, table@),
{
    around_table(SEARCH_HEAD, schema, table, SEARCH_TAIL)
}

} // verus!
