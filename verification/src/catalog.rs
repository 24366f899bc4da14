//! The catalog of index definitions: where it lives, and which definitions
//! and names it accepts.

use vstd::prelude::*;
use crate::status::Failure;
use crate::text::same_text;

verus! {

/// The schema that holds the catalog table and every table of entries.
pub const SCHEMA: &'static str = "index";

/// The catalog table. It shares the schema with the tables of entries, each
/// named after its index, so no index can bear this name.
pub const INDEX_TABLE: &'static str = "index";

/// A named index: the language its documents are analysed in, and how many
/// results a page of it holds at most.
#[derive(Clone, Debug, PartialEq, Eq)]
pub struct IndexDefinition {
    pub name: String,
    pub language: String,
    pub response_width: i32,
}

/// What the catalog knows of an index besides its name.
#[derive(Clone, Debug, PartialEq, Eq)]
pub struct IndexSettings {
    pub language: String,
    pub response_width: i32,
}

/// An index definition as plain values.
pub struct IndexDefinitionView {
    pub name: Seq<char>,
    pub language: Seq<char>,
    pub response_width: int,
}

/// Index settings as plain values.
pub struct IndexSettingsView {
    pub language: Seq<char>,
    pub response_width: int,
}

impl View for IndexDefinition {
    type V = IndexDefinitionView;

    open spec fn view(&self) -> IndexDefinitionView {
        IndexDefinitionView {
            name: self.name@,
            language: self.language@,
            response_width: self.response_width as int,
        }
    }
}

impl View for IndexSettings {
    type V = IndexSettingsView;

    open spec fn view(&self) -> IndexSettingsView {
        IndexSettingsView {
            language: self.language@,
            response_width: self.response_width as int,
        }
    }
}

/// An index name must not be empty, and must not be the catalog table's.
pub open spec fn name_verdict(name: Seq<char>) -> Result<(), Failure> {
    if name.len() == 0 {
        Err(Failure::EmptyName)
    } else if name == INDEX_TABLE@ {
        Err(Failure::ReservedName)
    } else {
        Ok(())
    }
}

/// A response width must be positive.
pub open spec fn width_verdict(width: int) -> Result<(), Failure> {
    if width <= 0 {
        Err(Failure::InvalidWidth)
    } else {
        Ok(())
    }
}

/// A definition is judged by its name first, then by its width.
pub open spec fn definition_verdict(def: IndexDefinitionView) -> Result<(), Failure> {
    if name_verdict(def.name) is Err {
        name_verdict(def.name)
    } else {
        width_verdict(def.response_width)
    }
}

/// Checks an index name before it is used to define or remove an index.
pub fn check_name(name: &str) -> (r: Result<(), Failure>)
    ensures
        r == name_verdict(name@),
{
    if name.is_empty() {
        Err(Failure::EmptyName)
    } else if same_text(name, INDEX_TABLE) {
        Err(Failure::ReservedName)
    } else {
        Ok(())
    }
}

/// Checks a response width.
pub fn check_width(width: i32) -> (r: Result<(), Failure>)
    ensures
        r == width_verdict(width as int),
{
    if width <= 0 {
        Err(Failure::InvalidWidth)
    } else {
        Ok(())
    }
}

/// Checks a definition before any transaction is opened for it.
pub fn check_definition(def: &IndexDefinition) -> (r: Result<(), Failure>)
    ensures
        r == definition_verdict(def@),
{
    match check_name(def.name.as_str()) {
        Err(f) => Err(f),
        Ok(()) => check_width(def.response_width),
    }
}

/// Reads the catalog's answer to a lookup: the settings of the index, or
/// the failure that no index of that name is defined.
pub fn resolve(found: Option<IndexSettings>) -> (r: Result<IndexSettings, Failure>)
    ensures
        match found {
            Some(settings) => r == Ok::<IndexSettings, Failure>(settings),
            None => r == Err::<IndexSettings, Failure>(Failure::UnknownIndex),
        },
{
    match found {
        Some(settings) => Ok(settings),
        None => Err(Failure::UnknownIndex),
    }
}

/// A byte that may stand in an index name sent along with a request: a
/// printable ASCII character, a space or a tab.
pub open spec fn is_visible_ascii(b: u8) -> bool {
    (32 <= b && b < 127) || b == 9
}

/// The characters that a sequence of ASCII bytes spells.
pub open spec fn ascii_text(bytes: Seq<u8>) -> Seq<char> {
    bytes.map_values(|b: u8| b as char)
}

/// The index name that a request names, read from the raw value of its
/// routing attribute.
pub open spec fn arg_verdict(value: Option<Seq<u8>>) -> Result<Seq<char>, Failure> {
    match value {
        None => Err(Failure::MissingIndexArg),
        Some(bytes) => if forall|i: int| 0 <= i < bytes.len() ==> is_visible_ascii(#[trigger] bytes[i]) {
            Ok(ascii_text(bytes))
        } else {
            Err(Failure::InvalidIndexArg)
        },
    }
}

/// Lifts a slice to its view.
pub open spec fn bytes_view(value: Option<&[u8]>) -> Option<Seq<u8>> {
    match value {
        Some(bytes) => Some(bytes@),
        None => None,
    }
}

/// Reads the index name of a request from its routing attribute. The
/// attribute must be present and hold visible ASCII only.
pub fn require_arg(value: Option<&[u8]>) -> (r: Result<String, Failure>)
    ensures
        match r {
            Ok(name) => arg_verdict(bytes_view(value)) == Ok::<Seq<char>, Failure>(name@),
            Err(f) => arg_verdict(bytes_view(value)) == Err::<Seq<char>, Failure>(f),
        },
{
    match value {
        None => Err(Failure::MissingIndexArg),
        Some(bytes) => {
            let mut name = String::new();
            let mut i: usize = 0;
            while i < bytes.len()
                invariant
                    bytes_view(value) == Some(bytes@),
                    i <= bytes.len(),
                    name@ == ascii_text(bytes@.take(i as int)),
                    forall|k: int| 0 <= k < i ==> is_visible_ascii(#[trigger] bytes@[k]),
                decreases bytes.len() - i,
            {
                let b = bytes[i];
                if !((32 <= b && b < 127) || b == 9) {
                    return Err(Failure::InvalidIndexArg);
                }
                name.push(b as char);
                assert(bytes@.take(i + 1) == bytes@.take(i as int).push(b));
                i += 1;
            }
            assert(bytes@.take(i as int) == bytes@);
            Ok(name)
        },
    }
}

} // verus!
