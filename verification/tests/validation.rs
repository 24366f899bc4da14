use search_index::catalog::{
    check_definition, check_name, check_width, require_arg, resolve, IndexDefinition,
    IndexSettings, INDEX_TABLE, SCHEMA,
};
use search_index::geo::{check_circle, check_filter, Circle, INFINITY, LAT_LIMIT, LONG_LIMIT};
use search_index::status::{Code, Failure};

fn circle(lat: f32, long: f32, radius: f32) -> Circle {
    Circle { lat: lat.to_bits(), long: long.to_bits(), radius: radius.to_bits() }
}

fn definition(name: &str, width: i32) -> IndexDefinition {
    IndexDefinition { name: name.to_string(), language: "english".to_string(), response_width: width }
}

#[test]
fn limits_are_the_patterns_of_their_numbers() {
    assert_eq!(LAT_LIMIT, 90.0f32.to_bits());
    assert_eq!(LONG_LIMIT, 180.0f32.to_bits());
    assert_eq!(INFINITY, f32::INFINITY.to_bits());
}

#[test]
fn latitude_bounds_are_closed() {
    assert_eq!(check_circle(&circle(90.0, 0.0, 1.0)), Ok(()));
    assert_eq!(check_circle(&circle(-90.0, 0.0, 1.0)), Ok(()));
    assert_eq!(check_circle(&circle(90.0001, 0.0, 1.0)), Err(Failure::LatitudeOutOfRange));
    assert_eq!(check_circle(&circle(-90.0001, 0.0, 1.0)), Err(Failure::LatitudeOutOfRange));
}

#[test]
fn latitude_next_to_the_bound() {
    let above = f32::from_bits(90.0f32.to_bits() + 1);
    let below = f32::from_bits(90.0f32.to_bits() - 1);
    assert_eq!(check_circle(&circle(above, 0.0, 1.0)), Err(Failure::LatitudeOutOfRange));
    assert_eq!(check_circle(&circle(-above, 0.0, 1.0)), Err(Failure::LatitudeOutOfRange));
    assert_eq!(check_circle(&circle(below, 0.0, 1.0)), Ok(()));
    assert_eq!(check_circle(&circle(-below, 0.0, 1.0)), Ok(()));
}

#[test]
fn longitude_is_open_below_and_closed_above() {
    assert_eq!(check_circle(&circle(0.0, 180.0, 1.0)), Ok(()));
    assert_eq!(check_circle(&circle(0.0, -180.0, 1.0)), Err(Failure::LongitudeOutOfRange));
    assert_eq!(check_circle(&circle(0.0, 180.0001, 1.0)), Err(Failure::LongitudeOutOfRange));
    let just_inside = -f32::from_bits(180.0f32.to_bits() - 1);
    assert_eq!(check_circle(&circle(0.0, just_inside, 1.0)), Ok(()));
}

#[test]
fn longitude_beyond_ninety_is_accepted() {
    assert_eq!(check_circle(&circle(0.0, 120.5, 1.0)), Ok(()));
    assert_eq!(check_circle(&circle(0.0, -120.5, 1.0)), Ok(()));
    assert_eq!(check_circle(&circle(89.0, 179.0, 1.0)), Ok(()));
}

#[test]
fn radius_must_be_finite() {
    assert_eq!(check_circle(&circle(0.0, 0.0, f32::NAN)), Err(Failure::RadiusNotFinite));
    assert_eq!(check_circle(&circle(0.0, 0.0, f32::INFINITY)), Err(Failure::RadiusNotFinite));
    assert_eq!(check_circle(&circle(0.0, 0.0, f32::NEG_INFINITY)), Err(Failure::RadiusNotFinite));
    assert_eq!(check_circle(&circle(0.0, 0.0, f32::MAX)), Ok(()));
    assert_eq!(check_circle(&circle(0.0, 0.0, 0.0)), Ok(()));
    assert_eq!(check_circle(&circle(0.0, 0.0, -5.0)), Ok(()));
}

#[test]
fn coordinates_must_be_numbers() {
    assert_eq!(check_circle(&circle(f32::NAN, 0.0, 1.0)), Err(Failure::LatitudeOutOfRange));
    assert_eq!(check_circle(&circle(f32::INFINITY, 0.0, 1.0)), Err(Failure::LatitudeOutOfRange));
    assert_eq!(check_circle(&circle(0.0, f32::NAN, 1.0)), Err(Failure::LongitudeOutOfRange));
    assert_eq!(
        check_circle(&circle(0.0, f32::NEG_INFINITY, 1.0)),
        Err(Failure::LongitudeOutOfRange)
    );
}

#[test]
fn zeros_and_subnormals_are_in_range() {
    assert_eq!(check_circle(&circle(0.0, -0.0, 1.0)), Ok(()));
    assert_eq!(check_circle(&circle(-0.0, 0.0, 1.0)), Ok(()));
    let tiny = f32::from_bits(1);
    assert_eq!(check_circle(&circle(tiny, -tiny, tiny)), Ok(()));
}

#[test]
fn the_first_broken_rule_is_reported() {
    assert_eq!(
        check_circle(&circle(91.0, 181.0, f32::NAN)),
        Err(Failure::LatitudeOutOfRange)
    );
    assert_eq!(
        check_circle(&circle(45.0, 181.0, f32::NAN)),
        Err(Failure::LongitudeOutOfRange)
    );
}

#[test]
fn a_query_without_filter_is_valid() {
    assert_eq!(check_filter(&None), Ok(()));
    assert_eq!(check_filter(&Some(circle(11.5, 0.0, 112_000.0))), Ok(()));
    assert_eq!(
        check_filter(&Some(circle(111.5, 0.0, 112_000.0))),
        Err(Failure::LatitudeOutOfRange)
    );
}

#[test]
fn index_names() {
    assert_eq!(SCHEMA, "index");
    assert_eq!(INDEX_TABLE, "index");
    assert_eq!(check_name(""), Err(Failure::EmptyName));
    assert_eq!(check_name("index"), Err(Failure::ReservedName));
    assert_eq!(check_name("Index"), Ok(()));
    assert_eq!(check_name("index "), Ok(()));
    assert_eq!(check_name("foo"), Ok(()));
}

#[test]
fn response_widths() {
    assert_eq!(check_width(1), Ok(()));
    assert_eq!(check_width(i32::MAX), Ok(()));
    assert_eq!(check_width(0), Err(Failure::InvalidWidth));
    assert_eq!(check_width(-1), Err(Failure::InvalidWidth));
    assert_eq!(check_width(i32::MIN), Err(Failure::InvalidWidth));
}

#[test]
fn definitions_are_judged_by_name_first() {
    assert_eq!(check_definition(&definition("foo", 3)), Ok(()));
    assert_eq!(check_definition(&definition("", 0)), Err(Failure::EmptyName));
    assert_eq!(check_definition(&definition("index", 0)), Err(Failure::ReservedName));
    assert_eq!(check_definition(&definition("foo", 0)), Err(Failure::InvalidWidth));
}

#[test]
fn a_lookup_without_a_row_is_an_unknown_index() {
    let settings = IndexSettings { language: "spanish".to_string(), response_width: 4 };
    assert_eq!(resolve(Some(settings.clone())), Ok(settings));
    assert_eq!(resolve(None), Err(Failure::UnknownIndex));
}

#[test]
fn routing_attribute() {
    assert_eq!(require_arg(None), Err(Failure::MissingIndexArg));
    assert_eq!(require_arg(Some(b"test".as_slice())), Ok("test".to_string()));
    assert_eq!(require_arg(Some(b"".as_slice())), Ok(String::new()));
    assert_eq!(require_arg(Some(b"a b\t~".as_slice())), Ok("a b\t~".to_string()));
    assert_eq!(require_arg(Some(b"caf\xc3\xa9".as_slice())), Err(Failure::InvalidIndexArg));
    assert_eq!(require_arg(Some(b"a\x7f".as_slice())), Err(Failure::InvalidIndexArg));
    assert_eq!(require_arg(Some(b"a\nb".as_slice())), Err(Failure::InvalidIndexArg));
    assert_eq!(require_arg(Some(b"\x1f".as_slice())), Err(Failure::InvalidIndexArg));
}

#[test]
fn codes_of_failures() {
    assert_eq!(Failure::EmptyName.code(), Code::InvalidArgument);
    assert_eq!(Failure::ReservedName.code(), Code::InvalidArgument);
    assert_eq!(Failure::InvalidWidth.code(), Code::InvalidArgument);
    assert_eq!(Failure::LatitudeOutOfRange.code(), Code::InvalidArgument);
    assert_eq!(Failure::LongitudeOutOfRange.code(), Code::InvalidArgument);
    assert_eq!(Failure::RadiusNotFinite.code(), Code::InvalidArgument);
    assert_eq!(Failure::MissingIndexArg.code(), Code::InvalidArgument);
    assert_eq!(Failure::InvalidIndexArg.code(), Code::InvalidArgument);
    assert_eq!(Failure::UnknownIndex.code(), Code::InvalidArgument);
    assert_eq!(Failure::IndexExists.code(), Code::AlreadyExists);
    assert_eq!(Failure::Storage.code(), Code::Internal);
}

#[test]
fn messages_of_failures() {
    assert_eq!(Failure::EmptyName.message(), "The name cannot be empty");
    assert_eq!(Failure::ReservedName.message(), "This name is already taken by the main table");
    assert_eq!(Failure::InvalidWidth.message(), "Response size must be a positive integer");
    assert_eq!(Failure::LatitudeOutOfRange.message(), "Latitude is outside the valid range");
    assert_eq!(Failure::LongitudeOutOfRange.message(), "Longitude is outside the valid range");
    assert_eq!(Failure::RadiusNotFinite.message(), "Radius is not a finite number");
    assert_eq!(Failure::MissingIndexArg.message(), "No index was provided in the metadata");
    assert_eq!(Failure::InvalidIndexArg.message(), "Invalid index provided");
    assert_eq!(Failure::UnknownIndex.message(), "The selected index doesn't exist");
    assert_eq!(Failure::IndexExists.message(), "Index already exists");
    assert_eq!(Failure::Storage.message(), "Internal error");
}
