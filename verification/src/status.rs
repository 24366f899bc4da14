//! The failures the service reports, and the status code each one carries.

use vstd::prelude::*;

verus! {

/// Broad class of a failure, as callers branch on it.
#[derive(Clone, Copy, Debug, PartialEq, Eq, Structural)]
pub enum Code {
    /// The request itself is wrong; retrying it unchanged cannot help.
    InvalidArgument,
    /// An index of that name is already defined.
    AlreadyExists,
    /// The storage engine failed. The cause is never passed on to the caller.
    Internal,
}

/// Every way a request can fail.
#[derive(Clone, Copy, Debug, PartialEq, Eq, Structural)]
pub enum Failure {
    /// The index name is empty.
    EmptyName,
    /// The index name is the catalog's own table name.
    ReservedName,
    /// The response width is zero or negative.
    InvalidWidth,
    /// The latitude of the radius filter lies outside [-90, 90].
    LatitudeOutOfRange,
    /// The longitude of the radius filter lies outside (-180, 180].
    LongitudeOutOfRange,
    /// The radius of the radius filter is NaN or infinite.
    RadiusNotFinite,
    /// The request carries no index name.
    MissingIndexArg,
    /// The index name of the request is not visible ASCII.
    InvalidIndexArg,
    /// No index of that name is defined.
    UnknownIndex,
    /// An index of that name is already defined.
    IndexExists,
    /// The storage engine reported an error.
    Storage,
}

impl Failure {
    /// The class this failure belongs to.
    pub open spec fn spec_code(self) -> Code {
        match self {
            Failure::IndexExists => Code::AlreadyExists,
            Failure::Storage => Code::Internal,
            _ => Code::InvalidArgument,
        }
    }

    /// The text shown to the caller.
    pub open spec fn spec_message(self) -> Seq<char> {
        match self {
            Failure::EmptyName => "The name cannot be empty"@,
            Failure::ReservedName => "This name is already taken by the main table"@,
            Failure::InvalidWidth => "Response size must be a positive integer"@,
            Failure::LatitudeOutOfRange => "Latitude is outside the valid range"@,
            Failure::LongitudeOutOfRange => "Longitude is outside the valid range"@,
            Failure::RadiusNotFinite => "Radius is not a finite number"@,
            Failure::MissingIndexArg => "No index was provided in the metadata"@,
            Failure::InvalidIndexArg => "Invalid index provided"@,
            Failure::UnknownIndex => "The selected index doesn't exist"@,
            Failure::IndexExists => "Index already exists"@,
            Failure::Storage => "Internal error"@,
        }
    }

    #[verifier::when_used_as_spec(spec_code)]
    pub fn code(self) -> (c: Code)
        ensures
            c == self.spec_code(),
    {
        match self {
            Failure::IndexExists => Code::AlreadyExists,
            Failure::Storage => Code::Internal,
            _ => Code::InvalidArgument,
        }
    }

    pub fn message(self) -> (m: &'static str)
        ensures
            m@ == self.spec_message(),
    {
        match self {
            Failure::EmptyName => "The name cannot be empty",
            Failure::ReservedName => "This name is already taken by the main table",
            Failure::InvalidWidth => "Response size must be a positive integer",
            Failure::LatitudeOutOfRange => "Latitude is outside the valid range",
            Failure::LongitudeOutOfRange => "Longitude is outside the valid range",
            Failure::RadiusNotFinite => "Radius is not a finite number",
            Failure::MissingIndexArg => "No index was provided in the metadata",
            Failure::InvalidIndexArg => "Invalid index provided",
            Failure::UnknownIndex => "The selected index doesn't exist",
            Failure::IndexExists => "Index already exists",
            Failure::Storage => "Internal error",
        }
    }
}

} // verus!
