//! Everything that can go wrong in this crate or in the store behind it.

use vstd::prelude::*;
use vstd::std_specs::convert::FromSpecImpl;

verus! {

/// A failure reported by the MongoDB driver, `mongodb::error::Error`. Carried, never read.
#[verifier::external_type_specification]
#[verifier::external_body]
pub struct ExMongoError(mongodb::error::Error);

/// What kind of failure a `mongodb::error::Error` stands for, `mongodb::error::ErrorKind`:
/// the type that the error dereferences to. Never read.
#[verifier::external_type_specification]
#[verifier::external_body]
pub struct ExMongoErrorKind(mongodb::error::ErrorKind);

/// A failure to encode a record, `mongodb::bson::ser::Error`. Carried, never read.
#[verifier::external_type_specification]
#[verifier::external_body]
pub struct ExEncodeError(mongodb::bson::ser::Error);

/// A failure to decode a record, `mongodb::bson::de::Error`. Carried, never read.
#[verifier::external_type_specification]
#[verifier::external_body]
pub struct ExDecodeError(mongodb::bson::de::Error);

/// The reason for which `url::Url::parse` rejected a string, `url::ParseError`.
/// Carried, never read.
#[verifier::external_type_specification]
#[verifier::external_body]
pub struct ExParseError(url::ParseError);

/// Why an operation of this crate, or of the store behind it, failed.
#[derive(Debug)]
pub enum CoreError {
    /// The store cannot be reached, or refused an operation.
    Mongo(mongodb::error::Error),
    /// A record could not be turned into a stored document.
    BsonSer(mongodb::bson::ser::Error),
    /// A stored document does not have the shape of the record it should hold.
    BsonDe(mongodb::bson::de::Error),
    /// The connection string is not a URL.
    UrlParse(url::ParseError),
    /// The connection string names no database.
    DatabaseName,
    /// The store holds no bot record where one must exist.
    BotDbNotInit,
    /// A worker of that name exists already.
    WorkerNameExists,
    /// A record that must exist, such as one just inserted, is missing.
    Error,
}

impl From<url::ParseError> for CoreError {
    fn from(e: url::ParseError) -> (err: CoreError) {
        CoreError::UrlParse(e)
    }
}

impl FromSpecImpl<url::ParseError> for CoreError {
    open spec fn obeys_from_spec() -> bool {
        true
    }

    open spec fn from_spec(e: url::ParseError) -> CoreError {
        CoreError::UrlParse(e)
    }
}

impl From<mongodb::error::Error> for CoreError {
    fn from(e: mongodb::error::Error) -> (err: CoreError) {
        CoreError::Mongo(e)
    }
}

impl FromSpecImpl<mongodb::error::Error> for CoreError {
    open spec fn obeys_from_spec() -> bool {
        true
    }

    open spec fn from_spec(e: mongodb::error::Error) -> CoreError {
        CoreError::Mongo(e)
    }
}

impl From<mongodb::bson::ser::Error> for CoreError {
    fn from(e: mongodb::bson::ser::Error) -> (err: CoreError) {
        CoreError::BsonSer(e)
    }
}

impl FromSpecImpl<mongodb::bson::ser::Error> for CoreError {
    open spec fn obeys_from_spec() -> bool {
        true
    }

    open spec fn from_spec(e: mongodb::bson::ser::Error) -> CoreError {
        CoreError::BsonSer(e)
    }
}

impl From<mongodb::bson::de::Error> for CoreError {
    fn from(e: mongodb::bson::de::Error) -> (err: CoreError) {
        CoreError::BsonDe(e)
    }
}

impl FromSpecImpl<mongodb::bson::de::Error> for CoreError {
    open spec fn obeys_from_spec() -> bool {
        true
    }

    open spec fn from_spec(e: mongodb::bson::de::Error) -> CoreError {
        CoreError::BsonDe(e)
    }
}

} // verus!
