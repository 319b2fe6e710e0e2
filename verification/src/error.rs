//! The error that a command ends with, and how it is shown.

use vstd::prelude::*;

verus! {

/// Why a command failed. The variants that come from a service carry the text
/// of that service's error: its `Debug` rendering for the database and the
/// migrations, its `Display` rendering for the others.
#[derive(Debug, PartialEq, Eq)]
pub enum Error {
    RequiredArgument(String),
    Join(String),
    Sqlx(String),
    Migrate(String),
    Serenity(String),
    StdIO(String),
    Lavalink(String),
}

/// The text shown for an error.
pub open spec fn error_text(e: Error) -> Seq<char> {
    match e {
        Error::RequiredArgument(why) => "Required Argument Error => "@ + why@,
        Error::Join(why) => "Error while joining voice channel => "@ + why@,
        Error::Sqlx(err) => "Sqlx Error => "@ + err@,
        Error::Migrate(err) => "Error while running migrations => "@ + err@,
        Error::Serenity(err) => "Serenity Error => "@ + err@,
        Error::StdIO(err) => "std::io Error => "@ + err@,
        Error::Lavalink(err) => "Lavalink Error => "@ + err@,
    }
}

/// Builds `prefix` followed by `rest`.
fn prefixed(prefix: &str, rest: &String) -> (s: String)
    ensures
        s@ == prefix@ + rest@,
{
    let mut s = String::from_str(prefix);
    s.append(rest.as_str());
    s
}

impl Error {
    /// The text shown for this error (what `Display` shows).
    pub fn message(&self) -> (s: String)
        ensures
            s@ == error_text(*self),
    {
        match self {
            Error::RequiredArgument(why) => prefixed("Required Argument Error => ", why),
            Error::Join(why) => prefixed("Error while joining voice channel => ", why),
            Error::Sqlx(err) => prefixed("Sqlx Error => ", err),
            Error::Migrate(err) => prefixed("Error while running migrations => ", err),
            Error::Serenity(err) => prefixed("Serenity Error => ", err),
            Error::StdIO(err) => prefixed("std::io Error => ", err),
            Error::Lavalink(err) => prefixed("Lavalink Error => ", err),
        }
    }
}

} // verus!
