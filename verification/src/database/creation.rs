//! The two databases of the library.
use vstd::prelude::*;

verus! {

/// The database that keeps the chats and their messages, and the one that
/// keeps the documents retrieved as context.
#[derive(Debug, Clone, Copy, PartialEq, Eq, Structural)]
pub enum ODatabse {
    Ochat,
    Odoc,
}

/// The name under which each database is opened.
pub open spec fn db_name_spec(db: ODatabse) -> Seq<char> {
    match db {
        ODatabse::Ochat => "ochat"@,
        ODatabse::Odoc => "odoc"@,
    }
}

impl ODatabse {
    /// The name under which the database is opened: `ochat` or `odoc`.
    pub fn db_name(&self) -> (name: String)
        ensures
            name@ == db_name_spec(*self),
    {
        match self {
            ODatabse::Ochat => "ochat".to_owned(),
            ODatabse::Odoc => "odoc".to_owned(),
        }
    }
}

/// The namespace in which both databases live.
pub const NAMESPACE: &'static str = "o_base";

/// The directory, beside the executable, that holds the databases.
pub const DB_DIRECTORY: &'static str = "omamadb";

/// The schema file of the chat database.
pub const OCHAT_SCHEMA_FILE: &'static str = "ochat_schema.surql";

/// The schema file of the document database.
pub const ODOC_SCHEMA_FILE: &'static str = "odoc_schema.surql";

} // verus!
