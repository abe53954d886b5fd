//! The handle on the daemon's persisted state.
use vstd::prelude::*;

verus! {

/// Declares `anyhow::Error`, the error type of the database operations, so
/// that it can stand in signatures; nothing is claimed of its values.
#[verifier::external_type_specification]
#[verifier::external_body]
pub struct ExAnyhowError(anyhow::Error);

/// The database file the daemon keeps its records in.
#[derive(Clone)]
pub struct Database {
    path: String,
}

impl View for Database {
    type V = Seq<char>;

    /// The path of the database file.
    closed spec fn view(&self) -> Seq<char> {
        self.path@
    }
}

impl Database {
    /// Opens the database at `path`; this always succeeds.
    pub fn open(path: String) -> (r: Result<Database, anyhow::Error>)
        ensures
            r matches Ok(db) && db@ == path@,
    {
        Ok(Database { path })
    }

    /// Brings the schema up to date; there is nothing to migrate, so this
    /// always succeeds.
    pub fn migrate(&self) -> (r: Result<(), anyhow::Error>)
        ensures
            r is Ok,
    {
        Ok(())
    }

    /// Reconciles the recorded segments with the files under `data_dir`;
    /// nothing is recorded apart from the files, so this always succeeds.
    pub fn reconcile_storage(&self, data_dir: &str) -> (r: Result<(), anyhow::Error>)
        ensures
            r is Ok,
    {
        Ok(())
    }

    /// The path of the database file.
    pub fn path(&self) -> (r: &str)
        ensures
            r@ == self@,
    {
        self.path.as_str()
    }
}

} // verus!
