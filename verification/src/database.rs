//! Database initialization: decides, before the first launch, whether the
//! schema has to be brought up and how.

use vstd::prelude::*;

verus! {

/// What is done about the database before the server is started.
#[derive(Clone, Copy, Debug, PartialEq, Eq)]
pub enum DatabaseInit {
    /// The database is there: nothing is done.
    AlreadyInitialized,
    /// Run the migrations with the backend directory and the interpreter
    /// at these positions of their search lists.
    Migrate { backend_dir: usize, interpreter: usize },
    /// The backend's sources are there but no interpreter is: the server
    /// creates the database on first use.
    LeaveForFirstUse,
    /// No backend sources are there, as in a packaged application: create
    /// an empty database file, which the bundled server fills.
    CreateEmptyFile,
}

/// What is done about the database, given whether it exists, which backend
/// directory was found and which interpreter.
pub open spec fn database_init_of(
    database_exists: bool,
    backend_dir: Option<usize>,
    interpreter: Option<usize>,
) -> DatabaseInit {
    if database_exists {
        DatabaseInit::AlreadyInitialized
    } else {
        match backend_dir {
            Some(dir) => match interpreter {
                Some(found) => DatabaseInit::Migrate { backend_dir: dir, interpreter: found },
                None => DatabaseInit::LeaveForFirstUse,
            },
            None => DatabaseInit::CreateEmptyFile,
        }
    }
}

/// Decides what is done about the database before the server is started.
/// None of the outcomes stops the startup.
pub fn plan_database_init(
    database_exists: bool,
    backend_dir: Option<usize>,
    interpreter: Option<usize>,
) -> (r: DatabaseInit)
    ensures
        r == database_init_of(database_exists, backend_dir, interpreter),
        database_exists ==> r == DatabaseInit::AlreadyInitialized,
        r is Migrate ==> !database_exists && backend_dir == Some(r->backend_dir) && interpreter
            == Some(r->interpreter),
{
    if database_exists {
        return DatabaseInit::AlreadyInitialized;
    }
    match backend_dir {
        Some(dir) => match interpreter {
            Some(found) => DatabaseInit::Migrate { backend_dir: dir, interpreter: found },
            None => DatabaseInit::LeaveForFirstUse,
        },
        None => DatabaseInit::CreateEmptyFile,
    }
}

} // verus!
