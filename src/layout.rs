use vstd::prelude::*;

verus! {

/// The application's data directory, under the user's home.
pub const DATA_DIR: &'static str = ".therese";

/// Under the data directory: the diagnostic log.
pub const LOG_DIR: &'static str = "logs";

/// The file in the log directory that the supervisor appends to.
pub const LOG_FILE: &'static str = "sidecar.log";

/// Under the data directory: the cache of the backend's models.
pub const MODELS_DIR: &'static str = "models";

/// Under the data directory: the backend's temporary files and staging
/// directories.
pub const RUNTIME_DIR: &'static str = "runtime";

/// Under the data directory: the backend's vector database.
pub const DATABASE_DIR: &'static str = "qdrant";

/// The database's lock file, which a crashed backend leaves behind.
pub const DATABASE_LOCK: &'static str = ".lock";

} // verus!
