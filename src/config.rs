use vstd::prelude::*;

verus! {

/// How the embedded engine may touch its database.
#[derive(Debug, Clone, Copy, PartialEq, Eq, Structural)]
pub enum AccessMode {
    /// Let the engine decide.
    Automatic,
    /// Reads only.
    ReadOnly,
    /// Reads and writes.
    ReadWrite,
}

/// The settings the engine is opened with. They are read once, when the
/// connection is first needed, and never change afterwards.
#[derive(Debug, Clone)]
pub struct EngineConfig {
    /// The tag the engine reports its caller by.
    pub user_agent: String,
    /// The memory ceiling, in the engine's own notation (such as `1GB`).
    pub max_memory: String,
    /// How the engine may touch its database.
    pub access_mode: AccessMode,
    /// Whether the engine caches objects such as file metadata.
    pub object_cache: bool,
    /// The database file to open; an in-memory instance when absent.
    pub database_path: Option<String>,
}

impl EngineConfig {
    /// The settings used when the host starts the engine: an in-memory
    /// instance with a one-gigabyte ceiling, tagged with the extension's name.
    pub fn new() -> (r: EngineConfig)
        ensures
            r.user_agent@ == "pg_plansplit"@,
            r.max_memory@ == "1GB"@,
            r.access_mode == AccessMode::Automatic,
            !r.object_cache,
            r.database_path is None,
    {
        EngineConfig {
            user_agent: "pg_plansplit".to_string(),
            max_memory: "1GB".to_string(),
            access_mode: AccessMode::Automatic,
            object_cache: false,
            database_path: None,
        }
    }

    /// Whether the engine is opened without a database file.
    pub fn in_memory(&self) -> (r: bool)
        ensures
            r == (self.database_path is None),
    {
        self.database_path.is_none()
    }
}

} // verus!
