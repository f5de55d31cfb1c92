use vstd::prelude::*;

verus! {

/// Why a step of engine setup or of an offload attempt did not complete.
#[derive(Debug, Clone, Copy, PartialEq, Eq, Structural)]
pub enum ErrorCode {
    /// A configuration option was rejected while setting up the engine.
    DuckDBFailedConfig,
    /// The embedded engine instance could not be opened.
    DuckDBFailedOpen,
    /// A connection to the opened instance could not be made.
    DuckDBFailedConnect,
    /// The host could not regenerate SQL text for a sub-query.
    DeparseFailure,
    /// The host's CTE list does not agree with its own length.
    MalformedHostStructure,
    /// The engine could not compile a statement.
    PrepareError,
    /// The engine failed while running a prepared statement.
    ExecuteError,
}

impl ErrorCode {
    /// Errors raised while the engine is being set up; they are kept for the
    /// life of the process.
    pub open spec fn is_setup_spec(self) -> bool {
        self is DuckDBFailedConfig || self is DuckDBFailedOpen || self is DuckDBFailedConnect
    }

    /// Tells a setup failure from a per-statement one.
    pub fn is_setup(&self) -> (r: bool)
        ensures
            r == self.is_setup_spec(),
    {
        match self {
            ErrorCode::DuckDBFailedConfig | ErrorCode::DuckDBFailedOpen
            | ErrorCode::DuckDBFailedConnect => true,
            _ => false,
        }
    }
}

} // verus!
