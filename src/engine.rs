use vstd::prelude::*;

use crate::error::ErrorCode;

verus! {

/// Where the process-wide engine connection stands.
pub enum EngineState<C> {
    /// Nobody has asked for the connection yet.
    Uninit,
    /// The connection was opened and is ready to serve statements.
    Ready(C),
    /// Setting the engine up failed; the failure is kept for good.
    Failed(ErrorCode),
}

/// The state that one initialization attempt leaves behind.
pub open spec fn settled<C>(outcome: Result<C, ErrorCode>) -> EngineState<C> {
    match outcome {
        Ok(conn) => EngineState::Ready(conn),
        Err(e) => EngineState::Failed(e),
    }
}

/// A lazily opened connection to the embedded engine, opened at most once.
///
/// The slot itself is not synchronized: a process shares it behind a lock,
/// so that concurrent first callers run one initialization between them.
pub struct EngineSlot<C> {
    state: EngineState<C>,
    opens: Ghost<nat>,
}

impl<C> EngineSlot<C> {
    /// The current state of the slot.
    pub closed spec fn state(&self) -> EngineState<C> {
        self.state
    }

    /// How many initialization sequences have run on this slot.
    pub closed spec fn opens(&self) -> nat {
        self.opens@
    }

    /// One initialization has run exactly when the slot is settled.
    pub closed spec fn wf(&self) -> bool {
        self.opens@ == (if self.state is Uninit { 0nat } else { 1nat })
    }

    /// A slot that has not opened anything yet.
    pub fn new() -> (r: Self)
        ensures
            r.wf(),
            r.state() is Uninit,
            r.opens() == 0,
    {
        EngineSlot { state: EngineState::Uninit, opens: Ghost(0) }
    }

    /// Whether the next access still has to open the engine.
    pub fn needs_init(&self) -> (r: bool)
        ensures
            r == (self.state() is Uninit),
    {
        match self.state {
            EngineState::Uninit => true,
            _ => false,
        }
    }

    /// Returns the connection, running `open` first when the slot is still
    /// empty. `open` runs at most once over the life of the slot: a success
    /// is handed out on every later call, and a failure is reported again on
    /// every later call without another attempt.
    pub fn instance<F: FnOnce() -> Result<C, ErrorCode>>(&mut self, open: F) -> (r: Result<
        &C,
        ErrorCode,
    >)
        requires
            old(self).wf(),
            old(self).state() is Uninit ==> open.requires(()),
        ensures
            final(self).wf(),
            final(self).opens() == 1,
            !(final(self).state() is Uninit),
            !(old(self).state() is Uninit) ==> final(self).state() == old(self).state(),
            old(self).state() is Uninit ==> exists|out: Result<C, ErrorCode>|
                open.ensures((), out) && final(self).state() == settled(out),
            r matches Ok(conn) ==> final(self).state() == EngineState::Ready(*conn),
            r matches Err(e) ==> final(self).state() == EngineState::<C>::Failed(e),
    {
        if self.needs_init() {
            let out = open();
            let ghost witness = out;
            self.state = match out {
                Ok(conn) => EngineState::Ready(conn),
                Err(e) => EngineState::Failed(e),
            };
            self.opens = Ghost(1);
            assert(open.ensures((), witness) && self.state == settled(witness));
        }
        match &self.state {
            EngineState::Ready(conn) => Ok(conn),
            EngineState::Failed(e) => Err(*e),
            EngineState::Uninit => Err(ErrorCode::DuckDBFailedOpen),
        }
    }

    /// Releases the slot, handing back the open connection, if any, so that
    /// the caller can close it. Consuming the slot makes a second shutdown
    /// impossible.
    pub fn shutdown(self) -> (r: Option<C>)
        ensures
            self.state() matches EngineState::Ready(conn) ==> r == Some(conn),
            !(self.state() is Ready) ==> r is None,
    {
        match self.state {
            EngineState::Ready(conn) => Some(conn),
            _ => None,
        }
    }
}

} // verus!
