use vstd::prelude::*;

verus! {

/// Where a planning call goes once the offload attempt is over.
#[derive(Debug, Clone, Copy, PartialEq, Eq)]
pub enum PlannerTarget<H> {
    /// The hook that was installed before ours.
    Chained(H),
    /// The host's standard planner.
    Standard,
}

/// The two-slot indirection around the host's planning hook: whether ours is
/// installed, and the hook that it displaced. Once installed it stays
/// installed for the life of the process.
pub struct HookChain<H> {
    hooked: bool,
    previous: Option<H>,
}

impl<H: Copy> HookChain<H> {
    /// Whether our hook has been installed.
    pub closed spec fn hooked(&self) -> bool {
        self.hooked
    }

    /// The hook that ours displaced, if any.
    pub closed spec fn previous(&self) -> Option<H> {
        self.previous
    }

    /// The chain before anything is installed.
    pub fn new() -> (r: Self)
        ensures
            !r.hooked(),
            r.previous() is None,
    {
        HookChain { hooked: false, previous: None }
    }

    /// Installs our hook in place of `current`, the hook the host has
    /// registered right now, and keeps `current` for chaining. A second
    /// install changes nothing and reports `false`.
    pub fn install(&mut self, current: Option<H>) -> (installed: bool)
        ensures
            installed == !old(self).hooked(),
            final(self).hooked(),
            installed ==> final(self).previous() == current,
            !installed ==> final(self).previous() == old(self).previous(),
    {
        if self.hooked {
            return false;
        }
        self.previous = current;
        self.hooked = true;
        true
    }

    /// Whether this hook is ours.
    pub fn is_installed(&self) -> (r: bool)
        ensures
            r == self.hooked(),
    {
        self.hooked
    }

    /// Where to pass a planning call on to: the displaced hook when there
    /// was one, the standard planner otherwise.
    pub fn target(&self) -> (r: PlannerTarget<H>)
        ensures
            r == (match self.previous() {
                Some(h) => PlannerTarget::Chained(h),
                None => PlannerTarget::Standard,
            }),
    {
        match self.previous {
            Some(h) => PlannerTarget::Chained(h),
            None => PlannerTarget::Standard,
        }
    }
}

} // verus!
