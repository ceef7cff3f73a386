use vstd::prelude::*;

verus! {

/// Where a plugin stands in its lifecycle, as the wrapper that drives it sees it.
/// Destruction is not a state: the wrapper may drop the plugin in any of them.
#[derive(Debug, Clone, Copy, PartialEq, Eq, Structural)]
pub enum LifecycleState {
    /// Created, but no configuration has been accepted yet.
    Unconfigured,
    /// `initialize` succeeded for the current bus and buffer configuration.
    Configured,
    /// At least one `process` call has run since the last successful `initialize`.
    Processing,
}

impl LifecycleState {
    /// The state after `initialize` returned `initialized`.
    pub open spec fn spec_after_initialize(self, initialized: bool) -> LifecycleState {
        if initialized {
            LifecycleState::Configured
        } else {
            LifecycleState::Unconfigured
        }
    }

    /// Whether the wrapper may call `process` in this state.
    pub open spec fn spec_may_process(self) -> bool {
        !(self is Unconfigured)
    }

    /// The state after a call of `initialize` that returned `initialized`. `initialize` may
    /// come in any state; a plugin that failed to initialize must not be processed until a
    /// later call succeeds.
    pub fn after_initialize(self, initialized: bool) -> (r: LifecycleState)
        ensures
            r == self.spec_after_initialize(initialized),
    {
        if initialized {
            LifecycleState::Configured
        } else {
            LifecycleState::Unconfigured
        }
    }

    /// Whether the wrapper may call `process` in this state: only after a successful
    /// `initialize`.
    pub fn may_process(self) -> (r: bool)
        ensures
            r == self.spec_may_process(),
    {
        match self {
            LifecycleState::Unconfigured => false,
            _ => true,
        }
    }

    /// The state after a `process` call, whatever status it reported: reporting an error, a
    /// tail or keep-alive does not change the state.
    pub fn after_process(self) -> (r: LifecycleState)
        requires
            self.spec_may_process(),
        ensures
            r == LifecycleState::Processing,
    {
        LifecycleState::Processing
    }
}

/// Initializing is idempotent: a second `initialize` with the same outcome as the first leaves
/// the same state, from whatever state the first one came.
pub proof fn lemma_initialize_idempotent(state: LifecycleState, initialized: bool)
    ensures
        state.spec_after_initialize(initialized).spec_after_initialize(initialized)
            == state.spec_after_initialize(initialized),
{
}

} // verus!
