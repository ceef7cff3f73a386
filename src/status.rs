use vstd::prelude::*;
use vstd::string::StringSliceAdditionalSpecFns;

verus! {

/// Indicates the current situation after the plugin has processed audio.
#[derive(Debug, Clone, Copy, Eq)]
pub enum ProcessStatus {
    /// Something went wrong while processing audio.
    Error(&'static str),
    /// The plugin has finished processing audio. When the input is silent, the host may suspend
    /// the plugin to save resources as it sees fit.
    Normal,
    /// The plugin has a (reverb) tail with a specific length in samples.
    Tail(u32),
    /// This plugin will continue to produce sound regardless of whether or not the input is
    /// silent, and should thus not be deactivated by the host. This is essentially the same as
    /// having an infinite tail.
    KeepAlive,
}

impl ProcessStatus {
    /// Two statuses are the same when they are the same variant with the same payload; error
    /// messages are compared by their UTF-8 bytes.
    pub open spec fn same_as(&self, other: &ProcessStatus) -> bool {
        match (*self, *other) {
            (ProcessStatus::Error(a), ProcessStatus::Error(b)) => a.spec_bytes() == b.spec_bytes(),
            (ProcessStatus::Normal, ProcessStatus::Normal) => true,
            (ProcessStatus::Tail(a), ProcessStatus::Tail(b)) => a == b,
            (ProcessStatus::KeepAlive, ProcessStatus::KeepAlive) => true,
            _ => false,
        }
    }

    /// Whether a host may suspend the plugin once its input has been silent for
    /// `silent_samples` samples: `None` after an error, where the choice is the host's own.
    pub open spec fn spec_may_suspend_after(&self, silent_samples: u64) -> Option<bool> {
        match *self {
            ProcessStatus::Error(_) => None,
            ProcessStatus::Normal => Some(true),
            ProcessStatus::Tail(n) => Some(silent_samples >= n),
            ProcessStatus::KeepAlive => Some(false),
        }
    }

    /// Whether a host may suspend the plugin after `silent_samples` samples of silent input,
    /// given the status of the last process call. After `Normal` it may do so at once, after
    /// `Tail(n)` once the `n` samples of the tail have been played out, and after `KeepAlive`
    /// never. After an `Error` no audio is promised and the decision is left to the host, which
    /// is `None`.
    pub fn may_suspend_after(&self, silent_samples: u64) -> (r: Option<bool>)
        ensures
            r == self.spec_may_suspend_after(silent_samples),
    {
        match *self {
            ProcessStatus::Error(_) => None,
            ProcessStatus::Normal => Some(true),
            ProcessStatus::Tail(n) => Some(silent_samples >= n as u64),
            ProcessStatus::KeepAlive => Some(false),
        }
    }
}

/// Whether two byte strings are equal.
fn bytes_equal(a: &[u8], b: &[u8]) -> (r: bool)
    ensures
        r == (a@ == b@),
{
    if a.len() != b.len() {
        return false;
    }
    let mut i: usize = 0;
    while i < a.len()
        invariant
            a@.len() == b@.len(),
            0 <= i <= a@.len(),
            forall|k: int| 0 <= k < i ==> a@[k] == b@[k],
        decreases a@.len() - i,
    {
        if a[i] != b[i] {
            return false;
        }
        i += 1;
    }
    assert(a@ =~= b@);
    true
}

impl PartialEq for ProcessStatus {
    fn eq(&self, other: &ProcessStatus) -> (r: bool) {
        match (*self, *other) {
            (ProcessStatus::Error(a), ProcessStatus::Error(b)) => bytes_equal(a.as_bytes(), b.as_bytes()),
            (ProcessStatus::Normal, ProcessStatus::Normal) => true,
            (ProcessStatus::Tail(a), ProcessStatus::Tail(b)) => a == b,
            (ProcessStatus::KeepAlive, ProcessStatus::KeepAlive) => true,
            _ => false,
        }
    }
}

impl vstd::std_specs::cmp::PartialEqSpecImpl for ProcessStatus {
    open spec fn obeys_eq_spec() -> bool {
        true
    }

    open spec fn eq_spec(&self, other: &ProcessStatus) -> bool {
        self.same_as(other)
    }
}

/// Statuses compare equal only to the same variant with the same payload: every status equals
/// itself, equality is symmetric, and statuses of different variants, tails of different
/// lengths or errors with different messages are never equal.
pub proof fn lemma_status_equality(a: ProcessStatus, b: ProcessStatus)
    ensures
        a.same_as(&a),
        a.same_as(&b) == b.same_as(&a),
        a.same_as(&b) ==> (a is Error <==> b is Error) && (a is Normal <==> b is Normal) && (
        a is Tail <==> b is Tail) && (a is KeepAlive <==> b is KeepAlive),
        a is Tail && b is Tail ==> (a.same_as(&b) <==> a->Tail_0 == b->Tail_0),
        a is Error && b is Error ==> (a.same_as(&b) <==> a->Error_0.spec_bytes()
            == b->Error_0.spec_bytes()),
{
}

} // verus!
