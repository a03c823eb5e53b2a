//! The cpufreq backend that control acts through, and the record of the
//! calls made to it.

use crate::contracts::CpufreqPolicyState;
use crate::error::LabResult;
use vstd::prelude::*;

verus! {

/// Reads and writes the cpufreq governor of every policy of a target.
/// Implementations report failures as errors; nothing is assumed of what
/// they return.  Each operation comes with a relation between the arguments
/// it was handed and the outcome it gave; by default it holds of every
/// outcome, and an implementation may narrow it.  Contracts of generic
/// callers use these relations to say which values they handed to the
/// backend and what follows from each outcome it gave.
pub trait CpufreqBackend {
    /// `r` is an outcome of reading the policies.
    closed spec fn capture_gives(&self, r: LabResult<Vec<CpufreqPolicyState>>) -> bool {
        true
    }

    /// `r` is an outcome of setting `governor` on every policy.
    closed spec fn apply_gives(&self, governor: Seq<char>, r: LabResult<()>) -> bool {
        true
    }

    /// `r` is an outcome of checking that every policy runs `governor`.
    closed spec fn verify_gives(&self, governor: Seq<char>, r: LabResult<bool>) -> bool {
        true
    }

    /// `r` is an outcome of writing `states` back.
    closed spec fn restore_gives(&self, states: Seq<CpufreqPolicyState>, r: LabResult<()>) -> bool {
        true
    }

    fn capture(&self) -> (r: LabResult<Vec<CpufreqPolicyState>>)
        ensures
            self.capture_gives(r),
    ;

    fn apply_governor(&self, governor: &str) -> (r: LabResult<()>)
        ensures
            self.apply_gives(governor@, r),
    ;

    fn verify_governor(&self, governor: &str) -> (r: LabResult<bool>)
        ensures
            self.verify_gives(governor@, r),
    ;

    fn restore(&self, states: &[CpufreqPolicyState]) -> (r: LabResult<()>)
        ensures
            self.restore_gives(states@, r),
    ;
}

/// A call made to a backend, with what it was handed.
pub enum BackendCall {
    Capture,
    ApplyGovernor(Seq<char>),
    VerifyGovernor(Seq<char>),
    Restore(Seq<CpufreqPolicyState>),
}

/// A backend together with the record of the calls made through it, in
/// order.  Control reaches its backend only through this record, so the
/// contracts of control can say which calls a request made.
pub struct RecordedBackend<'a, B: CpufreqBackend> {
    backend: &'a B,
    calls: Ghost<Seq<BackendCall>>,
}

impl<'a, B: CpufreqBackend> RecordedBackend<'a, B> {
    /// The backend the calls go to.
    pub closed spec fn backend(&self) -> B {
        *self.backend
    }

    /// The calls made so far, in order.
    pub closed spec fn calls(&self) -> Seq<BackendCall> {
        self.calls@
    }

    /// A record of no calls yet over `backend`.
    pub fn new(backend: &'a B) -> (r: Self)
        ensures
            r.backend() == *backend,
            r.calls() == Seq::<BackendCall>::empty(),
    {
        RecordedBackend { backend, calls: Ghost(Seq::empty()) }
    }

    /// Reads the policies.
    pub fn capture(&mut self) -> (r: LabResult<Vec<CpufreqPolicyState>>)
        ensures
            final(self).backend() == old(self).backend(),
            final(self).calls() == old(self).calls().push(BackendCall::Capture),
            old(self).backend().capture_gives(r),
    {
        let r = self.backend.capture();
        self.calls = Ghost(self.calls@.push(BackendCall::Capture));
        r
    }

    /// Sets `governor` on every policy.
    pub fn apply_governor(&mut self, governor: &str) -> (r: LabResult<()>)
        ensures
            final(self).backend() == old(self).backend(),
            final(self).calls() == old(self).calls().push(BackendCall::ApplyGovernor(governor@)),
            old(self).backend().apply_gives(governor@, r),
    {
        let r = self.backend.apply_governor(governor);
        self.calls = Ghost(self.calls@.push(BackendCall::ApplyGovernor(governor@)));
        r
    }

    /// Checks that every policy runs `governor`.
    pub fn verify_governor(&mut self, governor: &str) -> (r: LabResult<bool>)
        ensures
            final(self).backend() == old(self).backend(),
            final(self).calls() == old(self).calls().push(BackendCall::VerifyGovernor(governor@)),
            old(self).backend().verify_gives(governor@, r),
    {
        let r = self.backend.verify_governor(governor);
        self.calls = Ghost(self.calls@.push(BackendCall::VerifyGovernor(governor@)));
        r
    }

    /// Writes `states` back.
    pub fn restore(&mut self, states: &[CpufreqPolicyState]) -> (r: LabResult<()>)
        ensures
            final(self).backend() == old(self).backend(),
            final(self).calls() == old(self).calls().push(BackendCall::Restore(states@)),
            old(self).backend().restore_gives(states@, r),
    {
        let r = self.backend.restore(states);
        self.calls = Ghost(self.calls@.push(BackendCall::Restore(states@)));
        r
    }
}

} // verus!
