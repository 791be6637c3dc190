use vstd::prelude::*;

verus! {

/// The one-shot slot behind the registration bridge.
///
/// The native runtime may call its module-registration hook more than once;
/// only the first call gets the initializer out of the slot, every later one
/// gets `None` and must act as a harmless no-op.
pub struct ModuleInit<F> {
    init: Option<F>,
    runs: Ghost<nat>,
}

impl<F> ModuleInit<F> {
    /// The initializer still waiting to run, if any.
    pub closed spec fn pending(&self) -> Option<F> {
        self.init
    }

    /// How many registration calls were handed the initializer so far.
    pub closed spec fn runs(&self) -> nat {
        self.runs@
    }

    pub closed spec fn wf(&self) -> bool {
        &&& self.runs@ <= 1
        &&& self.init.is_some() <==> self.runs@ == 0
    }

    /// A slot armed with `f`.
    pub fn new(f: F) -> (s: Self)
        ensures
            s.wf(),
            s.pending() == Some(f),
            s.runs() == 0,
    {
        ModuleInit { init: Some(f), runs: Ghost(0) }
    }

    /// Whether the initializer is still waiting to run.
    pub fn is_armed(&self) -> (r: bool)
        requires
            self.wf(),
        ensures
            r == self.pending().is_some(),
            r == (self.runs() == 0),
    {
        self.init.is_some()
    }

    /// Called on every invocation of the registration hook: the first call
    /// takes the initializer out, later calls get `None`.
    pub fn enter(&mut self) -> (r: Option<F>)
        requires
            old(self).wf(),
        ensures
            final(self).wf(),
            r == old(self).pending(),
            final(self).pending().is_none(),
            final(self).runs() == if r.is_some() { old(self).runs() + 1 } else { old(self).runs() },
    {
        let r = self.init.take();
        if r.is_some() {
            self.runs = Ghost(self.runs@ + 1);
        }
        r
    }
}

/// Number of registration calls, out of `calls` in a row, that run the
/// initializer, starting from a slot that is armed or not.
pub open spec fn initializer_runs(armed: bool, calls: nat) -> nat
    decreases calls,
{
    if calls == 0 {
        0
    } else if armed {
        1 + initializer_runs(false, (calls - 1) as nat)
    } else {
        initializer_runs(false, (calls - 1) as nat)
    }
}

/// However many times the registration hook fires, the initializer runs at
/// most once: in every reachable state of a slot, and over any number of
/// consecutive calls to `enter`.
pub proof fn lemma_initializer_runs_at_most_once<F>(s: &ModuleInit<F>, calls: nat)
    requires
        s.wf(),
    ensures
        s.runs() <= 1,
        s.runs() + initializer_runs(s.pending().is_some(), calls) <= 1,
{
    lemma_disarmed_runs_nothing(calls);
    if calls > 0 {
        lemma_disarmed_runs_nothing((calls - 1) as nat);
    }
}

proof fn lemma_disarmed_runs_nothing(calls: nat)
    ensures
        initializer_runs(false, calls) == 0,
    decreases calls,
{
    if calls > 0 {
        lemma_disarmed_runs_nothing((calls - 1) as nat);
    }
}

} // verus!
