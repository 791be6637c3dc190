use vstd::prelude::*;

verus! {

/// Lifecycle of the one runtime instance of the process.
#[derive(Clone, Copy, Debug, PartialEq, Eq)]
pub enum Phase<H> {
    /// Nobody asked for the runtime yet.
    Uninitialized,
    /// The runtime thread was started; its task channel handle is not there yet.
    Starting,
    /// The handshake delivered the task channel handle, which is now published.
    Running(H),
    /// The runtime returned control: the published handle is dangling for good.
    Terminated,
}

/// What can happen to the bootstrapper.
#[derive(Clone, Copy, Debug, PartialEq, Eq)]
pub enum Event<H> {
    /// A host thread asks for the published task channel.
    EnsureStarted,
    /// The registration bridge sent a task channel handle over the rendezvous.
    Handshake(H),
    /// The native start function returned.
    Exited,
}

/// What the bootstrapper tells the host to do next.
#[derive(Clone, Copy, Debug, PartialEq, Eq)]
pub enum Decision<H> {
    /// Start the runtime thread, then wait for the handshake.
    Spawn,
    /// The runtime is being started by someone else: wait for the handshake.
    Wait,
    /// The runtime accepts tasks through this handle.
    Ready(H),
    /// The runtime has terminated; no handle will ever be usable again.
    Unusable,
    /// The handshake was accepted and its handle published.
    Published,
    /// A handshake that came when none was awaited; it is dropped.
    Ignored,
    /// The runtime returned control: report it as fatal.
    Fatal,
}

/// One transition of the bootstrap protocol.
pub open spec fn step<H>(p: Phase<H>, e: Event<H>) -> (Phase<H>, Decision<H>) {
    match e {
        Event::EnsureStarted => match p {
            Phase::Uninitialized => (Phase::Starting, Decision::Spawn),
            Phase::Starting => (Phase::Starting, Decision::Wait),
            Phase::Running(h) => (Phase::Running(h), Decision::Ready(h)),
            Phase::Terminated => (Phase::Terminated, Decision::Unusable),
        },
        Event::Handshake(h) => match p {
            Phase::Starting => (Phase::Running(h), Decision::Published),
            _ => (p, Decision::Ignored),
        },
        Event::Exited => (Phase::Terminated, Decision::Fatal),
    }
}

/// The phase reached, and the decisions taken, from a fresh process through
/// `events` in order.
pub open spec fn trace<H>(events: Seq<Event<H>>) -> (Phase<H>, Seq<Decision<H>>)
    decreases events.len(),
{
    if events.len() == 0 {
        (Phase::Uninitialized, Seq::empty())
    } else {
        let (p, ds) = trace(events.drop_last());
        let (q, d) = step(p, events.last());
        (q, ds.push(d))
    }
}

/// How many times `ds` says to start the runtime thread.
pub open spec fn spawns<H>(ds: Seq<Decision<H>>) -> nat
    decreases ds.len(),
{
    if ds.len() == 0 {
        0
    } else {
        spawns(ds.drop_last()) + if ds.last() is Spawn { 1nat } else { 0nat }
    }
}

/// Whether a handshake delivering `h` was accepted before position `i`.
pub open spec fn published_before<H>(events: Seq<Event<H>>, ds: Seq<Decision<H>>, h: H, i: int) -> bool {
    exists|k: int| 0 <= k < i && events[k] == Event::Handshake(h) && ds[k] is Published
}

/// Whether some host thread asked for the task channel before the runtime
/// ever returned.
pub open spec fn requested_while_live<H>(events: Seq<Event<H>>) -> bool {
    exists|i: int|
        0 <= i < events.len() && events[i] is EnsureStarted && forall|k: int| 0 <= k < i ==> !(events[k] is Exited)
}

spec fn trace_inv<H>(events: Seq<Event<H>>, p: Phase<H>, ds: Seq<Decision<H>>) -> bool {
    &&& ds.len() == events.len()
    &&& requested_while_live(events) ==> spawns(ds) == 1
    &&& (forall|k: int| 0 <= k < events.len() ==> events[k] is Handshake) ==> p is Uninitialized
    &&& spawns(ds) <= 1
    &&& p is Uninitialized ==> spawns(ds) == 0
    &&& (p is Uninitialized || p is Starting) ==> forall|i: int| 0 <= i < ds.len() ==> !(ds[i] is Ready)
    &&& p is Running ==> {
        &&& published_before(events, ds, p->Running_0, ds.len() as int)
        &&& forall|i: int| 0 <= i < ds.len() && ds[i] is Ready ==> ds[i] == Decision::Ready(p->Running_0)
    }
    &&& forall|i: int, j: int|
        0 <= i < ds.len() && 0 <= j < ds.len() && ds[i] is Ready && ds[j] is Ready ==> ds[i] == ds[j]
    &&& forall|i: int| 0 <= i < ds.len() && ds[i] is Ready ==> published_before(events, ds, ds[i]->Ready_0, i)
}

proof fn lemma_trace_inv<H>(events: Seq<Event<H>>)
    ensures
        trace_inv(events, trace(events).0, trace(events).1),
    decreases events.len(),
{
    if events.len() > 0 {
        let pre = events.drop_last();
        lemma_trace_inv(pre);
        let (p, ds) = trace(pre);
        let e = events.last();
        let (q, d) = step(p, e);
        let ds2 = ds.push(d);
        assert(trace(events) == (q, ds2));
        assert(ds2.drop_last() =~= ds);
        assert(pre.len() == ds.len());
        if forall|k: int| 0 <= k < events.len() ==> events[k] is Handshake {
            assert forall|k: int| 0 <= k < pre.len() implies pre[k] is Handshake by {
                assert(events[k] is Handshake);
            }
        }
        if requested_while_live(events) {
            if requested_while_live(pre) {
                assert(spawns(ds) == 1);
            } else {
                let i = choose|i: int|
                    0 <= i < events.len() && events[i] is EnsureStarted && forall|k: int|
                        0 <= k < i ==> !(events[k] is Exited);
                if i < pre.len() {
                    assert(pre[i] is EnsureStarted);
                    assert forall|k: int| 0 <= k < i implies !(pre[k] is Exited) by {
                        assert(events[k] == pre[k]);
                    }
                    assert(requested_while_live(pre));
                }
                assert forall|k: int| 0 <= k < pre.len() implies pre[k] is Handshake by {
                    assert(events[k] == pre[k]);
                    assert(!(events[k] is Exited));
                    if pre[k] is EnsureStarted {
                        assert forall|j: int| 0 <= j < k implies !(pre[j] is Exited) by {
                            assert(events[j] == pre[j]);
                        }
                        assert(requested_while_live(pre));
                    }
                }
                assert(p is Uninitialized);
            }
        }
        assert forall|h: H, i: int| 0 <= i <= ds.len() && published_before(pre, ds, h, i)
            implies published_before(events, ds2, h, i) by {
            let k = choose|k: int| 0 <= k < i && pre[k] == Event::Handshake(h) && ds[k] is Published;
            assert(events[k] == Event::Handshake(h) && ds2[k] is Published);
        }
        if let Event::Handshake(h) = e {
            if p is Starting {
                let k = ds.len() as int;
                assert(events[k] == Event::Handshake(h) && ds2[k] is Published);
                assert(published_before(events, ds2, h, ds2.len() as int));
            }
        }
        if q is Running {
            let h = q->Running_0;
            assert(published_before(events, ds2, h, ds2.len() as int)) by {
                if p == Phase::Running(h) {
                    assert(published_before(pre, ds, h, ds.len() as int));
                }
            }
            assert forall|i: int| 0 <= i < ds2.len() && ds2[i] is Ready implies ds2[i] == Decision::Ready(h) by {
                if i < ds.len() {
                    assert(ds2[i] == ds[i]);
                }
            }
        }
        assert forall|i: int, j: int|
            0 <= i < ds2.len() && 0 <= j < ds2.len() && ds2[i] is Ready && ds2[j] is Ready
            implies ds2[i] == ds2[j] by {
            if d is Ready {
                let h0 = d->Ready_0;
                assert(p == Phase::Running(h0));
            }
            if i < ds.len() {
                assert(ds2[i] == ds[i]);
            }
            if j < ds.len() {
                assert(ds2[j] == ds[j]);
            }
        }
        assert forall|i: int| 0 <= i < ds2.len() && ds2[i] is Ready
            implies published_before(events, ds2, ds2[i]->Ready_0, i) by {
            if i < ds.len() {
                assert(ds2[i] == ds[i]);
            } else {
                let h = ds2[i]->Ready_0;
                assert(p == Phase::Running(h));
            }
        }
    }
}

/// However the host threads and the runtime thread interleave, the runtime
/// thread is started at most once, and exactly once as soon as a host thread
/// asks for the task channel before the runtime returned; every caller that
/// is handed a task channel handle is handed the same one, and none is
/// handed out before a handshake delivered it.
pub proof fn lemma_single_start<H>(events: Seq<Event<H>>)
    ensures
        trace(events).1.len() == events.len(),
        spawns(trace(events).1) <= 1,
        requested_while_live(events) ==> spawns(trace(events).1) == 1,
        forall|i: int, j: int|
            0 <= i < events.len() && 0 <= j < events.len() && trace(events).1[i] is Ready
                && trace(events).1[j] is Ready ==> trace(events).1[i] == trace(events).1[j],
        forall|i: int|
            0 <= i < events.len() && trace(events).1[i] is Ready ==> published_before(
                events,
                trace(events).1,
                trace(events).1[i]->Ready_0,
                i,
            ),
{
    lemma_trace_inv(events);
}

/// The bootstrapper: decides, for each caller and each handshake, what the
/// host does next, so that the runtime is started once and its task channel
/// handle is published once.
pub struct Bootstrap<H> {
    phase: Phase<H>,
}

impl<H> View for Bootstrap<H> {
    type V = Phase<H>;

    closed spec fn view(&self) -> Phase<H> {
        self.phase
    }
}

impl<H: Copy> Bootstrap<H> {
    /// A process in which the runtime was not started yet.
    pub fn new() -> (b: Self)
        ensures
            b@ == Phase::<H>::Uninitialized,
    {
        Bootstrap { phase: Phase::Uninitialized }
    }

    /// A host thread asks for the task channel. The first one is told to
    /// start the runtime; while it starts, others are told to wait; once the
    /// handshake published a handle, everybody is handed that handle.
    pub fn ensure_started(&mut self) -> (d: Decision<H>)
        ensures
            (final(self)@, d) == step(old(self)@, Event::EnsureStarted),
    {
        match self.phase {
            Phase::Uninitialized => {
                self.phase = Phase::Starting;
                Decision::Spawn
            },
            Phase::Starting => Decision::Wait,
            Phase::Running(h) => Decision::Ready(h),
            Phase::Terminated => Decision::Unusable,
        }
    }

    /// The registration bridge delivered `h` over the rendezvous.
    pub fn handshake(&mut self, h: H) -> (d: Decision<H>)
        ensures
            (final(self)@, d) == step(old(self)@, Event::Handshake(h)),
    {
        match self.phase {
            Phase::Starting => {
                self.phase = Phase::Running(h);
                Decision::Published
            },
            _ => Decision::Ignored,
        }
    }

    /// The native start function returned control.
    pub fn exited(&mut self) -> (d: Decision<H>)
        ensures
            (final(self)@, d) == step(old(self)@, Event::<H>::Exited),
    {
        self.phase = Phase::Terminated;
        Decision::Fatal
    }

    /// The published handle, once the handshake is done.
    pub fn published(&self) -> (r: Option<H>)
        ensures
            r == match self@ {
                Phase::Running(h) => Some(h),
                _ => None,
            },
    {
        match self.phase {
            Phase::Running(h) => Some(h),
            _ => None,
        }
    }
}

} // verus!
