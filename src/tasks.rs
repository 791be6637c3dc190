use std::collections::VecDeque;
use vstd::prelude::*;

verus! {

/// A submission that the queue declined because the runtime is shutting
/// down; the task comes back to its sender unrun.
#[derive(Debug)]
pub struct Rejected<T> {
    pub task: T,
}

/// The tasks from `s` that `sender` submitted, in their order in `s`.
pub open spec fn from_sender<T>(s: Seq<(u64, T)>, sender: u64) -> Seq<(u64, T)> {
    s.filter(|x: (u64, T)| x.0 == sender)
}

/// The queue of the process-wide task channel. Host threads submit tasks,
/// each tagged with the identity of its sender; the runtime thread takes
/// them one at a time and runs them. Once shut down, it declines new tasks.
pub struct TaskQueue<T> {
    pending: VecDeque<(u64, T)>,
    open: bool,
    accepted: Ghost<Seq<(u64, T)>>,
    started: Ghost<Seq<(u64, T)>>,
}

impl<T> TaskQueue<T> {
    /// Tasks accepted and not yet taken, oldest first.
    pub closed spec fn pending(&self) -> Seq<(u64, T)> {
        self.pending@
    }

    /// Every task ever accepted, in the order of acceptance.
    pub closed spec fn accepted(&self) -> Seq<(u64, T)> {
        self.accepted@
    }

    /// Every task ever taken for running, in the order taken.
    pub closed spec fn started(&self) -> Seq<(u64, T)> {
        self.started@
    }

    pub closed spec fn is_open(&self) -> bool {
        self.open
    }

    pub closed spec fn wf(&self) -> bool {
        self.accepted@ == self.started@ + self.pending@
    }

    /// An open queue that has seen no task.
    pub fn new() -> (q: Self)
        ensures
            q.wf(),
            q.is_open(),
            q.pending() == Seq::<(u64, T)>::empty(),
            q.accepted() == Seq::<(u64, T)>::empty(),
            q.started() == Seq::<(u64, T)>::empty(),
    {
        TaskQueue {
            pending: VecDeque::new(),
            open: true,
            accepted: Ghost(Seq::empty()),
            started: Ghost(Seq::empty()),
        }
    }

    /// Enqueues `task` from `sender` behind every task accepted before it, or
    /// hands it back if the queue is shut down.
    pub fn submit(&mut self, sender: u64, task: T) -> (r: Result<(), Rejected<T>>)
        requires
            old(self).wf(),
        ensures
            final(self).wf(),
            final(self).is_open() == old(self).is_open(),
            final(self).started() == old(self).started(),
            old(self).is_open() ==> {
                &&& r is Ok
                &&& final(self).pending() == old(self).pending().push((sender, task))
                &&& final(self).accepted() == old(self).accepted().push((sender, task))
            },
            !old(self).is_open() ==> {
                &&& r == Err::<(), Rejected<T>>(Rejected { task })
                &&& final(self).pending() == old(self).pending()
                &&& final(self).accepted() == old(self).accepted()
            },
    {
        if !self.open {
            return Err(Rejected { task });
        }
        proof {
            self.accepted@ = self.accepted@.push((sender, task));
        }
        self.pending.push_back((sender, task));
        proof {
            assert(self.accepted@ =~= self.started@ + self.pending@);
        }
        Ok(())
    }

    /// Takes the oldest pending task for running, if there is one. A shut
    /// down queue still hands out what it accepted before.
    pub fn take(&mut self) -> (r: Option<(u64, T)>)
        requires
            old(self).wf(),
        ensures
            final(self).wf(),
            final(self).is_open() == old(self).is_open(),
            final(self).accepted() == old(self).accepted(),
            old(self).pending().len() == 0 ==> {
                &&& r is None
                &&& final(self).pending() == old(self).pending()
                &&& final(self).started() == old(self).started()
            },
            old(self).pending().len() > 0 ==> {
                &&& r == Some(old(self).pending()[0])
                &&& final(self).pending() == old(self).pending().drop_first()
                &&& final(self).started() == old(self).started().push(old(self).pending()[0])
            },
    {
        let r = self.pending.pop_front();
        proof {
            if r is Some {
                self.started@ = self.started@.push(r->Some_0);
                assert(self.accepted@ =~= self.started@ + self.pending@);
            }
        }
        r
    }

    /// Stops accepting tasks: the runtime has begun shutting down.
    pub fn shut_down(&mut self)
        requires
            old(self).wf(),
        ensures
            final(self).wf(),
            !final(self).is_open(),
            final(self).pending() == old(self).pending(),
            final(self).accepted() == old(self).accepted(),
            final(self).started() == old(self).started(),
    {
        self.open = false;
    }

    /// Whether the queue still accepts tasks.
    pub fn accepts(&self) -> (r: bool)
        ensures
            r == self.is_open(),
    {
        self.open
    }

    /// How many accepted tasks wait to be taken.
    pub fn len(&self) -> (r: usize)
        ensures
            r == self.pending().len(),
    {
        self.pending.len()
    }
}

/// Tasks are run in the order in which they were accepted: what was taken
/// so far is the start of what was accepted, and so, for each sender, the
/// tasks it submitted run in the order it submitted them.
pub proof fn lemma_sender_fifo<T>(q: &TaskQueue<T>, sender: u64)
    requires
        q.wf(),
    ensures
        q.started().is_prefix_of(q.accepted()),
        from_sender(q.started(), sender).is_prefix_of(from_sender(q.accepted(), sender)),
{
    let f = |x: (u64, T)| x.0 == sender;
    let a = q.started();
    let b = q.pending();
    assert(q.accepted() == a + b);
    assert(a =~= (a + b).subrange(0, a.len() as int));
    Seq::filter_distributes_over_add(a, b, f);
    let fa = a.filter(f);
    assert(fa =~= (fa + b.filter(f)).subrange(0, fa.len() as int));
}

} // verus!
