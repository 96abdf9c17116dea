//! The worker's command queue: commands are admitted up to a fixed capacity,
//! started strictly in arrival order, at most one at a time, and each
//! completes exactly once.

use vstd::prelude::*;

verus! {

/// What the worker does with a finished command's result.
#[derive(PartialEq, Eq, Structural, Debug, Clone, Copy)]
pub enum ReplyAction {
    /// The caller still waits: send the result.
    Deliver,
    /// The caller is gone: drop the result and go on.
    Discard,
}

/// The command in flight as a sequence of zero or one items.
pub open spec fn flight_seq(f: Option<u64>) -> Seq<u64> {
    match f {
        Some(id) => seq![id],
        None => Seq::empty(),
    }
}

/// Command IDs in the states a command passes through: waiting, in flight, done.
pub struct CommandQueue {
    capacity: usize,
    pending: Vec<u64>,
    in_flight: Option<u64>,
    completed: Vec<u64>,
}

impl CommandQueue {
    /// A positive capacity that the waiting commands do not exceed.
    pub closed spec fn wf(self) -> bool {
        0 < self.capacity && self.pending@.len() <= self.capacity
    }

    pub closed spec fn capacity_spec(self) -> nat {
        self.capacity as nat
    }

    /// Admitted commands not yet started, oldest first.
    pub closed spec fn pending_spec(self) -> Seq<u64> {
        self.pending@
    }

    pub closed spec fn in_flight_spec(self) -> Option<u64> {
        self.in_flight
    }

    /// Finished commands in the order they finished.
    pub closed spec fn completed_spec(self) -> Seq<u64> {
        self.completed@
    }

    /// Every admitted command, in arrival order.
    pub open spec fn admitted(self) -> Seq<u64> {
        self.completed_spec() + flight_seq(self.in_flight_spec()) + self.pending_spec()
    }

    /// An empty queue that admits at most `capacity` waiting commands.
    pub fn new(capacity: usize) -> (q: CommandQueue)
        requires
            capacity > 0,
        ensures
            q.wf(),
            q.capacity_spec() == capacity,
            q.pending_spec() == Seq::<u64>::empty(),
            q.in_flight_spec() is None,
            q.completed_spec() == Seq::<u64>::empty(),
    {
        CommandQueue { capacity, pending: Vec::new(), in_flight: None, completed: Vec::new() }
    }

    /// Admits a command if there is room; a full queue refuses it and the
    /// caller waits until a command is started.
    pub fn try_enqueue(&mut self, id: u64) -> (accepted: bool)
        requires
            old(self).wf(),
        ensures
            final(self).wf(),
            accepted == (old(self).pending_spec().len() < old(self).capacity_spec()),
            accepted ==> final(self).pending_spec() == old(self).pending_spec().push(id),
            !accepted ==> final(self).pending_spec() == old(self).pending_spec(),
            final(self).in_flight_spec() == old(self).in_flight_spec(),
            final(self).completed_spec() == old(self).completed_spec(),
            final(self).capacity_spec() == old(self).capacity_spec(),
            final(self).pending_spec().len() <= final(self).capacity_spec(),
    {
        if self.pending.len() < self.capacity {
            self.pending.push(id);
            true
        } else {
            false
        }
    }

    /// Starts the oldest waiting command, unless one is already in flight or
    /// none waits.
    pub fn start_next(&mut self) -> (r: Option<u64>)
        requires
            old(self).wf(),
        ensures
            final(self).wf(),
            old(self).in_flight_spec() is Some || old(self).pending_spec().len() == 0 ==> {
                &&& r is None
                &&& final(self).pending_spec() == old(self).pending_spec()
                &&& final(self).in_flight_spec() == old(self).in_flight_spec()
            },
            old(self).in_flight_spec() is None && old(self).pending_spec().len() > 0 ==> {
                &&& r == Some(old(self).pending_spec()[0])
                &&& final(self).in_flight_spec() == r
                &&& final(self).pending_spec() == old(self).pending_spec().skip(1)
            },
            final(self).completed_spec() == old(self).completed_spec(),
            final(self).capacity_spec() == old(self).capacity_spec(),
            final(self).admitted() == old(self).admitted(),
    {
        if self.in_flight.is_some() || self.pending.len() == 0 {
            return None;
        }
        let id = self.pending.remove(0);
        self.in_flight = Some(id);
        proof {
            assert(self.pending@ =~= old(self).pending@.skip(1));
            assert(self.admitted() =~= old(self).admitted());
        }
        Some(id)
    }

    /// Finishes the command in flight, if any. Its result is delivered when
    /// the caller still waits and discarded otherwise; either way the queue
    /// goes on.
    pub fn finish(&mut self, reply_open: bool) -> (r: Option<(u64, ReplyAction)>)
        requires
            old(self).wf(),
        ensures
            final(self).wf(),
            old(self).in_flight_spec() is None ==> r is None && final(self).completed_spec()
                == old(self).completed_spec(),
            old(self).in_flight_spec() matches Some(id) ==> {
                &&& r == Some(
                    (id, if reply_open { ReplyAction::Deliver } else { ReplyAction::Discard }),
                )
                &&& final(self).completed_spec() == old(self).completed_spec().push(id)
            },
            final(self).in_flight_spec() is None,
            final(self).pending_spec() == old(self).pending_spec(),
            final(self).capacity_spec() == old(self).capacity_spec(),
            final(self).admitted() == old(self).admitted(),
    {
        match self.in_flight {
            None => {
                proof {
                    assert(self.admitted() =~= old(self).admitted());
                }
                None
            },
            Some(id) => {
                self.in_flight = None;
                self.completed.push(id);
                proof {
                    assert(self.admitted() =~= old(self).admitted());
                }
                let action = if reply_open {
                    ReplyAction::Deliver
                } else {
                    ReplyAction::Discard
                };
                Some((id, action))
            },
        }
    }

    /// Whether a command is in flight.
    pub fn is_busy(&self) -> (r: bool)
        ensures
            r == self.in_flight_spec() is Some,
    {
        self.in_flight.is_some()
    }

    /// The number of waiting commands.
    pub fn pending_len(&self) -> (r: usize)
        ensures
            r == self.pending_spec().len(),
    {
        self.pending.len()
    }

    /// The finished commands, in the order they finished.
    pub fn completed_ids(&self) -> (r: Vec<u64>)
        ensures
            r@ == self.completed_spec(),
    {
        self.completed.clone()
    }
}

} // verus!
