//! The response bridge: a first-in-first-out queue of display messages
//! from the worker side back to the control loop.

use vstd::prelude::*;

verus! {

/// A unidirectional FIFO bridge carrying formatted display text, created
/// once per session and never closed. Its view is the sequence of pending
/// messages, oldest first. The single-in-flight guard keeps at most one
/// message pending in practice, but the bridge does not assume that: it is
/// correct for any number of enqueued messages.
pub struct Bridge {
    queue: Vec<String>,
}

impl View for Bridge {
    type V = Seq<Seq<char>>;

    closed spec fn view(&self) -> Seq<Seq<char>> {
        self.queue.deep_view()
    }
}

impl Bridge {
    /// A bridge with no pending message.
    pub fn new() -> (b: Bridge)
        ensures
            b@ == Seq::<Seq<char>>::empty(),
    {
        let b = Bridge { queue: Vec::new() };
        proof {
            assert(b@ =~= Seq::<Seq<char>>::empty());
        }
        b
    }

    /// The producer side: enqueue one message behind those already
    /// pending.
    pub fn send(&mut self, message: String)
        ensures
            final(self)@ == old(self)@.push(message@),
    {
        let ghost prev = self@;
        let ghost m = message@;
        self.queue.push(message);
        proof {
            assert(self@ =~= prev.push(m));
        }
    }

    /// The consumer side: dequeue the oldest pending message, if any.
    pub fn recv(&mut self) -> (r: Option<String>)
        ensures
            old(self)@.len() == 0 ==> r is None && final(self)@ == old(self)@,
            old(self)@.len() > 0 ==> (r matches Some(m) && m@ == old(self)@[0] && final(self)@
                == old(self)@.drop_first()),
    {
        if self.queue.len() == 0 {
            None
        } else {
            let ghost prev = self@;
            let m = self.queue.remove(0);
            proof {
                assert(self@ =~= prev.drop_first());
            }
            Some(m)
        }
    }

    /// How many messages are pending.
    pub fn len(&self) -> (n: usize)
        ensures
            n == self@.len(),
    {
        self.queue.len()
    }
}

} // verus!
