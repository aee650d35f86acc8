//! The queue between the writer of a streamed body and its reader: chunks go
//! in at the back as they are written and come out at the front, in order,
//! and no byte is lost on the way.

use std::collections::VecDeque;
use vstd::prelude::*;
use vstd::slice::slice_to_vec;

verus! {

/// A queue of the chunks of a body that is being written, and whether the
/// writer is still at work. No chunk in the queue is empty.
#[derive(Debug)]
pub struct WriteForBody {
    cached: VecDeque<Vec<u8>>,
    alive: bool,
}

/// What the reader of a body finds when it asks for more of it.
#[derive(Debug)]
pub enum Polled {
    /// The next bytes of the body.
    Ready(Vec<u8>),
    /// Nothing is waiting, and the writer is still at work: ask again later.
    Pending,
    /// Nothing is waiting, and the writer has finished: the body is complete.
    Ended,
}

/// The chunks of a queue, front first.
pub open spec fn chunks(cached: Seq<Vec<u8>>) -> Seq<Seq<u8>> {
    Seq::new(cached.len(), |i: int| cached[i]@)
}

/// No chunk is empty.
pub open spec fn all_filled(waiting: Seq<Seq<u8>>) -> bool {
    forall|i: int| 0 <= i < waiting.len() ==> (#[trigger] waiting[i]).len() > 0
}

/// The bytes that wait in a queue: its chunks one after the other.
pub open spec fn flattened(waiting: Seq<Seq<u8>>) -> Seq<u8>
    decreases waiting.len(),
{
    if waiting.len() == 0 {
        Seq::<u8>::empty()
    } else {
        waiting[0] + flattened(waiting.drop_first())
    }
}

/// What a read into a buffer of `capacity` bytes takes from a queue that is
/// not empty: the chunk at the front, or as much of it as the buffer holds.
pub open spec fn read_bytes(waiting: Seq<Seq<u8>>, capacity: int) -> Seq<u8> {
    if waiting[0].len() <= capacity {
        waiting[0]
    } else {
        waiting[0].subrange(0, capacity)
    }
}

/// What such a read leaves in the queue: the chunk at the front is gone where
/// it fitted, and otherwise what did not fit of it stays at the front.
pub open spec fn after_read(waiting: Seq<Seq<u8>>, capacity: int) -> Seq<Seq<u8>> {
    if waiting[0].len() <= capacity {
        waiting.drop_first()
    } else {
        seq![waiting[0].subrange(capacity, waiting[0].len() as int)] + waiting.drop_first()
    }
}

impl View for WriteForBody {
    type V = (Seq<Seq<u8>>, bool);

    /// The chunks that wait, front first, and whether the writer is at work.
    closed spec fn view(&self) -> (Seq<Seq<u8>>, bool) {
        (chunks(self.cached@), self.alive)
    }
}

impl WriteForBody {
    #[verifier::type_invariant]
    spec fn well_formed(&self) -> bool {
        all_filled(chunks(self.cached@))
    }

    /// An empty queue whose writer is at work.
    pub fn new() -> (r: Self)
        ensures
            r@ == (Seq::<Seq<u8>>::empty(), true),
    {
        let r = WriteForBody { cached: VecDeque::new(), alive: true };
        assert(chunks(r.cached@) =~= Seq::<Seq<u8>>::empty());
        r
    }

    /// Brings what holds of every queue into a proof: no chunk in it is empty.
    /// Does nothing when the program runs.
    pub fn chunks_are_filled(&self)
        ensures
            all_filled(self@.0),
    {
        proof {
            use_type_invariant(self);
        }
    }

    /// The number of chunks that wait.
    pub fn len(&self) -> (r: usize)
        ensures
            r == self@.0.len(),
    {
        self.cached.len()
    }

    /// Whether the writer is still at work.
    pub fn is_alive(&self) -> (r: bool)
        ensures
            r == self@.1,
    {
        self.alive
    }

    /// The writer has finished. The chunks that wait can still be read.
    pub fn close(&mut self)
        ensures
            final(self)@ == (old(self)@.0, false),
    {
        proof {
            use_type_invariant(&*self);
        }
        self.alive = false;
    }

    /// Puts the bytes of `d` at the back of the queue as one chunk, and reports
    /// how many bytes were taken: all of them. Nothing is queued for no bytes.
    pub fn write(&mut self, d: &[u8]) -> (len: usize)
        ensures
            len == d@.len(),
            final(self)@ == (if d@.len() == 0 {
                old(self)@
            } else {
                (old(self)@.0.push(d@), old(self)@.1)
            }),
            flattened(final(self)@.0) == flattened(old(self)@.0) + d@,
    {
        proof {
            use_type_invariant(&*self);
            lemma_flattened_push(self@.0, d@);
        }
        let len = d.len();
        if len == 0 {
            return len;
        }
        let chunk = slice_to_vec(d);
        let ghost before = self@.0;
        let mut cached: VecDeque<Vec<u8>> = VecDeque::new();
        std::mem::swap(&mut cached, &mut self.cached);
        cached.push_back(chunk);
        proof {
            assert(chunks(cached@) =~= before.push(d@));
        }
        self.cached = cached;
        len
    }

    /// Nothing is held back by the queue, so there is nothing to flush.
    pub fn flush(&mut self)
        ensures
            final(self)@ == old(self)@,
    {
    }

    /// Takes the chunk at the front of the queue. Chunks that wait are handed
    /// out even after the writer has finished; an empty queue is pending while
    /// the writer is at work and ended once it has finished.
    pub fn poll_next(&mut self) -> (r: Polled)
        ensures
            match r {
                Polled::Ready(chunk) => old(self)@.0.len() > 0 && chunk@ == old(self)@.0[0]
                    && chunk@.len() > 0 && final(self)@ == (
                    old(self)@.0.drop_first(),
                    old(self)@.1,
                ),
                Polled::Pending => old(self)@.0.len() == 0 && old(self)@.1 && final(self)@ == old(
                    self,
                )@,
                Polled::Ended => old(self)@.0.len() == 0 && !old(self)@.1 && final(self)@ == old(
                    self,
                )@,
            },
    {
        proof {
            use_type_invariant(&*self);
        }
        let ghost before = self@.0;
        let mut cached: VecDeque<Vec<u8>> = VecDeque::new();
        std::mem::swap(&mut cached, &mut self.cached);
        let r = match cached.pop_front() {
            Some(chunk) => {
                proof {
                    assert(chunks(cached@) =~= before.drop_first());
                    assert(chunk@ == before[0]);
                }
                Polled::Ready(chunk)
            },
            None => {
                proof {
                    assert(chunks(cached@) =~= before);
                }
                if self.alive {
                    Polled::Pending
                } else {
                    Polled::Ended
                }
            },
        };
        self.cached = cached;
        r
    }

    /// Reads from the queue into a buffer of `capacity` bytes. From a queue
    /// that is not empty it takes the chunk at the front, or as much of it as
    /// the buffer holds; what did not fit stays at the front for the next
    /// read. That is so whether or not the writer has finished. An empty
    /// queue is pending while the writer is at work and ended once it has
    /// finished; only then is the body complete.
    pub fn read(&mut self, capacity: usize) -> (r: Polled)
        ensures
            match r {
                Polled::Ready(bytes) => old(self)@.0.len() > 0 && bytes@ == read_bytes(
                    old(self)@.0,
                    capacity as int,
                ) && final(self)@ == (after_read(old(self)@.0, capacity as int), old(self)@.1)
                    && bytes@.len() <= capacity && (capacity > 0 ==> bytes@.len() > 0),
                Polled::Pending => old(self)@.0.len() == 0 && old(self)@.1 && final(self)@ == old(
                    self,
                )@,
                Polled::Ended => old(self)@.0.len() == 0 && !old(self)@.1 && final(self)@ == old(
                    self,
                )@,
            },
    {
        proof {
            use_type_invariant(&*self);
        }
        let ghost before = self@.0;
        let mut cached: VecDeque<Vec<u8>> = VecDeque::new();
        std::mem::swap(&mut cached, &mut self.cached);
        let r = match cached.pop_front() {
            Some(chunk) => {
                proof {
                    assert(chunks(cached@) =~= before.drop_first());
                    assert(chunk@ == before[0]);
                }
                if chunk.len() <= capacity {
                    Polled::Ready(chunk)
                } else {
                    let mut head = chunk;
                    let rest = head.split_off(capacity);
                    cached.push_front(rest);
                    proof {
                        assert(chunks(cached@) =~= after_read(before, capacity as int));
                    }
                    Polled::Ready(head)
                }
            },
            None => {
                proof {
                    assert(chunks(cached@) =~= before);
                }
                if self.alive {
                    Polled::Pending
                } else {
                    Polled::Ended
                }
            },
        };
        self.cached = cached;
        r
    }
}

/// The bytes of a queue with one more chunk at its back are the bytes of the
/// queue and then those of the chunk.
pub proof fn lemma_flattened_push(waiting: Seq<Seq<u8>>, chunk: Seq<u8>)
    ensures
        flattened(waiting.push(chunk)) == flattened(waiting) + chunk,
    decreases waiting.len(),
{
    let longer = waiting.push(chunk);
    if waiting.len() == 0 {
        assert(longer.drop_first() =~= Seq::<Seq<u8>>::empty());
        assert(flattened(longer.drop_first()) == Seq::<u8>::empty());
        assert(flattened(longer) =~= chunk);
    } else {
        assert(longer.drop_first() =~= waiting.drop_first().push(chunk));
        lemma_flattened_push(waiting.drop_first(), chunk);
        assert(flattened(longer) =~= flattened(waiting) + chunk);
    }
}

} // verus!
