//! A fixed-capacity buffer of the most recent values added: once full, adding
//! a new value evicts the oldest one. Values are viewed newest first, so
//! index 0 is always the value added last.

use vstd::prelude::*;

verus! {

/// Ring of at most `capacity` values; the backing store keeps them newest
/// first, so logical and physical indices coincide.
pub struct RingBuffer<T> {
    capacity: usize,
    data: Vec<T>,
}

impl<T> RingBuffer<T> {
    /// The values held, newest first.
    pub closed spec fn view(&self) -> Seq<T> {
        self.data@
    }

    /// The fixed capacity the buffer was created with.
    pub closed spec fn cap(&self) -> nat {
        self.capacity as nat
    }

    /// Well-formed: a positive capacity bounds the number of values held.
    pub closed spec fn wf(&self) -> bool {
        &&& self.capacity >= 1
        &&& self.data@.len() <= self.capacity
    }

    pub fn new(capacity: usize) -> (r: RingBuffer<T>)
        requires
            capacity >= 1,
        ensures
            r.wf(),
            r@ == Seq::<T>::empty(),
            r.cap() == capacity,
    {
        RingBuffer::<T> { capacity, data: Vec::with_capacity(capacity) }
    }

    /// Always succeeds; evicts the oldest value when full.
    pub fn add(&mut self, t: T)
        requires
            old(self).wf(),
        ensures
            final(self).wf(),
            final(self).cap() == old(self).cap(),
            final(self)@ == (if old(self)@.len() == old(self).cap() {
                seq![t] + old(self)@.drop_last()
            } else {
                seq![t] + old(self)@
            }),
    {
        if self.data.len() == self.capacity {
            self.data.pop();
        }
        self.data.insert(0, t);
    }

    /// Advance a physical index to the next slot of the ring.
    pub fn advance(&self, index: usize) -> (r: usize)
        requires
            self.wf(),
            index < usize::MAX,
        ensures
            r == (index + 1) % (self.cap() as int),
    {
        (index + 1) % self.capacity
    }

    pub fn get(&self, index: usize) -> (r: &T)
        requires
            self.wf(),
            index < self@.len(),
        ensures
            *r == self@[index as int],
    {
        &self.data[self.raw_index(index)]
    }

    pub fn get_mut(&mut self, index: usize) -> (r: &mut T)
        requires
            old(self).wf(),
            index < old(self)@.len(),
        ensures
            *r == old(self)@[index as int],
            final(self)@ == old(self)@.update(index as int, *final(r)),
            final(self).wf(),
            final(self).cap() == old(self).cap(),
    {
        let i = self.raw_index(index);
        &mut self.data[i]
    }

    /// Physical index of the value at logical `index`; the store is kept
    /// newest first, so the two coincide.
    pub fn raw_index(&self, index: usize) -> (r: usize)
        requires
            self.wf(),
            index < self@.len(),
        ensures
            r == index,
    {
        index
    }

    pub fn iter<'a>(&'a self) -> (it: RingBufferIter<'a, T>)
        requires
            self.wf(),
        ensures
            it.wf(),
            it.elements() == self@,
            it.pos() == 0,
    {
        RingBufferIter { buffer: self, index: 0 }
    }

    pub fn iter_mut(&mut self) -> (it: RingBufferIterMut)
        ensures
            *final(self) == *old(self),
            it.pos() == 0,
    {
        RingBufferIterMut { index: 0 }
    }

    pub fn count(&self) -> (r: usize)
        ensures
            r == self@.len(),
    {
        self.data.len()
    }

    pub fn empty(&self) -> (r: bool)
        ensures
            r == (self@.len() == 0),
    {
        self.data.len() == 0
    }

    /// Remove values from the newest end while `f` accepts them.
    pub fn drop_while<F: Fn(&T) -> bool>(&mut self, f: F)
        requires
            old(self).wf(),
            forall|t: &T| #[trigger] f.requires((t,)),
        ensures
            final(self).wf(),
            final(self).cap() == old(self).cap(),
            exists|k: int|
                {
                    &&& 0 <= k <= old(self)@.len()
                    &&& final(self)@ == old(self)@.skip(k)
                    &&& forall|i: int| 0 <= i < k ==> f.ensures((&old(self)@[i],), true)
                    &&& k < old(self)@.len() ==> f.ensures((&old(self)@[k],), false)
                },
    {
        let ghost orig = *self;
        let ghost mut dropped: int = 0;
        loop
            invariant_except_break
                self.wf(),
                self.cap() == orig.cap(),
                0 <= dropped <= orig@.len(),
                self@ == orig@.skip(dropped),
                forall|i: int| 0 <= i < dropped ==> f.ensures((&orig@[i],), true),
                forall|t: &T| #[trigger] f.requires((t,)),
            ensures
                self.wf(),
                self.cap() == orig.cap(),
                exists|k: int|
                    {
                        &&& 0 <= k <= orig@.len()
                        &&& self@ == orig@.skip(k)
                        &&& forall|i: int| 0 <= i < k ==> f.ensures((&orig@[i],), true)
                        &&& k < orig@.len() ==> f.ensures((&orig@[k],), false)
                    },
            decreases self@.len(),
        {
            if self.data.len() == 0 {
                break;
            }
            let keep_dropping = f(self.get(0));
            if !keep_dropping {
                break;
            }
            self.data.remove(0);
            proof {
                dropped = dropped + 1;
                assert(self@ =~= orig@.skip(dropped));
            }
        }
    }
}

/// Read cursor over a ring buffer, newest value first.
pub struct RingBufferIter<'a, T> {
    buffer: &'a RingBuffer<T>,
    index: usize,
}

impl<'a, T> RingBufferIter<'a, T> {
    /// The buffer being walked is well-formed.
    pub closed spec fn wf(&self) -> bool {
        self.buffer.wf()
    }

    /// The values being walked, newest first.
    pub closed spec fn elements(&self) -> Seq<T> {
        self.buffer@
    }

    /// How many values have been yielded so far.
    pub closed spec fn pos(&self) -> int {
        self.index as int
    }

    pub fn next(&mut self) -> (r: Option<&'a T>)
        requires
            old(self).wf(),
        ensures
            final(self).wf(),
            final(self).elements() == old(self).elements(),
            match r {
                Some(e) => {
                    &&& old(self).pos() < old(self).elements().len()
                    &&& *e == old(self).elements()[old(self).pos()]
                    &&& final(self).pos() == old(self).pos() + 1
                },
                None => {
                    &&& old(self).pos() >= old(self).elements().len()
                    &&& final(self).pos() == old(self).pos()
                },
            },
    {
        if self.index < self.buffer.count() {
            let e = self.buffer.get(self.index);
            self.index += 1;
            Some(e)
        } else {
            None
        }
    }
}

/// Write cursor over a ring buffer; the buffer is handed to each `next` call
/// so that the borrow it returns can end before the following call.
pub struct RingBufferIterMut {
    index: usize,
}

impl RingBufferIterMut {
    /// How many values have been yielded so far.
    pub closed spec fn pos(&self) -> int {
        self.index as int
    }

    pub fn next<'a, T>(&mut self, buffer: &'a mut RingBuffer<T>) -> (r: Option<&'a mut T>)
        requires
            old(buffer).wf(),
        ensures
            final(buffer).wf(),
            final(buffer).cap() == old(buffer).cap(),
            match r {
                Some(e) => {
                    &&& old(self).pos() < old(buffer)@.len()
                    &&& *e == old(buffer)@[old(self).pos()]
                    &&& final(buffer)@ == old(buffer)@.update(old(self).pos(), *final(e))
                    &&& final(self).pos() == old(self).pos() + 1
                },
                None => {
                    &&& old(self).pos() >= old(buffer)@.len()
                    &&& final(self).pos() == old(self).pos()
                    &&& final(buffer)@ == old(buffer)@
                },
            },
    {
        if self.index < buffer.count() {
            let i = self.index;
            self.index += 1;
            Some(buffer.get_mut(i))
        } else {
            None
        }
    }
}

} // verus!
