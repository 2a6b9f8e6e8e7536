use vstd::prelude::*;

verus! {

/// The sequence `s` after `x` has been appended to a window of at most `capacity` items:
/// once the window is full, the oldest item leaves.
pub open spec fn bounded_push<T>(s: Seq<T>, x: T, capacity: nat) -> Seq<T> {
    if s.len() < capacity {
        s.push(x)
    } else {
        s.drop_first().push(x)
    }
}

/// A fixed-capacity, insertion-ordered window of samples that evicts its oldest item first.
#[derive(Debug, Clone)]
pub struct RingBuffer<T> {
    buf: Vec<T>,
    start: usize,
    capacity: usize,
}

impl<T> View for RingBuffer<T> {
    type V = Seq<T>;

    /// The items from oldest to newest.
    closed spec fn view(&self) -> Seq<T> {
        self.buf@.subrange(self.start as int, self.buf.len() as int) + self.buf@.subrange(
            0,
            self.start as int,
        )
    }
}

impl<T: Copy> RingBuffer<T> {
    pub closed spec fn inv(&self) -> bool {
        &&& 1 <= self.capacity
        &&& self.buf.len() <= self.capacity
        &&& self.start < self.capacity
        &&& (self.buf.len() < self.capacity ==> self.start == 0)
    }

    /// The number of items the window holds at most.
    pub closed spec fn capacity_spec(&self) -> nat {
        self.capacity as nat
    }

    pub open spec fn wf(&self) -> bool {
        &&& self.inv()
        &&& 1 <= self.capacity_spec()
        &&& self@.len() <= self.capacity_spec()
    }

    /// An empty window of `capacity` items.
    pub fn new(capacity: usize) -> (r: Self)
        requires
            1 <= capacity,
        ensures
            r.wf(),
            r@ == Seq::<T>::empty(),
            r.capacity_spec() == capacity,
    {
        let r = RingBuffer { buf: Vec::new(), start: 0, capacity };
        assert(r@ =~= Seq::<T>::empty());
        r
    }

    pub fn capacity(&self) -> (r: usize)
        requires
            self.wf(),
        ensures
            r == self.capacity_spec(),
    {
        self.capacity
    }

    pub fn len(&self) -> (r: usize)
        requires
            self.wf(),
        ensures
            r == self@.len(),
    {
        self.buf.len()
    }

    /// The `i`-th item, counting from the oldest.
    pub fn get(&self, i: usize) -> (r: T)
        requires
            self.wf(),
            i < self@.len(),
        ensures
            r == self@[i as int],
    {
        let n = self.buf.len();
        let tail = n - self.start;
        if i < tail {
            self.buf[self.start + i]
        } else {
            self.buf[i - tail]
        }
    }

    /// The newest item, if any.
    pub fn last(&self) -> (r: Option<T>)
        requires
            self.wf(),
        ensures
            r == (if self@.len() == 0 {
                None::<T>
            } else {
                Some(self@.last())
            }),
    {
        let n = self.buf.len();
        if n == 0 {
            None
        } else {
            Some(self.get(n - 1))
        }
    }

    /// Appends `x`; when the window was full, the oldest item leaves and is returned.
    pub fn push(&mut self, x: T) -> (evicted: Option<T>)
        requires
            old(self).wf(),
        ensures
            final(self).wf(),
            final(self).capacity_spec() == old(self).capacity_spec(),
            final(self)@ == bounded_push(old(self)@, x, old(self).capacity_spec()),
            evicted == (if old(self)@.len() < old(self).capacity_spec() {
                None::<T>
            } else {
                Some(old(self)@[0])
            }),
    {
        if self.buf.len() < self.capacity {
            self.buf.push(x);
            assert(self@ =~= old(self)@.push(x));
            None
        } else {
            let s = self.start;
            let oldest = self.buf[s];
            self.buf.set(s, x);
            self.start = if s + 1 == self.capacity {
                0
            } else {
                s + 1
            };
            assert(self@ =~= old(self)@.drop_first().push(x));
            Some(oldest)
        }
    }
}

} // verus!
