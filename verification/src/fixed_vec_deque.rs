//! A double-ended queue of fixed capacity over an array of `N` slots.
//!
//! The queue is modelled by the sequence of its elements from front to rear.
//! A push onto a full queue drops the element at the opposite end.

use vstd::prelude::*;
use vstd::std_specs::cmp::PartialEqSpec;

verus! {

/// The slot that lies `offset` places behind `start` on a ring of `n` slots.
spec fn ring_slot(start: int, offset: int, n: int) -> int {
    if start + offset < n {
        start + offset
    } else {
        start + offset - n
    }
}

/// How many places slot `k` lies behind `start` on a ring of `n` slots.
spec fn ring_offset(start: int, k: int, n: int) -> int {
    if k >= start {
        k - start
    } else {
        k + n - start
    }
}

/// The queue of capacity `cap` after `item` is pushed at the front of `s`:
/// a full queue first loses its rear element, and a queue without capacity
/// stays empty.
pub open spec fn pushed_front<T>(s: Seq<T>, item: T, cap: nat) -> Seq<T> {
    if cap == 0 {
        s
    } else if s.len() < cap {
        seq![item] + s
    } else {
        seq![item] + s.drop_last()
    }
}

/// The queue of capacity `cap` after `item` is pushed at the rear of `s`:
/// a full queue first loses its front element, and a queue without capacity
/// stays empty.
pub open spec fn pushed_back<T>(s: Seq<T>, item: T, cap: nat) -> Seq<T> {
    if cap == 0 {
        s
    } else if s.len() < cap {
        s.push(item)
    } else {
        s.drop_first().push(item)
    }
}

/// What is left of `s` after `count` elements were popped at the front.
pub open spec fn popped_front<T>(s: Seq<T>, count: nat) -> Seq<T>
    decreases count,
{
    if count == 0 {
        s
    } else {
        popped_front(s, (count - 1) as nat).drop_first()
    }
}

/// A push at one end of a queue.
pub enum Push<T> {
    Front(T),
    Back(T),
}

/// The queue of capacity `cap` after the pushes of `pushes` were made on `s`
/// one after the other.
pub open spec fn pushed_all<T>(s: Seq<T>, pushes: Seq<Push<T>>, cap: nat) -> Seq<T>
    decreases pushes.len(),
{
    if pushes.len() == 0 {
        s
    } else {
        let before = pushed_all(s, pushes.drop_last(), cap);
        match pushes.last() {
            Push::Front(item) => pushed_front(before, item, cap),
            Push::Back(item) => pushed_back(before, item, cap),
        }
    }
}

/// Whatever is pushed, and at whichever ends, a queue never holds more
/// elements than its capacity.
pub proof fn lemma_pushes_keep_capacity<T>(s: Seq<T>, pushes: Seq<Push<T>>, cap: nat)
    requires
        s.len() <= cap,
    ensures
        pushed_all(s, pushes, cap).len() <= cap,
    decreases pushes.len(),
{
    if pushes.len() > 0 {
        lemma_pushes_keep_capacity(s, pushes.drop_last(), cap);
    }
}

/// A push onto a full queue leaves it full and costs it exactly one element,
/// the one at the opposite end: behind the new front stand the old elements
/// but the last, before the new rear the old elements but the first.
pub proof fn lemma_push_on_full_drops_one<T>(s: Seq<T>, item: T, cap: nat)
    requires
        s.len() == cap,
        cap > 0,
    ensures
        pushed_front(s, item, cap).len() == cap,
        pushed_front(s, item, cap).first() == item,
        pushed_front(s, item, cap).drop_first() == s.drop_last(),
        pushed_back(s, item, cap).len() == cap,
        pushed_back(s, item, cap).last() == item,
        pushed_back(s, item, cap).drop_last() == s.drop_first(),
{
}

/// A pass over a queue hands out its elements in the order in which popping
/// at the front would: the element at place `k` is the front of what `k`
/// pops leave.
pub proof fn lemma_pass_follows_pops<T>(s: Seq<T>, k: nat)
    requires
        k < s.len(),
    ensures
        popped_front(s, k).len() == s.len() - k,
        popped_front(s, k).first() == s[k as int],
        popped_front(s, k) == s.skip(k as int),
    decreases k,
{
    if k > 0 {
        lemma_pass_follows_pops(s, (k - 1) as nat);
    }
}

/// A queue of at most `N` elements that never allocates.
#[derive(Debug)]
pub struct FixedVecDeque<T, const N: usize> {
    buffer: [Option<T>; N],
    front: usize,
    rear: usize,
    len: usize,
}

impl<T, const N: usize> View for FixedVecDeque<T, N> {
    type V = Seq<T>;

    /// The elements from front to rear.
    closed spec fn view(&self) -> Seq<T> {
        Seq::new(
            self.len as nat,
            |i: int| self.buffer@[ring_slot(self.front as int, i, N as int)].unwrap(),
        )
    }
}

impl<T, const N: usize> FixedVecDeque<T, N> where T: Copy {
    /// The representation invariant: the indices lie on the ring, `rear` is
    /// `len` places behind `front`, and exactly the slots between them are
    /// occupied.
    pub closed spec fn wf(&self) -> bool {
        &&& self.len <= N
        &&& N == 0 ==> self.front == 0 && self.rear == 0
        &&& N > 0 ==> self.front < N && self.rear < N
        &&& N > 0 ==> self.rear as int == ring_slot(self.front as int, self.len as int, N as int)
        &&& forall|k: int|
            0 <= k < N ==> (#[trigger] self.buffer@[k] is Some <==> ring_offset(
                self.front as int,
                k,
                N as int,
            ) < self.len)
    }

    /// A well-formed queue holds no more than `N` elements.
    pub proof fn lemma_len_within_capacity(&self)
        requires
            self.wf(),
        ensures
            self@.len() <= N,
    {
    }

    /// An empty queue.
    pub fn new() -> (deque: Self)
        ensures
            deque.wf(),
            deque@ == Seq::<T>::empty(),
    {
        FixedVecDeque { buffer: [None;N], front: 0, rear: 0, len: 0 }
    }

    /// Puts `item` in front of all others. A full queue drops its rear
    /// element to make room.
    pub fn push_front(&mut self, item: T)
        requires
            old(self).wf(),
        ensures
            final(self).wf(),
            final(self)@ == pushed_front(old(self)@, item, N as nat),
            final(self)@.len() <= N,
    {
        if N == 0 {
            return ;
        }
        if self.len == N {
            self.pop_back();
            assert(self@.len() == N - 1);
        }
        let front: usize = if self.front == 0 {
            N - 1
        } else {
            self.front - 1
        };
        self.buffer[front] = Some(item);
        self.front = front;
        self.len += 1;
    }

    /// Puts `item` behind all others. A full queue drops its front element
    /// to make room.
    pub fn push_back(&mut self, item: T)
        requires
            old(self).wf(),
        ensures
            final(self).wf(),
            final(self)@ == pushed_back(old(self)@, item, N as nat),
            final(self)@.len() <= N,
    {
        if N == 0 {
            return ;
        }
        if self.len == N {
            self.pop_front();
            assert(self@.len() == N - 1);
        }
        let rear: usize = self.rear;
        self.buffer[rear] = Some(item);
        self.rear = if rear + 1 == N {
            0
        } else {
            rear + 1
        };
        self.len += 1;
    }

    /// Takes the front element out, if there is one.
    pub fn pop_front(&mut self) -> (item: Option<T>)
        requires
            old(self).wf(),
        ensures
            final(self).wf(),
            old(self)@.len() == 0 ==> item is None && final(self)@ == old(self)@,
            old(self)@.len() > 0 ==> item == Some(old(self)@.first()) && final(self)@ == old(self)@.drop_first(),
    {
        if self.len == 0 {
            None
        } else {
            let front: usize = self.front;
            let item = self.buffer[front];
            self.buffer[front] = None;
            self.front = if front + 1 == N {
                0
            } else {
                front + 1
            };
            self.len -= 1;
            item
        }
    }

    /// Takes the rear element out, if there is one.
    pub fn pop_back(&mut self) -> (item: Option<T>)
        requires
            old(self).wf(),
        ensures
            final(self).wf(),
            old(self)@.len() == 0 ==> item is None && final(self)@ == old(self)@,
            old(self)@.len() > 0 ==> item == Some(old(self)@.last()) && final(self)@ == old(self)@.drop_last(),
    {
        if self.len == 0 {
            None
        } else {
            let rear: usize = if self.rear == 0 {
                N - 1
            } else {
                self.rear - 1
            };
            let item = self.buffer[rear];
            self.buffer[rear] = None;
            self.rear = rear;
            self.len -= 1;
            item
        }
    }

    /// Whether some element equals `item`. All `N` slots are scanned; the
    /// empty ones match nothing.
    pub fn contains(&self, item: &T) -> (found: bool) where T: PartialEq
        requires
            self.wf(),
        ensures
            T::obeys_eq_spec() ==> (found <==> exists|i: int|
                0 <= i < self@.len() && (#[trigger] self@[i]).eq_spec(item)),
    {
        let mut k: usize = 0;
        while k < N
            invariant
                self.wf(),
                k <= N,
                T::obeys_eq_spec() ==> forall|j: int|
                    0 <= j < k && #[trigger] self.buffer@[j] is Some ==> !self.buffer@[j].unwrap().eq_spec(
                        item,
                    ),
            decreases N - k,
        {
            match &self.buffer[k] {
                Some(slot) => {
                    if *slot == *item {
                        proof {
                            let i = ring_offset(self.front as int, k as int, N as int);
                            assert(self@[i] == *slot);
                        }
                        return true;
                    }
                },
                None => {},
            }
            k += 1;
        }
        proof {
            if T::obeys_eq_spec() {
                assert forall|i: int| 0 <= i < self@.len() implies !(#[trigger] self@[i]).eq_spec(
                    item,
                ) by {
                    let slot = ring_slot(self.front as int, i, N as int);
                    assert(ring_offset(self.front as int, slot, N as int) == i);
                    assert(self.buffer@[slot] is Some);
                }
            }
        }
        false
    }

    /// The front element, if there is one.
    pub fn front(&self) -> (item: Option<&T>)
        requires
            self.wf(),
        ensures
            self@.len() == 0 ==> item is None,
            self@.len() > 0 ==> item == Some(&self@.first()),
    {
        if N == 0 {
            None
        } else {
            self.buffer[self.front].as_ref()
        }
    }

    /// A pass over the elements from front to rear, starting at the front.
    pub fn iter(&self) -> (iter: FixedVecDequeIter<'_, T, N>)
        requires
            self.wf(),
        ensures
            iter.wf(),
            iter.items() == self@,
            iter.position() == 0,
    {
        FixedVecDequeIter { deque: self, index: 0 }
    }

    /// The number of elements.
    pub fn len(&self) -> (n: usize)
        requires
            self.wf(),
        ensures
            n == self@.len(),
            n <= N,
    {
        self.len
    }

    /// Whether the queue holds no element.
    pub fn is_empty(&self) -> (empty: bool)
        requires
            self.wf(),
        ensures
            empty <==> self@.len() == 0,
    {
        self.len == 0
    }
}

impl<T, const N: usize> Default for FixedVecDeque<T, N> where T: Copy {
    /// An empty queue.
    fn default() -> (deque: Self)
        ensures
            deque.wf(),
            deque@ == Seq::<T>::empty(),
    {
        Self::new()
    }
}

/// A pass over the elements of a [`FixedVecDeque`] from front to rear.
pub struct FixedVecDequeIter<'a, T, const N: usize> {
    deque: &'a FixedVecDeque<T, N>,
    index: usize,
}

impl<'a, T, const N: usize> FixedVecDequeIter<'a, T, N> where T: Copy {
    /// The pass is over a well-formed queue and has not run past its rear.
    pub closed spec fn wf(&self) -> bool {
        &&& self.deque.wf()
        &&& self.index <= self.deque.len
    }

    /// The elements of the queue that is passed over, from front to rear.
    pub closed spec fn items(&self) -> Seq<T> {
        self.deque@
    }

    /// How many elements the pass has handed out.
    pub closed spec fn position(&self) -> nat {
        self.index as nat
    }

    /// Hands out the next element, or `None` once the rear is passed.
    pub fn next(&mut self) -> (item: Option<&'a T>)
        requires
            old(self).wf(),
        ensures
            final(self).wf(),
            final(self).items() == old(self).items(),
            final(self).position() <= final(self).items().len(),
            old(self).position() < old(self).items().len() ==> item == Some(
                &old(self).items()[old(self).position() as int],
            ) && final(self).position() == old(self).position() + 1,
            old(self).position() >= old(self).items().len() ==> item is None && final(self).position() == old(self).position(),
    {
        if self.index < self.deque.len {
            let room: usize = N - self.deque.front;
            let slot: usize = if self.index < room {
                self.deque.front + self.index
            } else {
                self.index - room
            };
            let item = self.deque.buffer[slot].as_ref();
            self.index += 1;
            item
        } else {
            None
        }
    }
}

} // verus!
