use vstd::prelude::*;

verus! {

/// The buffers of the reads and writes in flight, each owned here under the token of
/// its request from the moment the request is prepared until its completion is
/// observed, so that memory the kernel reads or writes cannot be freed or moved
/// meanwhile.
pub struct PendingBuffers {
    slots: Vec<Option<Vec<u8>>>,
}

impl View for PendingBuffers {
    /// The buffer held under each token in flight.
    type V = Map<usize, Seq<u8>>;

    closed spec fn view(&self) -> Map<usize, Seq<u8>> {
        Map::new(
            |t: usize| t < self.slots@.len() && self.slots@[t as int] is Some,
            |t: usize| self.slots@[t as int]->Some_0@,
        )
    }
}

impl PendingBuffers {
    /// No buffer held.
    pub fn new() -> (r: PendingBuffers)
        ensures
            r@ == Map::<usize, Seq<u8>>::empty(),
    {
        let r = PendingBuffers { slots: Vec::new() };
        assert(r@ =~= Map::<usize, Seq<u8>>::empty());
        r
    }

    /// Whether a buffer is held under `token`.
    pub fn holds(&self, token: usize) -> (r: bool)
        ensures
            r == self@.contains_key(token),
    {
        token < self.slots.len() && self.slots[token].is_some()
    }

    /// Takes ownership of `buf` under a token that no buffer in flight has, and returns
    /// that token.
    pub fn lend(&mut self, buf: Vec<u8>) -> (t: usize)
        ensures
            !old(self)@.contains_key(t),
            final(self)@ == old(self)@.insert(t, buf@),
    {
        let ghost before = self@;
        let mut i: usize = 0;
        while i < self.slots.len()
            invariant
                before == old(self)@,
                self@ == before,
                i <= self.slots@.len(),
                forall|j: int| 0 <= j < i ==> self.slots@[j] is Some,
            decreases self.slots@.len() - i,
        {
            if self.slots[i].is_none() {
                let ghost b = buf@;
                self.slots.set(i, Some(buf));
                assert(self@ =~= before.insert(i, b));
                return i;
            }
            i = i + 1;
        }
        let ghost b = buf@;
        let t = self.slots.len();
        self.slots.push(Some(buf));
        assert(self@ =~= before.insert(t, b));
        t
    }

    /// The buffer held under `token`, if any.
    pub fn buffer(&self, token: usize) -> (r: Option<&Vec<u8>>)
        ensures
            r is None <==> !self@.contains_key(token),
            r matches Some(b) ==> b@ == self@[token],
    {
        if token < self.slots.len() {
            match &self.slots[token] {
                Some(b) => Some(b),
                None => None,
            }
        } else {
            None
        }
    }

    /// The buffer held under `token`, lent out to be filled in place.
    pub fn buffer_mut(&mut self, token: usize) -> (r: Option<&mut Vec<u8>>)
        ensures
            r is None <==> !old(self)@.contains_key(token),
            match r {
                None => final(self)@ == old(self)@,
                Some(b) => b@ == old(self)@[token] && final(self)@ == old(self)@.insert(token, final(b)@),
            },
    {
        if token < self.slots.len() {
            match &mut self.slots[token] {
                Some(b) => Some(b),
                None => None,
            }
        } else {
            None
        }
    }

    /// Gives back the buffer held under `token`, once its completion has been observed;
    /// `None` when no buffer is held under it.
    pub fn release(&mut self, token: usize) -> (r: Option<Vec<u8>>)
        ensures
            r is None <==> !old(self)@.contains_key(token),
            r matches Some(b) ==> b@ == old(self)@[token],
            final(self)@ == old(self)@.remove(token),
    {
        if token < self.slots.len() {
            let ghost before = self@;
            let mut taken: Option<Vec<u8>> = None;
            std::mem::swap(&mut taken, &mut self.slots[token]);
            assert(self@ =~= before.remove(token));
            taken
        } else {
            assert(self@ =~= self@.remove(token));
            None
        }
    }
}

} // verus!
