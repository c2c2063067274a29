use vstd::prelude::*;

verus! {

/// A finite supply of random 32-bit draws, handed out in order.
///
/// The engine never draws a value itself: whoever owns the game fills this
/// source (from an entropy service, or with fixed values in a test) and the
/// engine consumes draws from the front.
pub struct RandomSource {
    values: Vec<u32>,
    pos: usize,
}

impl View for RandomSource {
    type V = Seq<u32>;

    /// The draws not yet consumed.
    closed spec fn view(&self) -> Seq<u32> {
        self.values@.subrange(self.pos as int, self.values@.len() as int)
    }
}

impl RandomSource {
    pub closed spec fn wf(&self) -> bool {
        self.pos <= self.values@.len()
    }

    /// A source that hands out `values` from first to last.
    pub fn new(values: Vec<u32>) -> (r: RandomSource)
        ensures
            r.wf(),
            r@ == values@,
    {
        let r = RandomSource { values, pos: 0 };
        assert(r@ =~= r.values@);
        r
    }

    /// How many draws remain.
    pub fn remaining(&self) -> (r: usize)
        requires
            self.wf(),
        ensures
            r == self@.len(),
    {
        self.values.len() - self.pos
    }

    /// The draw at offset `i` from the front, without consuming it.
    pub fn peek(&self, i: usize) -> (r: Option<u32>)
        requires
            self.wf(),
        ensures
            i < self@.len() ==> r == Some(self@[i as int]),
            i >= self@.len() ==> r is None,
    {
        if i < self.values.len() - self.pos {
            Some(self.values[self.pos + i])
        } else {
            None
        }
    }

    /// Consume the front draw.
    pub fn next_u32(&mut self) -> (r: Option<u32>)
        requires
            old(self).wf(),
        ensures
            final(self).wf(),
            old(self)@.len() > 0 ==> r == Some(old(self)@[0]) && final(self)@ == old(self)@.drop_first(),
            old(self)@.len() == 0 ==> r is None && final(self)@ == old(self)@,
    {
        if self.pos < self.values.len() {
            let v = self.values[self.pos];
            self.pos = self.pos + 1;
            assert(self@ =~= old(self)@.drop_first());
            Some(v)
        } else {
            None
        }
    }

    /// Consume the first `n` draws.
    pub fn skip(&mut self, n: usize)
        requires
            old(self).wf(),
            n <= old(self)@.len(),
        ensures
            final(self).wf(),
            final(self)@ == old(self)@.skip(n as int),
    {
        let len = self.values.len();
        assert(self@.len() == len - self.pos);
        self.pos = self.pos + n;
        assert(self@ =~= old(self)@.skip(n as int));
    }
}

} // verus!
