//! The word stack of one frame: at most `limit` words of 32 bytes.

use vstd::prelude::*;

use crate::exit::ExitError;
use crate::types::H256;

verus! {

/// EVM word stack. The newest word is the last element.
#[derive(Debug, PartialEq, Eq)]
pub struct Stack {
    /// The words, oldest first.
    pub data: Vec<H256>,
    /// Hard bound on the number of words.
    pub limit: usize,
}

impl View for Stack {
    type V = Seq<Seq<u8>>;

    open spec fn view(&self) -> Seq<Seq<u8>> {
        self.data@.map_values(|h: H256| h@)
    }
}

impl Clone for Stack {
    fn clone(&self) -> (r: Self)
        ensures
            r@ == self@,
            r.limit == self.limit,
    {
        let mut v: Vec<H256> = Vec::new();
        let mut i: usize = 0;
        while i < self.data.len()
            invariant
                i <= self.data@.len(),
                v@.len() == i,
                forall|j: int| 0 <= j < i ==> (#[trigger] v@[j])@ == self.data@[j]@,
            decreases self.data@.len() - i,
        {
            v.push(self.data[i].clone());
            i = i + 1;
        }
        let r = Stack { data: v, limit: self.limit };
        proof {
            assert(r@ =~= self@);
        }
        r
    }
}

impl Stack {
    /// The stack respects its limit and every word is exactly 32 bytes.
    pub open spec fn wf(&self) -> bool {
        &&& self@.len() <= self.limit
        &&& forall|i: int| 0 <= i < self@.len() ==> (#[trigger] self@[i]).len() == 32
    }

    /// An empty stack with the given limit.
    pub fn new(limit: usize) -> (r: Self)
        ensures
            r.wf(),
            r@ == Seq::<Seq<u8>>::empty(),
            r.limit == limit,
    {
        let r = Stack { data: Vec::new(), limit };
        proof {
            assert(r@ =~= Seq::<Seq<u8>>::empty());
        }
        r
    }

    /// Number of words on the stack.
    pub fn len(&self) -> (r: usize)
        ensures
            r == self@.len(),
    {
        self.data.len()
    }

    /// Push a word; a push that would breach the limit fails with
    /// `StackOverflow` and leaves the stack unchanged.
    pub fn push(&mut self, value: H256) -> (r: Result<(), ExitError>)
        requires
            old(self).wf(),
            value.wf(),
        ensures
            final(self).wf(),
            final(self).limit == old(self).limit,
            match r {
                Ok(()) => old(self)@.len() < old(self).limit && final(self)@ == old(self)@.push(
                    value@,
                ),
                Err(e) => e == ExitError::StackOverflow && old(self)@.len() >= old(self).limit
                    && final(self)@ == old(self)@,
            },
    {
        if self.data.len() >= self.limit {
            return Err(ExitError::StackOverflow);
        }
        self.data.push(value);
        proof {
            assert(self@ =~= old(self)@.push(value@));
        }
        Ok(())
    }

    /// Pop the newest word; an empty stack fails with `StackUnderflow`.
    pub fn pop(&mut self) -> (r: Result<H256, ExitError>)
        requires
            old(self).wf(),
        ensures
            final(self).wf(),
            final(self).limit == old(self).limit,
            match r {
                Ok(v) => old(self)@.len() > 0 && v.wf() && v@ == old(self)@.last() && final(self)@
                    == old(self)@.drop_last(),
                Err(e) => e == ExitError::StackUnderflow && old(self)@.len() == 0 && final(self)@
                    == old(self)@,
            },
    {
        match self.data.pop() {
            Some(v) => {
                proof {
                    assert(self.data@ == old(self).data@.subrange(
                        0,
                        old(self).data@.len() - 1,
                    ));
                    assert(self@ =~= old(self)@.drop_last());
                    assert(v == old(self).data@[old(self).data@.len() - 1]);
                    assert(old(self)@[old(self)@.len() - 1] == old(self).data@[old(
                        self,
                    ).data@.len() - 1]@);
                    assert(v@ == old(self)@.last());
                    assert(v@.len() == 32);
                }
                Ok(v)
            },
            None => Err(ExitError::StackUnderflow),
        }
    }

    /// Read the word `no_from_top` places below the top without popping it.
    pub fn peek(&self, no_from_top: usize) -> (r: Result<H256, ExitError>)
        requires
            self.wf(),
        ensures
            match r {
                Ok(v) => no_from_top < self@.len() && v.wf() && v@ == self@[self@.len() - 1
                    - no_from_top],
                Err(e) => e == ExitError::StackUnderflow && no_from_top >= self@.len(),
            },
    {
        if no_from_top < self.data.len() {
            let idx = self.data.len() - 1 - no_from_top;
            let v = self.data[idx].clone();
            proof {
                assert(self@[idx as int] == self.data@[idx as int]@);
            }
            Ok(v)
        } else {
            Err(ExitError::StackUnderflow)
        }
    }
}

} // verus!
