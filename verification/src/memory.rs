//! Byte-addressable expandable memory of one frame, bounded by a limit.
//!
//! Memory only ever grows within a frame; reads beyond the current size
//! yield zero bytes.

use vstd::prelude::*;

use crate::exit::ExitError;
use crate::types::copy_bytes;

verus! {

/// `s` padded with zero bytes up to length `n` (unchanged when already
/// at least that long).
pub open spec fn zero_extend(s: Seq<u8>, n: int) -> Seq<u8> {
    Seq::new(
        if s.len() >= n {
            s.len()
        } else {
            n as nat
        },
        |i: int|
            if i < s.len() {
                s[i]
            } else {
                0u8
            },
    )
}

/// `s` with `src` written at offset `at`; the length does not change and
/// writes are expected to fall inside `s`.
pub open spec fn write_bytes(s: Seq<u8>, at: int, src: Seq<u8>) -> Seq<u8> {
    Seq::new(
        s.len(),
        |i: int|
            if at <= i < at + src.len() {
                src[i - at]
            } else {
                s[i]
            },
    )
}

/// `len` bytes of `data` starting at `off`, zero-padded where the range
/// leaves `data`.
pub open spec fn read_padded(data: Seq<u8>, off: int, len: int) -> Seq<u8> {
    Seq::new(
        len as nat,
        |i: int|
            if off + i < data.len() {
                data[off + i]
            } else {
                0u8
            },
    )
}

/// EVM frame memory.
#[derive(Debug, PartialEq, Eq)]
pub struct Memory {
    /// The bytes; the logical size is exactly the length of this vector.
    pub data: Vec<u8>,
    /// Hard bound on the size.
    pub limit: usize,
}

impl View for Memory {
    type V = Seq<u8>;

    open spec fn view(&self) -> Seq<u8> {
        self.data@
    }
}

impl Clone for Memory {
    fn clone(&self) -> (r: Self)
        ensures
            r@ == self@,
            r.limit == self.limit,
    {
        Memory { data: copy_bytes(&self.data), limit: self.limit }
    }
}

impl Memory {
    /// The size never exceeds the limit.
    pub open spec fn wf(&self) -> bool {
        self@.len() <= self.limit
    }

    /// Fresh empty memory with the given limit.
    pub fn new(limit: usize) -> (r: Self)
        ensures
            r.wf(),
            r@ == Seq::<u8>::empty(),
            r.limit == limit,
    {
        Memory { data: Vec::new(), limit }
    }

    /// Current size in bytes.
    pub fn len(&self) -> (r: usize)
        ensures
            r == self@.len(),
    {
        self.data.len()
    }

    /// Grow the memory so that `[offset, offset + len)` is in range,
    /// filling new bytes with zero. A zero `len` still grows the memory
    /// up to `offset`; nothing happens when the range is already inside.
    /// Growth beyond the address space or the limit fails and changes
    /// nothing; memory never shrinks.
    pub fn resize_offset(&mut self, offset: usize, len: usize) -> (r: Result<(), ExitError>)
        requires
            old(self).wf(),
        ensures
            final(self).wf(),
            final(self).limit == old(self).limit,
            final(self)@.len() >= old(self)@.len(),
            match r {
                Ok(()) => offset + len <= old(self).limit && final(self)@ == zero_extend(
                    old(self)@,
                    offset + len,
                ),
                Err(e) => final(self)@ == old(self)@ && (if offset + len > usize::MAX {
                    e == ExitError::InvalidRange
                } else {
                    e == ExitError::MemoryLimitExceeded && offset + len > old(self).limit
                }),
            },
    {
        let end = match offset.checked_add(len) {
            Some(e) => e,
            None => {
                return Err(ExitError::InvalidRange);
            },
        };
        if end > self.limit {
            return Err(ExitError::MemoryLimitExceeded);
        }
        proof {
            assert(self@ =~= zero_extend(old(self)@, self@.len() as int));
        }
        while self.data.len() < end
            invariant
                end == offset + len,
                end <= self.limit,
                self.limit == old(self).limit,
                self@.len() >= old(self)@.len(),
                self@.len() <= end || self@.len() == old(self)@.len(),
                self@ == zero_extend(old(self)@, self@.len() as int),
            decreases end - self@.len(),
        {
            self.data.push(0u8);
            proof {
                assert(self@ =~= zero_extend(old(self)@, self@.len() as int));
            }
        }
        proof {
            assert(self@ =~= zero_extend(old(self)@, offset + len));
        }
        Ok(())
    }

    /// Read `len` bytes at `offset`; bytes beyond the current size read
    /// as zero.
    pub fn get(&self, offset: usize, len: usize) -> (r: Vec<u8>)
        ensures
            r@ == read_padded(self@, offset as int, len as int),
    {
        let mut v: Vec<u8> = Vec::new();
        let mut i: usize = 0;
        proof {
            assert(v@ =~= read_padded(self@, offset as int, 0));
        }
        while i < len
            invariant
                i <= len,
                v@ == read_padded(self@, offset as int, i as int),
            decreases len - i,
        {
            let b = match offset.checked_add(i) {
                Some(idx) => {
                    if idx < self.data.len() {
                        self.data[idx]
                    } else {
                        0u8
                    }
                },
                None => 0u8,
            };
            v.push(b);
            proof {
                assert(self.data.len() == self.data@.len());
                assert(v@ =~= read_padded(self@, offset as int, i + 1));
            }
            i = i + 1;
        }
        v
    }

    /// Copy `len` bytes of `data` starting at `data_offset` into memory at
    /// `memory_offset`, growing the memory as needed; source bytes beyond
    /// the end of `data` are taken as zero. Failure changes nothing.
    pub fn copy_large(
        &mut self,
        memory_offset: usize,
        data_offset: usize,
        len: usize,
        data: &[u8],
    ) -> (r: Result<(), ExitError>)
        requires
            old(self).wf(),
        ensures
            final(self).wf(),
            final(self).limit == old(self).limit,
            final(self)@.len() >= old(self)@.len(),
            match r {
                Ok(()) => memory_offset + len <= old(self).limit && final(self)@ == write_bytes(
                    zero_extend(old(self)@, memory_offset + len),
                    memory_offset as int,
                    read_padded(data@, data_offset as int, len as int),
                ),
                Err(e) => final(self)@ == old(self)@ && (if memory_offset + len > usize::MAX {
                    e == ExitError::InvalidRange
                } else {
                    e == ExitError::MemoryLimitExceeded && memory_offset + len > old(self).limit
                }),
            },
    {
        let ghost pre = self@;
        match self.resize_offset(memory_offset, len) {
            Ok(()) => (),
            Err(e) => {
                return Err(e);
            },
        }
        let ghost resized = self@;
        let mut i: usize = 0;
        proof {
            assert(self@ =~= write_bytes(
                resized,
                memory_offset as int,
                read_padded(data@, data_offset as int, 0),
            ));
        }
        while i < len
            invariant
                i <= len,
                memory_offset + len <= self.limit,
                self.limit == old(self).limit,
                resized == zero_extend(pre, memory_offset + len),
                resized.len() >= pre.len(),
                self@ == write_bytes(
                    resized,
                    memory_offset as int,
                    read_padded(data@, data_offset as int, i as int),
                ),
            decreases len - i,
        {
            let b = match data_offset.checked_add(i) {
                Some(idx) => {
                    if idx < data.len() {
                        data[idx]
                    } else {
                        0u8
                    }
                },
                None => 0u8,
            };
            self.data.set(memory_offset + i, b);
            proof {
                assert(data.len() == data@.len());
                assert(self@ =~= write_bytes(
                    resized,
                    memory_offset as int,
                    read_padded(data@, data_offset as int, i + 1),
                ));
            }
            i = i + 1;
        }
        Ok(())
    }
}

} // verus!
