//! Fixed-width big-endian byte values: 160-bit addresses and 256-bit words.

use vstd::prelude::*;

verus! {

/// All bytes of the sequence are zero.
pub open spec fn all_zero(s: Seq<u8>) -> bool {
    forall|i: int| 0 <= i < s.len() ==> s[i] == 0
}

/// The first 24 bytes of a 32-byte big-endian word are zero, so the value
/// fits in 64 bits.
pub open spec fn fits_u64(s: Seq<u8>) -> bool {
    forall|i: int| 0 <= i < 24 ==> s[i] == 0
}

/// An address left-padded with 12 zero bytes to a 32-byte word.
pub open spec fn word_of_address(a: Seq<u8>) -> Seq<u8> {
    Seq::new(
        32,
        |i: int|
            if i < 12 {
                0u8
            } else {
                a[i - 12]
            },
    )
}

/// The low 64 bits of a 32-byte big-endian word, as a number.
pub open spec fn lo_u64(s: Seq<u8>) -> nat {
    (s[24] as nat) * 0x100000000000000 + (s[25] as nat) * 0x1000000000000
        + (s[26] as nat) * 0x10000000000 + (s[27] as nat) * 0x100000000
        + (s[28] as nat) * 0x1000000 + (s[29] as nat) * 0x10000 + (s[30] as nat) * 0x100
        + (s[31] as nat)
}

/// A fresh byte vector of the given length, all zero.
pub fn zero_bytes(n: usize) -> (r: Vec<u8>)
    ensures
        r@.len() == n,
        all_zero(r@),
{
    let mut v: Vec<u8> = Vec::new();
    let mut i: usize = 0;
    while i < n
        invariant
            i <= n,
            v@.len() == i,
            all_zero(v@),
        decreases n - i,
    {
        v.push(0u8);
        i = i + 1;
    }
    v
}

/// An exact copy of a byte vector.
pub fn copy_bytes(src: &Vec<u8>) -> (r: Vec<u8>)
    ensures
        r@ == src@,
{
    let mut v: Vec<u8> = Vec::new();
    let mut i: usize = 0;
    while i < src.len()
        invariant
            i <= src@.len(),
            v@ == src@.subrange(0, i as int),
        decreases src@.len() - i,
    {
        v.push(src[i]);
        proof {
            assert(v@ =~= src@.subrange(0, i + 1));
        }
        i = i + 1;
    }
    proof {
        assert(v@ =~= src@);
    }
    v
}

/// A 160-bit account address, stored as 20 big-endian bytes.
#[derive(Debug, PartialEq, Eq)]
pub struct H160 {
    pub bytes: Vec<u8>,
}

impl View for H160 {
    type V = Seq<u8>;

    open spec fn view(&self) -> Seq<u8> {
        self.bytes@
    }
}

impl Clone for H160 {
    fn clone(&self) -> (r: Self)
        ensures
            r@ == self@,
    {
        H160 { bytes: copy_bytes(&self.bytes) }
    }
}

impl H160 {
    /// The address is exactly 20 bytes.
    pub open spec fn wf(&self) -> bool {
        self.bytes@.len() == 20
    }

    /// The all-zero address.
    pub fn zero() -> (r: Self)
        ensures
            r.wf(),
            all_zero(r@),
    {
        H160 { bytes: zero_bytes(20) }
    }

    /// An address out of exactly 20 bytes.
    pub fn from_bytes(bytes: Vec<u8>) -> (r: Self)
        requires
            bytes@.len() == 20,
        ensures
            r.wf(),
            r@ == bytes@,
    {
        H160 { bytes }
    }

    /// The address held in the low 20 bytes of a 256-bit word.
    pub fn from_h256(h: &H256) -> (r: Self)
        requires
            h.wf(),
        ensures
            r.wf(),
            r@ == h@.subrange(12, 32),
    {
        let mut v: Vec<u8> = Vec::new();
        let mut i: usize = 12;
        while i < 32
            invariant
                12 <= i <= 32,
                h.wf(),
                v@ == h@.subrange(12, i as int),
            decreases 32 - i,
        {
            v.push(h.bytes[i]);
            proof {
                assert(v@ =~= h@.subrange(12, i + 1));
            }
            i = i + 1;
        }
        H160 { bytes: v }
    }
}

/// A 256-bit hash or stack word, stored as 32 big-endian bytes.
#[derive(Debug, PartialEq, Eq)]
pub struct H256 {
    pub bytes: Vec<u8>,
}

impl View for H256 {
    type V = Seq<u8>;

    open spec fn view(&self) -> Seq<u8> {
        self.bytes@
    }
}

impl Clone for H256 {
    fn clone(&self) -> (r: Self)
        ensures
            r@ == self@,
    {
        H256 { bytes: copy_bytes(&self.bytes) }
    }
}

impl H256 {
    /// The word is exactly 32 bytes.
    pub open spec fn wf(&self) -> bool {
        self.bytes@.len() == 32
    }

    /// The all-zero word.
    pub fn zero() -> (r: Self)
        ensures
            r.wf(),
            all_zero(r@),
    {
        H256 { bytes: zero_bytes(32) }
    }

    /// A word out of exactly 32 bytes.
    pub fn from_bytes(bytes: Vec<u8>) -> (r: Self)
        requires
            bytes@.len() == 32,
        ensures
            r.wf(),
            r@ == bytes@,
    {
        H256 { bytes }
    }

    /// Whether every byte of the word is zero.
    pub fn is_zero(&self) -> (r: bool)
        ensures
            r == all_zero(self@),
    {
        let mut i: usize = 0;
        while i < self.bytes.len()
            invariant
                i <= self.bytes@.len(),
                forall|j: int| 0 <= j < i ==> self@[j] == 0,
            decreases self.bytes@.len() - i,
        {
            if self.bytes[i] != 0 {
                return false;
            }
            i = i + 1;
        }
        true
    }

    /// An address left-padded with 12 zero bytes to a 32-byte word.
    pub fn from_h160(a: &H160) -> (r: Self)
        requires
            a.wf(),
        ensures
            r.wf(),
            r@ == word_of_address(a@),
    {
        let mut v = zero_bytes(12);
        let mut i: usize = 0;
        while i < 20
            invariant
                i <= 20,
                a.wf(),
                v@.len() == 12 + i,
                forall|j: int| 0 <= j < 12 ==> v@[j] == 0,
                forall|j: int| 12 <= j < 12 + i ==> v@[j] == a@[j - 12],
            decreases 20 - i,
        {
            v.push(a.bytes[i]);
            i = i + 1;
        }
        let r = H256 { bytes: v };
        proof {
            assert(r@ =~= word_of_address(a@));
        }
        r
    }
}

/// A 256-bit unsigned number, stored as 32 big-endian bytes.
#[derive(Debug, PartialEq, Eq)]
pub struct U256 {
    pub bytes: Vec<u8>,
}

impl View for U256 {
    type V = Seq<u8>;

    open spec fn view(&self) -> Seq<u8> {
        self.bytes@
    }
}

impl Clone for U256 {
    fn clone(&self) -> (r: Self)
        ensures
            r@ == self@,
    {
        U256 { bytes: copy_bytes(&self.bytes) }
    }
}

impl U256 {
    /// The number is exactly 32 bytes.
    pub open spec fn wf(&self) -> bool {
        self.bytes@.len() == 32
    }

    /// Zero.
    pub fn zero() -> (r: Self)
        ensures
            r.wf(),
            all_zero(r@),
    {
        U256 { bytes: zero_bytes(32) }
    }

    /// One.
    pub fn one() -> (r: Self)
        ensures
            r.wf(),
            fits_u64(r@),
            lo_u64(r@) == 1,
            r@ == Seq::<u8>::new(31, |i: int| 0u8).push(1u8),
    {
        let mut v = zero_bytes(31);
        v.push(1u8);
        let r = U256 { bytes: v };
        proof {
            assert(r@ =~= Seq::<u8>::new(31, |i: int| 0u8).push(1u8));
        }
        r
    }

    /// A number out of exactly 32 bytes.
    pub fn from_bytes(bytes: Vec<u8>) -> (r: Self)
        requires
            bytes@.len() == 32,
        ensures
            r.wf(),
            r@ == bytes@,
    {
        U256 { bytes }
    }

    /// The number whose value is the given 64-bit integer.
    pub fn from_u64(x: u64) -> (r: Self)
        ensures
            r.wf(),
            fits_u64(r@),
            lo_u64(r@) == x,
    {
        let b0: u8 = (x >> 56) as u8;
        let b1: u8 = (x >> 48) as u8;
        let b2: u8 = (x >> 40) as u8;
        let b3: u8 = (x >> 32) as u8;
        let b4: u8 = (x >> 24) as u8;
        let b5: u8 = (x >> 16) as u8;
        let b6: u8 = (x >> 8) as u8;
        let b7: u8 = x as u8;
        proof {
            assert((b0 as nat) * 0x100000000000000 + (b1 as nat) * 0x1000000000000 + (b2 as nat)
                * 0x10000000000 + (b3 as nat) * 0x100000000 + (b4 as nat) * 0x1000000 + (b5 as nat)
                * 0x10000 + (b6 as nat) * 0x100 + (b7 as nat) == x) by (bit_vector)
                requires
                    b0 == (x >> 56) as u8,
                    b1 == (x >> 48) as u8,
                    b2 == (x >> 40) as u8,
                    b3 == (x >> 32) as u8,
                    b4 == (x >> 24) as u8,
                    b5 == (x >> 16) as u8,
                    b6 == (x >> 8) as u8,
                    b7 == x as u8,
            ;
        }
        let mut v = zero_bytes(24);
        v.push(b0);
        v.push(b1);
        v.push(b2);
        v.push(b3);
        v.push(b4);
        v.push(b5);
        v.push(b6);
        v.push(b7);
        let r = U256 { bytes: v };
        r
    }

    /// A number out of the bytes of a 256-bit word.
    pub fn from_h256(h: &H256) -> (r: Self)
        requires
            h.wf(),
        ensures
            r.wf(),
            r@ == h@,
    {
        U256 { bytes: copy_bytes(&h.bytes) }
    }

    /// The 256-bit word with the same bytes.
    pub fn to_h256(&self) -> (r: H256)
        requires
            self.wf(),
        ensures
            r.wf(),
            r@ == self@,
    {
        H256 { bytes: copy_bytes(&self.bytes) }
    }

    /// The low 64 bits, or `None` when the value needs more than 64 bits.
    pub fn as_u64(&self) -> (r: Option<u64>)
        requires
            self.wf(),
        ensures
            r is Some <==> fits_u64(self@),
            r is Some ==> r->0 == lo_u64(self@),
    {
        let mut i: usize = 0;
        while i < 24
            invariant
                i <= 24,
                self.wf(),
                forall|j: int| 0 <= j < i ==> self@[j] == 0,
            decreases 24 - i,
        {
            if self.bytes[i] != 0 {
                return None;
            }
            i = i + 1;
        }
        let acc: u64 = (self.bytes[24] as u64) * 0x100000000000000
            + (self.bytes[25] as u64) * 0x1000000000000 + (self.bytes[26] as u64) * 0x10000000000
            + (self.bytes[27] as u64) * 0x100000000 + (self.bytes[28] as u64) * 0x1000000
            + (self.bytes[29] as u64) * 0x10000 + (self.bytes[30] as u64) * 0x100
            + (self.bytes[31] as u64);
        Some(acc)
    }

    /// The value as a memory offset or length, or `None` when it does not
    /// fit the address space.
    pub fn as_usize(&self) -> (r: Option<usize>)
        requires
            self.wf(),
        ensures
            r is Some <==> fits_u64(self@) && lo_u64(self@) <= usize::MAX,
            r is Some ==> r->0 == lo_u64(self@),
    {
        match self.as_u64() {
            None => None,
            Some(v) => {
                if v <= usize::MAX as u64 {
                    Some(v as usize)
                } else {
                    None
                }
            },
        }
    }
}

} // verus!
