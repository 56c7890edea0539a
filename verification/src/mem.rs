//! Guest memory model: a single flat, byte-addressable, mutable region.
//!
//! One instance is allocated per fuzz iteration; the descriptor chain builder,
//! the packet view and the raw-write primitive all operate on it. Reads and
//! writes are bounds-checked against the allocated length; the raw-write
//! primitive clamps at the end of the region instead of writing past it.
use vstd::prelude::*;
use vstd::pervasive::VecAdditionalExecFns;

verus! {

/// The bytes of `m` with `d` written starting at `a`. Positions outside
/// `[a, a + d.len())` keep their old value; the region length never changes.
pub open spec fn spec_write_bytes(m: Seq<u8>, a: int, d: Seq<u8>) -> Seq<u8> {
    Seq::new(m.len(), |i: int| if a <= i < a + d.len() { d[i - a] } else { m[i] })
}

/// How many bytes of a write of `d_len` bytes at `addr` fall inside a region
/// of `m_len` bytes.
pub open spec fn spec_clamped_len(m_len: int, addr: u64, d_len: int) -> int {
    let avail = if (addr as int) < m_len { m_len - addr } else { 0 };
    if d_len <= avail {
        d_len
    } else {
        avail
    }
}

/// The bytes of `m` after a clamped write of `d` at `addr`: the prefix of `d`
/// that fits before the end of the region is written, the rest is discarded.
pub open spec fn spec_clamped_write(m: Seq<u8>, addr: u64, d: Seq<u8>) -> Seq<u8> {
    spec_write_bytes(m, addr as int, d.take(spec_clamped_len(m.len() as int, addr, d.len() as int)))
}

/// True when a write of `d_len` bytes at `addr` fits entirely inside a region
/// of `m_len` bytes, i.e. when the clamped write is a complete one.
pub open spec fn spec_write_fits(m_len: int, addr: u64, d_len: int) -> bool {
    spec_clamped_len(m_len, addr, d_len) == d_len
}

/// The flat guest memory region of one fuzz iteration.
pub struct GuestMem {
    bytes: Vec<u8>,
}

impl View for GuestMem {
    type V = Seq<u8>;

    closed spec fn view(&self) -> Seq<u8> {
        self.bytes@
    }
}

impl GuestMem {
    /// Allocate a zero-filled region of `size` bytes.
    pub fn new(size: usize) -> (r: GuestMem)
        ensures
            r@ == Seq::new(size as nat, |i: int| 0u8),
    {
        let mut bytes: Vec<u8> = Vec::new();
        let mut i: usize = 0;
        proof {
            assert(bytes@ =~= Seq::new(0, |j: int| 0u8));
        }
        while i < size
            invariant
                i <= size,
                bytes@ == Seq::new(i as nat, |j: int| 0u8),
            decreases size - i,
        {
            bytes.push(0u8);
            i = i + 1;
            proof {
                assert(bytes@ =~= Seq::new(i as nat, |j: int| 0u8));
            }
        }
        GuestMem { bytes }
    }

    /// Number of addressable bytes.
    pub fn size(&self) -> (r: usize)
        ensures
            r == self@.len(),
    {
        self.bytes.len()
    }

    /// Borrow the whole region.
    pub fn as_bytes(&self) -> (r: &Vec<u8>)
        ensures
            r@ == self@,
    {
        &self.bytes
    }

    /// Copy `n` bytes starting at `addr` out of the region.
    pub fn read_bytes(&self, addr: usize, n: usize) -> (r: Vec<u8>)
        requires
            addr + n <= self@.len(),
        ensures
            r@ == self@.subrange(addr as int, addr + n),
    {
        let msize: usize = self.bytes.len();
        let mut r: Vec<u8> = Vec::new();
        let mut i: usize = 0;
        proof {
            assert(r@ =~= self@.subrange(addr as int, addr as int));
        }
        while i < n
            invariant
                i <= n,
                addr + n <= msize,
                msize == self@.len(),
                r@ == self@.subrange(addr as int, addr + i),
            decreases n - i,
        {
            r.push(self.bytes[addr + i]);
            i = i + 1;
            proof {
                assert(r@ =~= self@.subrange(addr as int, addr + i));
            }
        }
        r
    }

    /// Write all of `data` at `addr`; the caller must have checked the bounds.
    pub fn write_bytes(&mut self, addr: usize, data: &[u8])
        requires
            addr + data@.len() <= old(self)@.len(),
        ensures
            final(self)@ == spec_write_bytes(old(self)@, addr as int, data@),
    {
        let n: usize = data.len();
        let msize: usize = self.bytes.len();
        let mut i: usize = 0;
        proof {
            assert(spec_write_bytes(self@, addr as int, data@.take(0)) =~= self@);
        }
        while i < n
            invariant
                i <= n,
                n == data@.len(),
                addr + n <= msize,
                msize == self@.len(),
                self@ == spec_write_bytes(old(self)@, addr as int, data@.take(i as int)),
            decreases n - i,
        {
            let b: u8 = *vstd::slice::slice_index_get(data, i);
            self.bytes.set(addr + i, b);
            i = i + 1;
            proof {
                assert(self@ =~= spec_write_bytes(old(self)@, addr as int, data@.take(i as int)));
            }
        }
        proof {
            assert(data@.take(n as int) =~= data@);
        }
    }

    /// The raw-write primitive: write as much of `data` at `addr` as fits
    /// before the end of the region, discard the rest, and report whether the
    /// whole buffer fit. Never touches a byte outside the region.
    pub fn write_slice_clamped(&mut self, addr: u64, data: &[u8]) -> (complete: bool)
        ensures
            final(self)@ == spec_clamped_write(old(self)@, addr, data@),
            complete == spec_write_fits(old(self)@.len() as int, addr, data@.len() as int),
    {
        let size: usize = self.bytes.len();
        if addr >= size as u64 {
            proof {
                assert(spec_clamped_len(self@.len() as int, addr, data@.len() as int) == 0);
                assert(spec_clamped_write(self@, addr, data@) =~= self@);
            }
            return data.len() == 0;
        }
        let start: usize = addr as usize;
        let avail: usize = size - start;
        let n: usize = if data.len() <= avail {
            data.len()
        } else {
            avail
        };
        let prefix = vstd::slice::slice_subrange(data, 0, n);
        proof {
            assert(prefix@ =~= data@.take(n as int));
        }
        self.write_bytes(start, prefix);
        n == data.len()
    }
}

/// The raw-write primitive never changes the length of the region nor any
/// byte at or past the end of what it was asked to write inside the region.
pub proof fn lemma_clamped_write_contained(m: Seq<u8>, addr: u64, d: Seq<u8>)
    ensures
        spec_clamped_write(m, addr, d).len() == m.len(),
        forall|j: int|
            0 <= j < m.len() && !(addr <= j < addr + d.len()) ==> spec_clamped_write(m, addr, d)[j]
                == m[j],
{
}

} // verus!
