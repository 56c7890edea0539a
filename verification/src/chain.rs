//! Descriptor entries and the descriptor chain builder.
//!
//! A descriptor entry is the fuzzer-supplied description of one virtqueue
//! descriptor: a guest-memory address, a byte length and its flags. The
//! builder materializes an ordered list of entries as a descriptor table in
//! guest memory — sixteen little-endian bytes per entry: address, length,
//! flags, next index — linking consecutive entries with the NEXT flag, and
//! hands back the linked chain for the packet constructor to consume.
use crate::mem::{spec_write_bytes, GuestMem};
use vstd::bytes::{
    spec_u16_to_le_bytes, spec_u32_to_le_bytes, spec_u64_to_le_bytes, u16_to_le_bytes,
    u32_to_le_bytes, u64_to_le_bytes,
};
use vstd::prelude::*;

verus! {

/// Flag bit marking a descriptor as continued by the entry at its next index.
pub const VIRTQ_DESC_F_NEXT: u16 = 1;

/// Flag bit marking a descriptor's buffer as writable by the device.
pub const VIRTQ_DESC_F_WRITE: u16 = 2;

/// One fuzzer-supplied virtqueue descriptor: where its buffer lives in guest
/// memory, how long it is, and its direction/continuation flags.
#[derive(Clone, Copy, Debug, PartialEq, Eq, Structural)]
pub struct DescriptorEntry {
    pub addr: u64,
    pub len: u32,
    pub flags: u16,
}

impl DescriptorEntry {
    /// Whether the device may write this descriptor's buffer.
    pub open spec fn spec_is_write_only(self) -> bool {
        (self.flags & VIRTQ_DESC_F_WRITE) == VIRTQ_DESC_F_WRITE
    }

    /// Whether another descriptor continues this one's chain.
    pub open spec fn spec_has_next(self) -> bool {
        (self.flags & VIRTQ_DESC_F_NEXT) == VIRTQ_DESC_F_NEXT
    }

    /// Whether the device may write this descriptor's buffer.
    pub fn is_write_only(&self) -> (r: bool)
        ensures
            r == self.spec_is_write_only(),
    {
        (self.flags & VIRTQ_DESC_F_WRITE) == VIRTQ_DESC_F_WRITE
    }

    /// Whether another descriptor continues this one's chain.
    pub fn has_next(&self) -> (r: bool)
        ensures
            r == self.spec_has_next(),
    {
        (self.flags & VIRTQ_DESC_F_NEXT) == VIRTQ_DESC_F_NEXT
    }
}

/// The flags the builder stores for the entry at position `i` of `n`: every
/// entry but the last is linked to its successor, and the last entry's
/// continuation bit is cleared.
pub open spec fn spec_linked_flags(f: u16, i: int, n: int) -> u16 {
    if i + 1 == n {
        f & !VIRTQ_DESC_F_NEXT
    } else {
        f | VIRTQ_DESC_F_NEXT
    }
}

/// The next-index the builder stores for the entry at position `i` of `n`.
pub open spec fn spec_next_index(i: int, n: int) -> u16 {
    if i + 1 == n {
        0
    } else {
        (i + 1) as u16
    }
}

/// The chain the builder hands to the packet constructor: the input entries
/// in order, with their flags adjusted for linear linkage.
pub open spec fn spec_linked_chain(s: Seq<DescriptorEntry>) -> Seq<DescriptorEntry> {
    Seq::new(
        s.len(),
        |i: int|
            DescriptorEntry {
                addr: s[i].addr,
                len: s[i].len,
                flags: spec_linked_flags(s[i].flags, i, s.len() as int),
            },
    )
}

/// Guest memory after the table entry for `s[k]` is written at
/// `tb + 16 * k`: address, length, linked flags and next index, each
/// little-endian.
pub open spec fn spec_write_table_entry(
    m: Seq<u8>,
    tb: int,
    s: Seq<DescriptorEntry>,
    k: int,
) -> Seq<u8> {
    let a = tb + 16 * k;
    let n = s.len() as int;
    spec_write_bytes(
        spec_write_bytes(
            spec_write_bytes(
                spec_write_bytes(m, a, spec_u64_to_le_bytes(s[k].addr)),
                a + 8,
                spec_u32_to_le_bytes(s[k].len),
            ),
            a + 12,
            spec_u16_to_le_bytes(spec_linked_flags(s[k].flags, k, n)),
        ),
        a + 14,
        spec_u16_to_le_bytes(spec_next_index(k, n)),
    )
}

/// Guest memory after the table entries for the first `k` entries of `s`
/// are written at `tb`.
pub open spec fn spec_build_table(m: Seq<u8>, tb: int, s: Seq<DescriptorEntry>, k: int) -> Seq<u8>
    decreases k,
{
    if k <= 0 {
        m
    } else {
        spec_write_table_entry(spec_build_table(m, tb, s, k - 1), tb, s, k - 1)
    }
}

/// Write the descriptor table for `entries` into guest memory at
/// `table_base` and return the linked chain. The caller sizes the memory so
/// that the table region fits; every byte the builder touches lies inside
/// `[table_base, table_base + 16 * entries.len())`.
pub fn build_chain(mem: &mut GuestMem, table_base: usize, entries: &Vec<DescriptorEntry>) -> (chain:
    Vec<DescriptorEntry>)
    requires
        entries@.len() <= 0x10000,
        table_base + 16 * entries@.len() <= old(mem)@.len(),
    ensures
        chain@ == spec_linked_chain(entries@),
        final(mem)@ == spec_build_table(old(mem)@, table_base as int, entries@, entries@.len() as int),
{
    let n: usize = entries.len();
    let msize: usize = mem.size();
    let mut chain: Vec<DescriptorEntry> = Vec::new();
    let mut i: usize = 0;
    proof {
        assert(chain@ =~= spec_linked_chain(entries@).take(0));
        lemma_build_table_len(old(mem)@, table_base as int, entries@, 0);
    }
    while i < n
        invariant
            i <= n,
            n == entries@.len(),
            n <= 0x10000,
            table_base + 16 * n <= msize,
            msize <= usize::MAX,
            table_base + 16 * n <= old(mem)@.len(),
            mem@.len() == old(mem)@.len(),
            chain@ == spec_linked_chain(entries@).take(i as int),
            mem@ == spec_build_table(old(mem)@, table_base as int, entries@, i as int),
        decreases n - i,
    {
        let e = entries[i];
        let flags: u16 = if i + 1 == n {
            e.flags & !VIRTQ_DESC_F_NEXT
        } else {
            e.flags | VIRTQ_DESC_F_NEXT
        };
        let next: u16 = if i + 1 == n {
            0
        } else {
            (i + 1) as u16
        };
        let a: usize = table_base + 16 * i;
        let addr_bytes = u64_to_le_bytes(e.addr);
        let len_bytes = u32_to_le_bytes(e.len);
        let flag_bytes = u16_to_le_bytes(flags);
        let next_bytes = u16_to_le_bytes(next);
        mem.write_bytes(a, addr_bytes.as_slice());
        mem.write_bytes(a + 8, len_bytes.as_slice());
        mem.write_bytes(a + 12, flag_bytes.as_slice());
        mem.write_bytes(a + 14, next_bytes.as_slice());
        chain.push(DescriptorEntry { addr: e.addr, len: e.len, flags });
        i = i + 1;
        proof {
            assert(chain@ =~= spec_linked_chain(entries@).take(i as int));
            lemma_build_table_len(old(mem)@, table_base as int, entries@, i as int);
        }
    }
    proof {
        assert(spec_linked_chain(entries@).take(n as int) =~= spec_linked_chain(entries@));
    }
    chain
}

/// Writing the first `k` table entries never changes the length of guest
/// memory.
pub proof fn lemma_build_table_len(m: Seq<u8>, tb: int, s: Seq<DescriptorEntry>, k: int)
    ensures
        spec_build_table(m, tb, s, k).len() == m.len(),
    decreases k,
{
    if k > 0 {
        lemma_build_table_len(m, tb, s, k - 1);
    }
}

/// Bounds safety of the builder: materializing a descriptor table touches no
/// byte outside the table region `[tb, tb + 16 * k)`, whatever addresses and
/// lengths the entries themselves declare.
pub proof fn lemma_build_table_contained(m: Seq<u8>, tb: int, s: Seq<DescriptorEntry>, k: int)
    requires
        0 <= k <= s.len(),
    ensures
        spec_build_table(m, tb, s, k).len() == m.len(),
        forall|j: int|
            0 <= j < m.len() && !(tb <= j < tb + 16 * k) ==> spec_build_table(m, tb, s, k)[j]
                == m[j],
    decreases k,
{
    vstd::bytes::lemma_auto_spec_u64_to_from_le_bytes();
    vstd::bytes::lemma_auto_spec_u32_to_from_le_bytes();
    vstd::bytes::lemma_auto_spec_u16_to_from_le_bytes();
    lemma_build_table_len(m, tb, s, k);
    if k > 0 {
        lemma_build_table_contained(m, tb, s, k - 1);
        lemma_build_table_len(m, tb, s, k - 1);
    }
}

} // verus!
