//! One fuzz iteration: size and allocate guest memory, materialize the
//! descriptor chain, construct the packet view by the selected strategy, and
//! replay the operation list.
//!
//! The whole iteration is a pure function of the decoded envelope — the
//! outcome and the final memory contents are pinned to [`spec_iteration`] —
//! so feeding the same envelope twice reproduces the same layout, the same
//! operation sequence and the same result.
use crate::chain::{spec_build_table, spec_linked_chain, DescriptorEntry};
use crate::mem::GuestMem;
use crate::ops::{replay, spec_replay, InitFunction, VsockFunction, VsockInput};
use crate::packet::{spec_from_rx, spec_from_tx, PacketError, PacketView};
use vstd::prelude::*;
use vstd::slice::slice_index_get;

verus! {

/// Guest memory is never grown past this many bytes; regions that fuzzer
/// inputs declare beyond the cap are left for the constructor or the clamped
/// raw write to reject.
pub const MAX_GUEST_MEM: u64 = 0x100000;

/// The builder refuses descriptor lists longer than a virtqueue can hold.
pub const MAX_DESCRIPTORS: usize = 1024;

/// How one iteration ended: the builder refused the descriptor list, the
/// packet constructor refused the chain, or every operation was replayed.
#[derive(Clone, Copy, Debug, PartialEq, Eq, Structural)]
pub enum IterationOutcome {
    SkippedInvalidDescriptors,
    SkippedConstruction(PacketError),
    Completed,
}

/// Every descriptor's address and length stay within the addressable range
/// when added.
pub open spec fn spec_desc_spans_ok(s: Seq<DescriptorEntry>) -> bool {
    forall|i: int| 0 <= i < s.len() ==> #[trigger] s[i].addr + s[i].len <= u64::MAX
}

/// Where a descriptor's buffer ends, capped at the memory-size limit.
pub open spec fn spec_capped_desc_end(e: DescriptorEntry) -> int {
    if e.addr + e.len <= MAX_GUEST_MEM {
        e.addr + e.len
    } else {
        MAX_GUEST_MEM as int
    }
}

/// Where a raw memory write ends, capped at the memory-size limit; zero for
/// every operation that is not a raw write.
pub open spec fn spec_capped_write_end(op: VsockFunction) -> int {
    match op {
        VsockFunction::_WriteToMem { addr, bytes } => if addr + bytes@.len() <= MAX_GUEST_MEM {
            addr + bytes@.len()
        } else {
            MAX_GUEST_MEM as int
        },
        _ => 0,
    }
}

/// The highest capped end of any descriptor buffer in `s`.
pub open spec fn spec_max_desc_end(s: Seq<DescriptorEntry>) -> int
    decreases s.len(),
{
    if s.len() == 0 {
        0
    } else {
        let rest = spec_max_desc_end(s.drop_last());
        let e = spec_capped_desc_end(s.last());
        if e > rest {
            e
        } else {
            rest
        }
    }
}

/// The highest capped end of any raw memory write in `s`.
pub open spec fn spec_max_write_end(s: Seq<VsockFunction>) -> int
    decreases s.len(),
{
    if s.len() == 0 {
        0
    } else {
        let rest = spec_max_write_end(s.drop_last());
        let e = spec_capped_write_end(s.last());
        if e > rest {
            e
        } else {
            rest
        }
    }
}

/// The builder accepts the envelope's descriptor list: not longer than a
/// virtqueue, and no entry whose address and length overflow when added.
pub open spec fn spec_plan_ok(input: VsockInput) -> bool {
    &&& input.descriptors@.len() <= MAX_DESCRIPTORS
    &&& spec_desc_spans_ok(input.descriptors@)
}

/// Bytes set aside for descriptor buffers and raw writes: enough to reach
/// the furthest address any of them names, up to the cap.
pub open spec fn spec_data_size(input: VsockInput) -> int {
    let d = spec_max_desc_end(input.descriptors@);
    let w = spec_max_write_end(input.functions@);
    if d > w {
        d
    } else {
        w
    }
}

/// The descriptor table is materialized right after the data bytes.
pub open spec fn spec_table_base(input: VsockInput) -> int {
    spec_data_size(input)
}

/// Data bytes plus sixteen bytes of descriptor table per entry.
pub open spec fn spec_total_size(input: VsockInput) -> int {
    spec_data_size(input) + 16 * input.descriptors@.len()
}

/// The outcome of one iteration and the guest memory it leaves behind, as a
/// function of the decoded envelope alone: fresh zeroed memory, the
/// materialized table, construction by the selected strategy, and — when
/// construction succeeds — the replayed operation list.
pub open spec fn spec_iteration(input: VsockInput) -> (IterationOutcome, Seq<u8>) {
    if !spec_plan_ok(input) {
        (IterationOutcome::SkippedInvalidDescriptors, Seq::empty())
    } else {
        let m0 = Seq::new(spec_total_size(input) as nat, |i: int| 0u8);
        let m1 = spec_build_table(
            m0,
            spec_table_base(input),
            input.descriptors@,
            input.descriptors@.len() as int,
        );
        let chain = spec_linked_chain(input.descriptors@);
        let r = match input.init_function {
            InitFunction::FromRX => spec_from_rx(m1, chain, input.pkt_max_data),
            InitFunction::FromTX => spec_from_tx(m1, chain, input.pkt_max_data),
        };
        match r {
            Result::Err(e) => (IterationOutcome::SkippedConstruction(e), m1),
            Result::Ok(v) => (IterationOutcome::Completed, spec_replay(input.functions@, v, m1).1),
        }
    }
}

/// Run one fuzz iteration for a decoded envelope and hand back how it ended
/// together with the final guest memory. Determinism: the result equals
/// [`spec_iteration`] of the envelope, a function of the envelope alone, so
/// a replayed byte stream reproduces layouts, operations and outcome.
pub fn run_iteration(input: &VsockInput) -> (r: (IterationOutcome, GuestMem))
    ensures
        r.0 == spec_iteration(*input).0,
        r.1@ == spec_iteration(*input).1,
{
    let n: usize = input.descriptors.len();
    if n > MAX_DESCRIPTORS {
        let empty = GuestMem::new(0);
        proof {
            assert(empty@ =~= Seq::<u8>::empty());
        }
        return (IterationOutcome::SkippedInvalidDescriptors, empty);
    }
    let mut cur: u64 = 0;
    let mut i: usize = 0;
    proof {
        assert(input.descriptors@.take(0) =~= Seq::<DescriptorEntry>::empty());
    }
    while i < n
        invariant
            i <= n,
            n == input.descriptors@.len(),
            n <= MAX_DESCRIPTORS,
            cur <= MAX_GUEST_MEM,
            spec_desc_spans_ok(input.descriptors@.take(i as int)),
            cur == spec_max_desc_end(input.descriptors@.take(i as int)),
        decreases n - i,
    {
        let e = input.descriptors[i];
        if e.addr > u64::MAX - (e.len as u64) {
            let empty = GuestMem::new(0);
            proof {
                assert(empty@ =~= Seq::<u8>::empty());
                assert(input.descriptors@[i as int].addr + input.descriptors@[i as int].len
                    > u64::MAX);
                assert(!spec_desc_spans_ok(input.descriptors@));
            }
            return (IterationOutcome::SkippedInvalidDescriptors, empty);
        }
        let end: u64 = e.addr + (e.len as u64);
        let capped: u64 = if end > MAX_GUEST_MEM {
            MAX_GUEST_MEM
        } else {
            end
        };
        if capped > cur {
            cur = capped;
        }
        i = i + 1;
        proof {
            assert(input.descriptors@.take(i as int).drop_last() =~= input.descriptors@.take(
                i as int - 1,
            ));
            assert(input.descriptors@.take(i as int).last() == input.descriptors@[i as int - 1]);
        }
    }
    proof {
        assert(input.descriptors@.take(n as int) =~= input.descriptors@);
    }
    let nf: usize = input.functions.len();
    let mut j: usize = 0;
    let ghost desc_max = cur as int;
    proof {
        assert(input.functions@.take(0) =~= Seq::<VsockFunction>::empty());
    }
    while j < nf
        invariant
            j <= nf,
            nf == input.functions@.len(),
            cur <= MAX_GUEST_MEM,
            desc_max <= cur,
            ({
                let w = spec_max_write_end(input.functions@.take(j as int));
                cur == if desc_max > w {
                    desc_max
                } else {
                    w
                }
            }),
        decreases nf - j,
    {
        let f = slice_index_get(input.functions.as_slice(), j);
        let wend: u64 = match f {
            VsockFunction::_WriteToMem { addr, bytes } => {
                if *addr >= MAX_GUEST_MEM {
                    MAX_GUEST_MEM
                } else {
                    let rem: u64 = MAX_GUEST_MEM - *addr;
                    let bl: u64 = if bytes.len() >= MAX_GUEST_MEM as usize {
                        MAX_GUEST_MEM
                    } else {
                        bytes.len() as u64
                    };
                    if bl >= rem {
                        MAX_GUEST_MEM
                    } else {
                        *addr + bl
                    }
                }
            },
            _ => 0,
        };
        proof {
            assert(wend == spec_capped_write_end(input.functions@[j as int]));
        }
        if wend > cur {
            cur = wend;
        }
        j = j + 1;
        proof {
            assert(input.functions@.take(j as int).drop_last() =~= input.functions@.take(
                j as int - 1,
            ));
            assert(input.functions@.take(j as int).last() == input.functions@[j as int - 1]);
        }
    }
    proof {
        assert(input.functions@.take(nf as int) =~= input.functions@);
        assert(cur as int == spec_data_size(*input));
    }
    let data_size: usize = cur as usize;
    let total: usize = data_size + 16 * n;
    let mut mem = GuestMem::new(total);
    proof {
        assert(mem@ =~= Seq::new(spec_total_size(*input) as nat, |i: int| 0u8));
    }
    let chain = crate::chain::build_chain(&mut mem, data_size, &input.descriptors);
    let res = match input.init_function {
        InitFunction::FromRX => PacketView::from_rx_chain(&mem, &chain, input.pkt_max_data),
        InitFunction::FromTX => PacketView::from_tx_chain(&mem, &chain, input.pkt_max_data),
    };
    match res {
        Result::Err(e) => (IterationOutcome::SkippedConstruction(e), mem),
        Result::Ok(packet) => {
            let mut packet = packet;
            replay(&input.functions, &mut packet, &mut mem);
            (IterationOutcome::Completed, mem)
        },
    }
}

} // verus!
