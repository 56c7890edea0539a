//! The operation vocabulary and the replay interpreter.
//!
//! Each [`VsockFunction`] names one packet-level or memory-level action. The
//! interpreter applies an envelope's operation list strictly in order, each
//! operation exactly once, with no reordering, retrying or skipping; what
//! every operation does to the view and to guest memory is pinned down by
//! [`spec_apply`], so a whole replay is a pure function of the starting state
//! and the list.
use crate::chain::DescriptorEntry;
use crate::mem::{spec_clamped_write, spec_write_bytes, GuestMem};
use crate::packet::{
    spec_parse_header, spec_with_buf_alloc, spec_with_dst_cid, spec_with_dst_port, spec_with_flags,
    spec_with_fwd_cnt, spec_with_len, spec_with_op, spec_with_src_cid, spec_with_src_port,
    spec_with_type_, PacketView, BUF_ALLOC_OFFSET, DST_CID_OFFSET, DST_PORT_OFFSET, FLAGS_OFFSET,
    FWD_CNT_OFFSET, LEN_OFFSET, OP_OFFSET, SRC_CID_OFFSET, SRC_PORT_OFFSET, TYPE_OFFSET,
};
use crate::PKT_HEADER_SIZE;
use vstd::bytes::{spec_u16_to_le_bytes, spec_u32_to_le_bytes, spec_u64_to_le_bytes};
use vstd::prelude::*;
use vstd::slice::slice_index_get;

verus! {

/// All the operations that can be replayed against the packet view.
#[derive(Clone, Debug)]
pub enum VsockFunction {
    HeaderSlice,
    Len,
    DataSlice,
    SrcCid,
    SetSrcCid { cid: u64 },
    DstCid,
    SetDstCid { cid: u64 },
    SrcPort,
    SetSrcPort { port: u32 },
    DstPort,
    SetDstPort { port: u32 },
    IsEmpty,
    SetLen { len: u32 },
    Type_,
    SetType { type_: u16 },
    Op,
    SetOp { op: u16 },
    Flags,
    SetFlags { flags: u32 },
    SetFlag { flag: u32 },
    BufAlloc,
    SetBufAlloc { buf_alloc: u32 },
    FwdCnt,
    SetFwdCnt { fwd_cnt: u32 },
    SetHeaderFromRaw { bytes: Vec<u8> },
    /// Not part of the packet interface: writes fuzzer-chosen bytes straight
    /// into guest memory, so a replay can place non-zero content under the
    /// regions the packet view reads and alters.
    _WriteToMem { addr: u64, bytes: Vec<u8> },
}

/// Which construction strategy the envelope selects.
#[derive(Clone, Copy, Debug, PartialEq, Eq, Structural)]
pub enum InitFunction {
    FromRX,
    FromTX,
}

/// The decoded fuzz input envelope: the negotiated maximum data length, the
/// construction strategy, the descriptor list and the operation list.
#[derive(Clone, Debug)]
pub struct VsockInput {
    pub pkt_max_data: u32,
    pub init_function: InitFunction,
    pub descriptors: Vec<DescriptorEntry>,
    pub functions: Vec<VsockFunction>,
}

/// What one operation does: the view and memory it leaves behind. Pure
/// accessors change nothing; field setters write one little-endian scalar
/// into its header slot and the cache; the raw header overwrite replaces the
/// header region only when handed exactly header-sized bytes; the raw memory
/// write is clamped at the end of the region.
pub open spec fn spec_apply(op: VsockFunction, v: PacketView, m: Seq<u8>) -> (PacketView, Seq<u8>) {
    match op {
        VsockFunction::HeaderSlice => (v, m),
        VsockFunction::Len => (v, m),
        VsockFunction::DataSlice => (v, m),
        VsockFunction::SrcCid => (v, m),
        VsockFunction::SetSrcCid { cid } => (
            PacketView { header: spec_with_src_cid(v.header, cid), ..v },
            spec_write_bytes(m, v.header_addr + SRC_CID_OFFSET, spec_u64_to_le_bytes(cid)),
        ),
        VsockFunction::DstCid => (v, m),
        VsockFunction::SetDstCid { cid } => (
            PacketView { header: spec_with_dst_cid(v.header, cid), ..v },
            spec_write_bytes(m, v.header_addr + DST_CID_OFFSET, spec_u64_to_le_bytes(cid)),
        ),
        VsockFunction::SrcPort => (v, m),
        VsockFunction::SetSrcPort { port } => (
            PacketView { header: spec_with_src_port(v.header, port), ..v },
            spec_write_bytes(m, v.header_addr + SRC_PORT_OFFSET, spec_u32_to_le_bytes(port)),
        ),
        VsockFunction::DstPort => (v, m),
        VsockFunction::SetDstPort { port } => (
            PacketView { header: spec_with_dst_port(v.header, port), ..v },
            spec_write_bytes(m, v.header_addr + DST_PORT_OFFSET, spec_u32_to_le_bytes(port)),
        ),
        VsockFunction::IsEmpty => (v, m),
        VsockFunction::SetLen { len } => (
            PacketView { header: spec_with_len(v.header, len), ..v },
            spec_write_bytes(m, v.header_addr + LEN_OFFSET, spec_u32_to_le_bytes(len)),
        ),
        VsockFunction::Type_ => (v, m),
        VsockFunction::SetType { type_ } => (
            PacketView { header: spec_with_type_(v.header, type_), ..v },
            spec_write_bytes(m, v.header_addr + TYPE_OFFSET, spec_u16_to_le_bytes(type_)),
        ),
        VsockFunction::Op => (v, m),
        VsockFunction::SetOp { op } => (
            PacketView { header: spec_with_op(v.header, op), ..v },
            spec_write_bytes(m, v.header_addr + OP_OFFSET, spec_u16_to_le_bytes(op)),
        ),
        VsockFunction::Flags => (v, m),
        VsockFunction::SetFlags { flags } => (
            PacketView { header: spec_with_flags(v.header, flags), ..v },
            spec_write_bytes(m, v.header_addr + FLAGS_OFFSET, spec_u32_to_le_bytes(flags)),
        ),
        VsockFunction::SetFlag { flag } => (
            PacketView { header: spec_with_flags(v.header, v.header.flags | flag), ..v },
            spec_write_bytes(
                m,
                v.header_addr + FLAGS_OFFSET,
                spec_u32_to_le_bytes(v.header.flags | flag),
            ),
        ),
        VsockFunction::BufAlloc => (v, m),
        VsockFunction::SetBufAlloc { buf_alloc } => (
            PacketView { header: spec_with_buf_alloc(v.header, buf_alloc), ..v },
            spec_write_bytes(m, v.header_addr + BUF_ALLOC_OFFSET, spec_u32_to_le_bytes(buf_alloc)),
        ),
        VsockFunction::FwdCnt => (v, m),
        VsockFunction::SetFwdCnt { fwd_cnt } => (
            PacketView { header: spec_with_fwd_cnt(v.header, fwd_cnt), ..v },
            spec_write_bytes(m, v.header_addr + FWD_CNT_OFFSET, spec_u32_to_le_bytes(fwd_cnt)),
        ),
        VsockFunction::SetHeaderFromRaw { bytes } => if bytes@.len() == PKT_HEADER_SIZE {
            (
                PacketView { header: spec_parse_header(bytes@), ..v },
                spec_write_bytes(m, v.header_addr as int, bytes@),
            )
        } else {
            (v, m)
        },
        VsockFunction::_WriteToMem { addr, bytes } => (v, spec_clamped_write(m, addr, bytes@)),
    }
}

impl VsockFunction {
    /// Apply this operation to the view and guest memory; the result of an
    /// accessor is read and discarded, an error of the raw header overwrite
    /// or the raw memory write is observed and discarded, exactly as a
    /// replayed call has no caller to hand a value back to.
    pub fn call(&self, packet: &mut PacketView, mem: &mut GuestMem)
        requires
            old(packet).wf(old(mem)@.len()),
        ensures
            *final(packet) == spec_apply(*self, *old(packet), old(mem)@).0,
            final(mem)@ == spec_apply(*self, *old(packet), old(mem)@).1,
            final(packet).wf(final(mem)@.len()),
    {
        match self {
            VsockFunction::HeaderSlice => {
                let _ = packet.header_slice(mem);
            },
            VsockFunction::Len => {
                let _ = packet.len();
            },
            VsockFunction::DataSlice => {
                let _ = packet.data_slice(mem);
            },
            VsockFunction::SrcCid => {
                let _ = packet.src_cid();
            },
            VsockFunction::SetSrcCid { cid } => {
                packet.set_src_cid(mem, *cid);
            },
            VsockFunction::DstCid => {
                let _ = packet.dst_cid();
            },
            VsockFunction::SetDstCid { cid } => {
                packet.set_dst_cid(mem, *cid);
            },
            VsockFunction::SrcPort => {
                let _ = packet.src_port();
            },
            VsockFunction::SetSrcPort { port } => {
                packet.set_src_port(mem, *port);
            },
            VsockFunction::DstPort => {
                let _ = packet.dst_port();
            },
            VsockFunction::SetDstPort { port } => {
                packet.set_dst_port(mem, *port);
            },
            VsockFunction::IsEmpty => {
                let _ = packet.is_empty();
            },
            VsockFunction::SetLen { len } => {
                packet.set_len(mem, *len);
            },
            VsockFunction::Type_ => {
                let _ = packet.type_();
            },
            VsockFunction::SetType { type_ } => {
                packet.set_type(mem, *type_);
            },
            VsockFunction::Op => {
                let _ = packet.op();
            },
            VsockFunction::SetOp { op } => {
                packet.set_op(mem, *op);
            },
            VsockFunction::Flags => {
                let _ = packet.flags();
            },
            VsockFunction::SetFlags { flags } => {
                packet.set_flags(mem, *flags);
            },
            VsockFunction::SetFlag { flag } => {
                packet.set_flag(mem, *flag);
            },
            VsockFunction::BufAlloc => {
                let _ = packet.buf_alloc();
            },
            VsockFunction::SetBufAlloc { buf_alloc } => {
                packet.set_buf_alloc(mem, *buf_alloc);
            },
            VsockFunction::FwdCnt => {
                let _ = packet.fwd_cnt();
            },
            VsockFunction::SetFwdCnt { fwd_cnt } => {
                packet.set_fwd_cnt(mem, *fwd_cnt);
            },
            VsockFunction::SetHeaderFromRaw { bytes } => {
                let _ = packet.set_header_from_raw(mem, bytes.as_slice());
            },
            VsockFunction::_WriteToMem { addr, bytes } => {
                let _ = mem.write_slice_clamped(*addr, bytes.as_slice());
            },
        }
    }
}

/// Accessor and mutator containment: every operation except the raw memory
/// write leaves the view's regions where they were and changes no byte of
/// guest memory outside the header region — pure accessors change nothing at
/// all, and the field setters and the raw header overwrite stay inside the
/// fixed header range, whatever argument values they carry.
pub proof fn lemma_packet_ops_contained(op: VsockFunction, v: PacketView, m: Seq<u8>)
    requires
        v.wf(m.len()),
        !(op is _WriteToMem),
    ensures
        spec_apply(op, v, m).1.len() == m.len(),
        spec_apply(op, v, m).0.header_addr == v.header_addr,
        spec_apply(op, v, m).0.data == v.data,
        forall|j: int|
            0 <= j < m.len() && !(v.header_addr <= j < v.header_addr + PKT_HEADER_SIZE)
                ==> spec_apply(op, v, m).1[j] == m[j],
{
    vstd::bytes::lemma_auto_spec_u64_to_from_le_bytes();
    vstd::bytes::lemma_auto_spec_u32_to_from_le_bytes();
    vstd::bytes::lemma_auto_spec_u16_to_from_le_bytes();
}

/// The view and memory left after replaying `ops` in order from `(v, m)`.
pub open spec fn spec_replay(ops: Seq<VsockFunction>, v: PacketView, m: Seq<u8>) -> (
    PacketView,
    Seq<u8>,
)
    decreases ops.len(),
{
    if ops.len() == 0 {
        (v, m)
    } else {
        let s = spec_apply(ops[0], v, m);
        spec_replay(ops.drop_first(), s.0, s.1)
    }
}

/// Replay every operation of `functions`, strictly in order, against the
/// view and guest memory.
pub fn replay(functions: &Vec<VsockFunction>, packet: &mut PacketView, mem: &mut GuestMem)
    requires
        old(packet).wf(old(mem)@.len()),
    ensures
        *final(packet) == spec_replay(functions@, *old(packet), old(mem)@).0,
        final(mem)@ == spec_replay(functions@, *old(packet), old(mem)@).1,
        final(packet).wf(final(mem)@.len()),
{
    let n: usize = functions.len();
    let mut i: usize = 0;
    proof {
        assert(functions@.skip(0) =~= functions@);
    }
    while i < n
        invariant
            i <= n,
            n == functions@.len(),
            packet.wf(mem@.len()),
            spec_replay(functions@, *old(packet), old(mem)@) == spec_replay(
                functions@.skip(i as int),
                *packet,
                mem@,
            ),
        decreases n - i,
    {
        let ghost pv = *packet;
        let ghost mv = mem@;
        let f = slice_index_get(functions.as_slice(), i);
        f.call(packet, mem);
        proof {
            assert(functions@.skip(i as int)[0] == functions@[i as int]);
            assert(functions@.skip(i as int).drop_first() =~= functions@.skip(i + 1));
            assert(spec_replay(functions@.skip(i as int), pv, mv) == spec_replay(
                functions@.skip(i + 1),
                *packet,
                mem@,
            ));
        }
        i = i + 1;
    }
    proof {
        assert(functions@.skip(n as int) =~= Seq::<VsockFunction>::empty());
    }
}

} // verus!
