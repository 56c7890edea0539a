//! The packet view: a zero-copy window over the header and data regions that
//! a descriptor chain places inside guest memory.
//!
//! Construction follows one of two strategies. The receive path expects
//! device-writable descriptors and leaves the cached header zeroed; the
//! transmit path expects device-readable descriptors and parses the cached
//! header from guest memory, taking the data length from the header's `len`
//! field. Both reject a chain whose header-carrying descriptor is shorter
//! than the fixed header size or whose regions run past the end of memory.
//!
//! Field getters read the header cache that was filled at construction (or by
//! a setter) rather than guest memory, so that later raw memory writes cannot
//! change what was validated; setters write both the cache and the header
//! region in memory.
use crate::chain::DescriptorEntry;
use crate::mem::{spec_write_bytes, GuestMem};
use crate::PKT_HEADER_SIZE;
use vstd::bytes::{
    spec_u16_from_le_bytes, spec_u16_to_le_bytes, spec_u32_from_le_bytes, spec_u32_to_le_bytes,
    spec_u64_from_le_bytes, spec_u64_to_le_bytes, u16_from_le_bytes, u16_to_le_bytes,
    u32_from_le_bytes, u32_to_le_bytes, u64_from_le_bytes, u64_to_le_bytes,
};
use vstd::prelude::*;
use vstd::slice::slice_subrange;

verus! {

/// Byte offset of each field inside the header region.
pub const SRC_CID_OFFSET: usize = 0;

pub const DST_CID_OFFSET: usize = 8;

pub const SRC_PORT_OFFSET: usize = 16;

pub const DST_PORT_OFFSET: usize = 20;

pub const LEN_OFFSET: usize = 24;

pub const TYPE_OFFSET: usize = 28;

pub const OP_OFFSET: usize = 30;

pub const FLAGS_OFFSET: usize = 32;

pub const BUF_ALLOC_OFFSET: usize = 36;

pub const FWD_CNT_OFFSET: usize = 40;

/// Construction and header-overwrite errors.
#[derive(Clone, Copy, Debug, PartialEq, Eq, Structural)]
pub enum PacketError {
    /// Too few descriptors in the chain.
    DescriptorChainTooShort,
    /// A descriptor's buffer is too short for what it must hold.
    DescriptorLengthTooSmall,
    /// A descriptor's buffer is longer than the negotiated maximum.
    DescriptorLengthTooLong,
    /// A raw header buffer whose length is not the header size.
    InvalidHeaderInputSize(usize),
    /// The header's `len` field exceeds the negotiated maximum.
    InvalidHeaderLen(u32),
    /// A region runs past the end of guest memory.
    InvalidMemoryAccess,
    /// A device-readable descriptor where the strategy needs a writable one.
    UnexpectedReadOnlyDescriptor,
    /// A device-writable descriptor where the strategy needs a readable one.
    UnexpectedWriteOnlyDescriptor,
}

/// The decoded header fields the view caches.
#[derive(Clone, Copy, Debug, PartialEq, Eq, Structural)]
pub struct PacketHeader {
    pub src_cid: u64,
    pub dst_cid: u64,
    pub src_port: u32,
    pub dst_port: u32,
    pub len: u32,
    pub type_: u16,
    pub op: u16,
    pub flags: u32,
    pub buf_alloc: u32,
    pub fwd_cnt: u32,
}

/// The all-zero header the receive path starts from.
pub open spec fn spec_header_zeroed() -> PacketHeader {
    PacketHeader {
        src_cid: 0,
        dst_cid: 0,
        src_port: 0,
        dst_port: 0,
        len: 0,
        type_: 0,
        op: 0,
        flags: 0,
        buf_alloc: 0,
        fwd_cnt: 0,
    }
}

/// The header decoded from 44 bytes: each field read little-endian at its
/// fixed offset.
pub open spec fn spec_parse_header(s: Seq<u8>) -> PacketHeader
    recommends
        s.len() == PKT_HEADER_SIZE,
{
    PacketHeader {
        src_cid: spec_u64_from_le_bytes(s.subrange(0, 8)),
        dst_cid: spec_u64_from_le_bytes(s.subrange(8, 16)),
        src_port: spec_u32_from_le_bytes(s.subrange(16, 20)),
        dst_port: spec_u32_from_le_bytes(s.subrange(20, 24)),
        len: spec_u32_from_le_bytes(s.subrange(24, 28)),
        type_: spec_u16_from_le_bytes(s.subrange(28, 30)),
        op: spec_u16_from_le_bytes(s.subrange(30, 32)),
        flags: spec_u32_from_le_bytes(s.subrange(32, 36)),
        buf_alloc: spec_u32_from_le_bytes(s.subrange(36, 40)),
        fwd_cnt: spec_u32_from_le_bytes(s.subrange(40, 44)),
    }
}

/// The data region of a packet that carries one.
#[derive(Clone, Copy, Debug, PartialEq, Eq, Structural)]
pub struct DataRegion {
    pub addr: usize,
    pub len: usize,
}

/// The packet view: the fixed location of the header region, the optional
/// data region, and the cached header fields. The byte ranges are fixed at
/// construction and never resized afterwards.
#[derive(Clone, Copy, Debug)]
pub struct PacketView {
    pub header_addr: usize,
    pub data: Option<DataRegion>,
    pub header: PacketHeader,
}

impl PacketView {
    /// Both regions lie inside a guest memory of `msize` bytes; every
    /// accessor and mutator stays within them.
    pub open spec fn wf(self, msize: nat) -> bool {
        &&& self.header_addr + PKT_HEADER_SIZE <= msize
        &&& match self.data {
            Option::Some(d) => d.addr + d.len <= msize,
            Option::None => true,
        }
    }
}

/// Receive-path construction over a linked chain in memory `m`: the head
/// descriptor must be device-writable and at least header-sized, the header
/// region must lie inside memory, and the data region — on the same
/// descriptor past the header, or on a following device-writable descriptor
/// no longer than `max_data_size` — must lie inside memory. A header-sized
/// chain head without a successor yields a view without a data region. The
/// cached header starts zeroed.
pub open spec fn spec_from_rx(m: Seq<u8>, chain: Seq<DescriptorEntry>, max_data_size: u32) -> Result<
    PacketView,
    PacketError,
> {
    if chain.len() == 0 {
        Err(PacketError::DescriptorChainTooShort)
    } else {
        let head = chain[0];
        if !head.spec_is_write_only() {
            Err(PacketError::UnexpectedReadOnlyDescriptor)
        } else if (head.len as int) < PKT_HEADER_SIZE {
            Err(PacketError::DescriptorLengthTooSmall)
        } else if head.addr + PKT_HEADER_SIZE > m.len() {
            Err(PacketError::InvalidMemoryAccess)
        } else if !head.spec_has_next() {
            if (head.len as int) > PKT_HEADER_SIZE {
                if head.addr + head.len > m.len() {
                    Err(PacketError::InvalidMemoryAccess)
                } else {
                    Ok(
                        PacketView {
                            header_addr: head.addr as usize,
                            data: Some(
                                DataRegion {
                                    addr: (head.addr + PKT_HEADER_SIZE) as usize,
                                    len: (head.len - PKT_HEADER_SIZE) as usize,
                                },
                            ),
                            header: spec_header_zeroed(),
                        },
                    )
                }
            } else {
                Ok(
                    PacketView {
                        header_addr: head.addr as usize,
                        data: None,
                        header: spec_header_zeroed(),
                    },
                )
            }
        } else if chain.len() < 2 {
            Err(PacketError::DescriptorChainTooShort)
        } else {
            let d = chain[1];
            if !d.spec_is_write_only() {
                Err(PacketError::UnexpectedReadOnlyDescriptor)
            } else if d.len > max_data_size {
                Err(PacketError::DescriptorLengthTooLong)
            } else if d.len == 0 {
                Ok(
                    PacketView {
                        header_addr: head.addr as usize,
                        data: None,
                        header: spec_header_zeroed(),
                    },
                )
            } else if d.addr + d.len > m.len() {
                Err(PacketError::InvalidMemoryAccess)
            } else {
                Ok(
                    PacketView {
                        header_addr: head.addr as usize,
                        data: Some(DataRegion { addr: d.addr as usize, len: d.len as usize }),
                        header: spec_header_zeroed(),
                    },
                )
            }
        }
    }
}

/// Transmit-path construction: the head descriptor must be device-readable
/// and at least header-sized, the cached header is parsed from memory, and
/// the data region's length is the header's `len` field — zero meaning no
/// data, a value over `max_data_size` rejected, and the bytes taken from the
/// head descriptor past the header or from a following device-readable
/// descriptor large enough to hold them.
pub open spec fn spec_from_tx(m: Seq<u8>, chain: Seq<DescriptorEntry>, max_data_size: u32) -> Result<
    PacketView,
    PacketError,
> {
    if chain.len() == 0 {
        Err(PacketError::DescriptorChainTooShort)
    } else {
        let head = chain[0];
        if head.spec_is_write_only() {
            Err(PacketError::UnexpectedWriteOnlyDescriptor)
        } else if (head.len as int) < PKT_HEADER_SIZE {
            Err(PacketError::DescriptorLengthTooSmall)
        } else if head.addr + PKT_HEADER_SIZE > m.len() {
            Err(PacketError::InvalidMemoryAccess)
        } else {
            let hdr = spec_parse_header(m.subrange(head.addr as int, head.addr + PKT_HEADER_SIZE));
            if hdr.len == 0 {
                Ok(PacketView { header_addr: head.addr as usize, data: None, header: hdr })
            } else if hdr.len > max_data_size {
                Err(PacketError::InvalidHeaderLen(hdr.len))
            } else if !head.spec_has_next() && head.len as int - PKT_HEADER_SIZE >= hdr.len {
                if head.addr + PKT_HEADER_SIZE + hdr.len > m.len() {
                    Err(PacketError::InvalidMemoryAccess)
                } else {
                    Ok(
                        PacketView {
                            header_addr: head.addr as usize,
                            data: Some(
                                DataRegion {
                                    addr: (head.addr + PKT_HEADER_SIZE) as usize,
                                    len: hdr.len as usize,
                                },
                            ),
                            header: hdr,
                        },
                    )
                }
            } else if !head.spec_has_next() {
                Err(PacketError::DescriptorChainTooShort)
            } else if chain.len() < 2 {
                Err(PacketError::DescriptorChainTooShort)
            } else {
                let d = chain[1];
                if d.spec_is_write_only() {
                    Err(PacketError::UnexpectedWriteOnlyDescriptor)
                } else if d.len < hdr.len {
                    Err(PacketError::DescriptorLengthTooSmall)
                } else if d.addr + hdr.len > m.len() {
                    Err(PacketError::InvalidMemoryAccess)
                } else {
                    Ok(
                        PacketView {
                            header_addr: head.addr as usize,
                            data: Some(DataRegion { addr: d.addr as usize, len: hdr.len as usize }),
                            header: hdr,
                        },
                    )
                }
            }
        }
    }
}

/// Decode the header cache from a header-sized byte slice.
fn parse_header_slice(b: &[u8]) -> (h: PacketHeader)
    requires
        b@.len() == PKT_HEADER_SIZE,
    ensures
        h == spec_parse_header(b@),
{
    PacketHeader {
        src_cid: u64_from_le_bytes(slice_subrange(b, 0, 8)),
        dst_cid: u64_from_le_bytes(slice_subrange(b, 8, 16)),
        src_port: u32_from_le_bytes(slice_subrange(b, 16, 20)),
        dst_port: u32_from_le_bytes(slice_subrange(b, 20, 24)),
        len: u32_from_le_bytes(slice_subrange(b, 24, 28)),
        type_: u16_from_le_bytes(slice_subrange(b, 28, 30)),
        op: u16_from_le_bytes(slice_subrange(b, 30, 32)),
        flags: u32_from_le_bytes(slice_subrange(b, 32, 36)),
        buf_alloc: u32_from_le_bytes(slice_subrange(b, 36, 40)),
        fwd_cnt: u32_from_le_bytes(slice_subrange(b, 40, 44)),
    }
}

impl PacketView {
    /// Receive-path constructor; see [`spec_from_rx`] for the rules it
    /// decides by.
    pub fn from_rx_chain(mem: &GuestMem, chain: &Vec<DescriptorEntry>, max_data_size: u32) -> (r:
        Result<PacketView, PacketError>)
        ensures
            r == spec_from_rx(mem@, chain@, max_data_size),
            r is Ok ==> r.unwrap().wf(mem@.len()),
    {
        let msize: usize = mem.size();
        if chain.len() == 0 {
            return Err(PacketError::DescriptorChainTooShort);
        }
        let head = chain[0];
        if !head.is_write_only() {
            return Err(PacketError::UnexpectedReadOnlyDescriptor);
        }
        if (head.len as usize) < PKT_HEADER_SIZE {
            return Err(PacketError::DescriptorLengthTooSmall);
        }
        if msize < PKT_HEADER_SIZE || head.addr > (msize - PKT_HEADER_SIZE) as u64 {
            return Err(PacketError::InvalidMemoryAccess);
        }
        let header_addr: usize = head.addr as usize;
        if !head.has_next() {
            if (head.len as usize) > PKT_HEADER_SIZE {
                if (head.len as u64) > msize as u64 - head.addr {
                    return Err(PacketError::InvalidMemoryAccess);
                }
                return Ok(
                    PacketView {
                        header_addr,
                        data: Some(
                            DataRegion {
                                addr: header_addr + PKT_HEADER_SIZE,
                                len: head.len as usize - PKT_HEADER_SIZE,
                            },
                        ),
                        header: header_zeroed(),
                    },
                );
            }
            return Ok(PacketView { header_addr, data: None, header: header_zeroed() });
        }
        if chain.len() < 2 {
            return Err(PacketError::DescriptorChainTooShort);
        }
        let d = chain[1];
        if !d.is_write_only() {
            return Err(PacketError::UnexpectedReadOnlyDescriptor);
        }
        if d.len > max_data_size {
            return Err(PacketError::DescriptorLengthTooLong);
        }
        if d.len == 0 {
            return Ok(PacketView { header_addr, data: None, header: header_zeroed() });
        }
        if d.addr > msize as u64 || (d.len as u64) > msize as u64 - d.addr {
            return Err(PacketError::InvalidMemoryAccess);
        }
        Ok(
            PacketView {
                header_addr,
                data: Some(DataRegion { addr: d.addr as usize, len: d.len as usize }),
                header: header_zeroed(),
            },
        )
    }

    /// Transmit-path constructor; see [`spec_from_tx`] for the rules it
    /// decides by.
    pub fn from_tx_chain(mem: &GuestMem, chain: &Vec<DescriptorEntry>, max_data_size: u32) -> (r:
        Result<PacketView, PacketError>)
        ensures
            r == spec_from_tx(mem@, chain@, max_data_size),
            r is Ok ==> r.unwrap().wf(mem@.len()),
    {
        let msize: usize = mem.size();
        if chain.len() == 0 {
            return Err(PacketError::DescriptorChainTooShort);
        }
        let head = chain[0];
        if head.is_write_only() {
            return Err(PacketError::UnexpectedWriteOnlyDescriptor);
        }
        if (head.len as usize) < PKT_HEADER_SIZE {
            return Err(PacketError::DescriptorLengthTooSmall);
        }
        if msize < PKT_HEADER_SIZE || head.addr > (msize - PKT_HEADER_SIZE) as u64 {
            return Err(PacketError::InvalidMemoryAccess);
        }
        let header_addr: usize = head.addr as usize;
        let hbytes = mem.read_bytes(header_addr, PKT_HEADER_SIZE);
        let hdr = parse_header_slice(hbytes.as_slice());
        if hdr.len == 0 {
            return Ok(PacketView { header_addr, data: None, header: hdr });
        }
        if hdr.len > max_data_size {
            return Err(PacketError::InvalidHeaderLen(hdr.len));
        }
        if !head.has_next() && head.len - (PKT_HEADER_SIZE as u32) >= hdr.len {
            if (hdr.len as u64) > msize as u64 - head.addr - (PKT_HEADER_SIZE as u64) {
                return Err(PacketError::InvalidMemoryAccess);
            }
            return Ok(
                PacketView {
                    header_addr,
                    data: Some(
                        DataRegion { addr: header_addr + PKT_HEADER_SIZE, len: hdr.len as usize },
                    ),
                    header: hdr,
                },
            );
        }
        if !head.has_next() {
            return Err(PacketError::DescriptorChainTooShort);
        }
        if chain.len() < 2 {
            return Err(PacketError::DescriptorChainTooShort);
        }
        let d = chain[1];
        if d.is_write_only() {
            return Err(PacketError::UnexpectedWriteOnlyDescriptor);
        }
        if d.len < hdr.len {
            return Err(PacketError::DescriptorLengthTooSmall);
        }
        if d.addr > msize as u64 || (hdr.len as u64) > msize as u64 - d.addr {
            return Err(PacketError::InvalidMemoryAccess);
        }
        Ok(
            PacketView {
                header_addr,
                data: Some(DataRegion { addr: d.addr as usize, len: hdr.len as usize }),
                header: hdr,
            },
        )
    }
}


/// `h` with its `src_cid` field replaced.
pub open spec fn spec_with_src_cid(h: PacketHeader, v: u64) -> PacketHeader {
    PacketHeader { src_cid: v, ..h }
}

/// `h` with its `dst_cid` field replaced.
pub open spec fn spec_with_dst_cid(h: PacketHeader, v: u64) -> PacketHeader {
    PacketHeader { dst_cid: v, ..h }
}

/// `h` with its `src_port` field replaced.
pub open spec fn spec_with_src_port(h: PacketHeader, v: u32) -> PacketHeader {
    PacketHeader { src_port: v, ..h }
}

/// `h` with its `dst_port` field replaced.
pub open spec fn spec_with_dst_port(h: PacketHeader, v: u32) -> PacketHeader {
    PacketHeader { dst_port: v, ..h }
}

/// `h` with its `len` field replaced.
pub open spec fn spec_with_len(h: PacketHeader, v: u32) -> PacketHeader {
    PacketHeader { len: v, ..h }
}

/// `h` with its `type_` field replaced.
pub open spec fn spec_with_type_(h: PacketHeader, v: u16) -> PacketHeader {
    PacketHeader { type_: v, ..h }
}

/// `h` with its `op` field replaced.
pub open spec fn spec_with_op(h: PacketHeader, v: u16) -> PacketHeader {
    PacketHeader { op: v, ..h }
}

/// `h` with its `flags` field replaced.
pub open spec fn spec_with_flags(h: PacketHeader, v: u32) -> PacketHeader {
    PacketHeader { flags: v, ..h }
}

/// `h` with its `buf_alloc` field replaced.
pub open spec fn spec_with_buf_alloc(h: PacketHeader, v: u32) -> PacketHeader {
    PacketHeader { buf_alloc: v, ..h }
}

/// `h` with its `fwd_cnt` field replaced.
pub open spec fn spec_with_fwd_cnt(h: PacketHeader, v: u32) -> PacketHeader {
    PacketHeader { fwd_cnt: v, ..h }
}

impl PacketView {
    /// Return the `src_cid` field of the cached header.
    pub fn src_cid(&self) -> (r: u64)
        ensures
            r == self.header.src_cid,
    {
        self.header.src_cid
    }

    /// Set the `src_cid` field, in the cached header and in the header region
    /// in guest memory.
    pub fn set_src_cid(&mut self, mem: &mut GuestMem, cid: u64)
        requires
            old(self).wf(old(mem)@.len()),
        ensures
            final(self).header == spec_with_src_cid(old(self).header, cid),
            final(self).header_addr == old(self).header_addr,
            final(self).data == old(self).data,
            final(mem)@ == spec_write_bytes(
                old(mem)@,
                old(self).header_addr + SRC_CID_OFFSET,
                spec_u64_to_le_bytes(cid),
            ),
            final(self).wf(final(mem)@.len()),
    {
        self.header.src_cid = cid;
        let msize: usize = mem.size();
        let b = u64_to_le_bytes(cid);
        mem.write_bytes(self.header_addr + SRC_CID_OFFSET, b.as_slice());
    }

    /// Return the `dst_cid` field of the cached header.
    pub fn dst_cid(&self) -> (r: u64)
        ensures
            r == self.header.dst_cid,
    {
        self.header.dst_cid
    }

    /// Set the `dst_cid` field, in the cached header and in the header region
    /// in guest memory.
    pub fn set_dst_cid(&mut self, mem: &mut GuestMem, cid: u64)
        requires
            old(self).wf(old(mem)@.len()),
        ensures
            final(self).header == spec_with_dst_cid(old(self).header, cid),
            final(self).header_addr == old(self).header_addr,
            final(self).data == old(self).data,
            final(mem)@ == spec_write_bytes(
                old(mem)@,
                old(self).header_addr + DST_CID_OFFSET,
                spec_u64_to_le_bytes(cid),
            ),
            final(self).wf(final(mem)@.len()),
    {
        self.header.dst_cid = cid;
        let msize: usize = mem.size();
        let b = u64_to_le_bytes(cid);
        mem.write_bytes(self.header_addr + DST_CID_OFFSET, b.as_slice());
    }

    /// Return the `src_port` field of the cached header.
    pub fn src_port(&self) -> (r: u32)
        ensures
            r == self.header.src_port,
    {
        self.header.src_port
    }

    /// Set the `src_port` field, in the cached header and in the header region
    /// in guest memory.
    pub fn set_src_port(&mut self, mem: &mut GuestMem, port: u32)
        requires
            old(self).wf(old(mem)@.len()),
        ensures
            final(self).header == spec_with_src_port(old(self).header, port),
            final(self).header_addr == old(self).header_addr,
            final(self).data == old(self).data,
            final(mem)@ == spec_write_bytes(
                old(mem)@,
                old(self).header_addr + SRC_PORT_OFFSET,
                spec_u32_to_le_bytes(port),
            ),
            final(self).wf(final(mem)@.len()),
    {
        self.header.src_port = port;
        let msize: usize = mem.size();
        let b = u32_to_le_bytes(port);
        mem.write_bytes(self.header_addr + SRC_PORT_OFFSET, b.as_slice());
    }

    /// Return the `dst_port` field of the cached header.
    pub fn dst_port(&self) -> (r: u32)
        ensures
            r == self.header.dst_port,
    {
        self.header.dst_port
    }

    /// Set the `dst_port` field, in the cached header and in the header region
    /// in guest memory.
    pub fn set_dst_port(&mut self, mem: &mut GuestMem, port: u32)
        requires
            old(self).wf(old(mem)@.len()),
        ensures
            final(self).header == spec_with_dst_port(old(self).header, port),
            final(self).header_addr == old(self).header_addr,
            final(self).data == old(self).data,
            final(mem)@ == spec_write_bytes(
                old(mem)@,
                old(self).header_addr + DST_PORT_OFFSET,
                spec_u32_to_le_bytes(port),
            ),
            final(self).wf(final(mem)@.len()),
    {
        self.header.dst_port = port;
        let msize: usize = mem.size();
        let b = u32_to_le_bytes(port);
        mem.write_bytes(self.header_addr + DST_PORT_OFFSET, b.as_slice());
    }

    /// Return the `len` field of the cached header.
    pub fn len(&self) -> (r: u32)
        ensures
            r == self.header.len,
    {
        self.header.len
    }

    /// Set the `len` field, in the cached header and in the header region
    /// in guest memory.
    pub fn set_len(&mut self, mem: &mut GuestMem, len: u32)
        requires
            old(self).wf(old(mem)@.len()),
        ensures
            final(self).header == spec_with_len(old(self).header, len),
            final(self).header_addr == old(self).header_addr,
            final(self).data == old(self).data,
            final(mem)@ == spec_write_bytes(
                old(mem)@,
                old(self).header_addr + LEN_OFFSET,
                spec_u32_to_le_bytes(len),
            ),
            final(self).wf(final(mem)@.len()),
    {
        self.header.len = len;
        let msize: usize = mem.size();
        let b = u32_to_le_bytes(len);
        mem.write_bytes(self.header_addr + LEN_OFFSET, b.as_slice());
    }

    /// Return the `type_` field of the cached header.
    pub fn type_(&self) -> (r: u16)
        ensures
            r == self.header.type_,
    {
        self.header.type_
    }

    /// Set the `type_` field, in the cached header and in the header region
    /// in guest memory.
    pub fn set_type(&mut self, mem: &mut GuestMem, type_: u16)
        requires
            old(self).wf(old(mem)@.len()),
        ensures
            final(self).header == spec_with_type_(old(self).header, type_),
            final(self).header_addr == old(self).header_addr,
            final(self).data == old(self).data,
            final(mem)@ == spec_write_bytes(
                old(mem)@,
                old(self).header_addr + TYPE_OFFSET,
                spec_u16_to_le_bytes(type_),
            ),
            final(self).wf(final(mem)@.len()),
    {
        self.header.type_ = type_;
        let msize: usize = mem.size();
        let b = u16_to_le_bytes(type_);
        mem.write_bytes(self.header_addr + TYPE_OFFSET, b.as_slice());
    }

    /// Return the `op` field of the cached header.
    pub fn op(&self) -> (r: u16)
        ensures
            r == self.header.op,
    {
        self.header.op
    }

    /// Set the `op` field, in the cached header and in the header region
    /// in guest memory.
    pub fn set_op(&mut self, mem: &mut GuestMem, op: u16)
        requires
            old(self).wf(old(mem)@.len()),
        ensures
            final(self).header == spec_with_op(old(self).header, op),
            final(self).header_addr == old(self).header_addr,
            final(self).data == old(self).data,
            final(mem)@ == spec_write_bytes(
                old(mem)@,
                old(self).header_addr + OP_OFFSET,
                spec_u16_to_le_bytes(op),
            ),
            final(self).wf(final(mem)@.len()),
    {
        self.header.op = op;
        let msize: usize = mem.size();
        let b = u16_to_le_bytes(op);
        mem.write_bytes(self.header_addr + OP_OFFSET, b.as_slice());
    }

    /// Return the `flags` field of the cached header.
    pub fn flags(&self) -> (r: u32)
        ensures
            r == self.header.flags,
    {
        self.header.flags
    }

    /// Set the `flags` field, in the cached header and in the header region
    /// in guest memory.
    pub fn set_flags(&mut self, mem: &mut GuestMem, flags: u32)
        requires
            old(self).wf(old(mem)@.len()),
        ensures
            final(self).header == spec_with_flags(old(self).header, flags),
            final(self).header_addr == old(self).header_addr,
            final(self).data == old(self).data,
            final(mem)@ == spec_write_bytes(
                old(mem)@,
                old(self).header_addr + FLAGS_OFFSET,
                spec_u32_to_le_bytes(flags),
            ),
            final(self).wf(final(mem)@.len()),
    {
        self.header.flags = flags;
        let msize: usize = mem.size();
        let b = u32_to_le_bytes(flags);
        mem.write_bytes(self.header_addr + FLAGS_OFFSET, b.as_slice());
    }

    /// Return the `buf_alloc` field of the cached header.
    pub fn buf_alloc(&self) -> (r: u32)
        ensures
            r == self.header.buf_alloc,
    {
        self.header.buf_alloc
    }

    /// Set the `buf_alloc` field, in the cached header and in the header region
    /// in guest memory.
    pub fn set_buf_alloc(&mut self, mem: &mut GuestMem, buf_alloc: u32)
        requires
            old(self).wf(old(mem)@.len()),
        ensures
            final(self).header == spec_with_buf_alloc(old(self).header, buf_alloc),
            final(self).header_addr == old(self).header_addr,
            final(self).data == old(self).data,
            final(mem)@ == spec_write_bytes(
                old(mem)@,
                old(self).header_addr + BUF_ALLOC_OFFSET,
                spec_u32_to_le_bytes(buf_alloc),
            ),
            final(self).wf(final(mem)@.len()),
    {
        self.header.buf_alloc = buf_alloc;
        let msize: usize = mem.size();
        let b = u32_to_le_bytes(buf_alloc);
        mem.write_bytes(self.header_addr + BUF_ALLOC_OFFSET, b.as_slice());
    }

    /// Return the `fwd_cnt` field of the cached header.
    pub fn fwd_cnt(&self) -> (r: u32)
        ensures
            r == self.header.fwd_cnt,
    {
        self.header.fwd_cnt
    }

    /// Set the `fwd_cnt` field, in the cached header and in the header region
    /// in guest memory.
    pub fn set_fwd_cnt(&mut self, mem: &mut GuestMem, fwd_cnt: u32)
        requires
            old(self).wf(old(mem)@.len()),
        ensures
            final(self).header == spec_with_fwd_cnt(old(self).header, fwd_cnt),
            final(self).header_addr == old(self).header_addr,
            final(self).data == old(self).data,
            final(mem)@ == spec_write_bytes(
                old(mem)@,
                old(self).header_addr + FWD_CNT_OFFSET,
                spec_u32_to_le_bytes(fwd_cnt),
            ),
            final(self).wf(final(mem)@.len()),
    {
        self.header.fwd_cnt = fwd_cnt;
        let msize: usize = mem.size();
        let b = u32_to_le_bytes(fwd_cnt);
        mem.write_bytes(self.header_addr + FWD_CNT_OFFSET, b.as_slice());
    }

    /// Whether the cached header's `len` field is zero.
    pub fn is_empty(&self) -> (r: bool)
        ensures
            r == (self.header.len == 0),
    {
        self.header.len == 0
    }

    /// Set one flag bit: the cached `flags` field, and the header region in
    /// guest memory, receive the bitwise-or of the old field and `flag`.
    pub fn set_flag(&mut self, mem: &mut GuestMem, flag: u32)
        requires
            old(self).wf(old(mem)@.len()),
        ensures
            final(self).header == spec_with_flags(
                old(self).header,
                old(self).header.flags | flag,
            ),
            final(self).header_addr == old(self).header_addr,
            final(self).data == old(self).data,
            final(mem)@ == spec_write_bytes(
                old(mem)@,
                old(self).header_addr + FLAGS_OFFSET,
                spec_u32_to_le_bytes(old(self).header.flags | flag),
            ),
            final(self).wf(final(mem)@.len()),
    {
        let f: u32 = self.header.flags | flag;
        self.set_flags(mem, f);
    }

    /// Overwrite the whole header region from a raw byte buffer, bypassing
    /// the field setters. A buffer whose length is not exactly the header
    /// size is rejected and nothing is written — in particular a longer
    /// buffer never spills past the header region. On success the cache is
    /// re-decoded from the new bytes.
    pub fn set_header_from_raw(&mut self, mem: &mut GuestMem, bytes: &[u8]) -> (r: Result<
        (),
        PacketError,
    >)
        requires
            old(self).wf(old(mem)@.len()),
        ensures
            bytes@.len() != PKT_HEADER_SIZE ==> r == Err::<(), PacketError>(
                PacketError::InvalidHeaderInputSize(bytes@.len() as usize),
            ) && *final(self) == *old(self) && final(mem)@ == old(mem)@,
            bytes@.len() == PKT_HEADER_SIZE ==> r == Ok::<(), PacketError>(())
                && final(mem)@ == spec_write_bytes(old(mem)@, old(self).header_addr as int, bytes@)
                && final(self).header == spec_parse_header(bytes@)
                && final(self).header_addr == old(self).header_addr
                && final(self).data == old(self).data,
            final(self).wf(final(mem)@.len()),
    {
        if bytes.len() != PKT_HEADER_SIZE {
            return Err(PacketError::InvalidHeaderInputSize(bytes.len()));
        }
        mem.write_bytes(self.header_addr, bytes);
        self.header = parse_header_slice(bytes);
        Ok(())
    }

    /// Copy the header region out of guest memory.
    pub fn header_slice(&self, mem: &GuestMem) -> (r: Vec<u8>)
        requires
            self.wf(mem@.len()),
        ensures
            r@ == mem@.subrange(self.header_addr as int, self.header_addr + PKT_HEADER_SIZE),
    {
        mem.read_bytes(self.header_addr, PKT_HEADER_SIZE)
    }

    /// Copy the data region out of guest memory, if the packet has one.
    pub fn data_slice(&self, mem: &GuestMem) -> (r: Option<Vec<u8>>)
        requires
            self.wf(mem@.len()),
        ensures
            r is Some <==> self.data is Some,
            self.data is Some ==> r.unwrap()@ == mem@.subrange(
                self.data.unwrap().addr as int,
                self.data.unwrap().addr + self.data.unwrap().len,
            ),
    {
        match self.data {
            Some(d) => Some(mem.read_bytes(d.addr, d.len)),
            None => None,
        }
    }
}

/// Construction rejects short headers: a chain whose header-carrying entry
/// is shorter than the fixed header size is refused by both initialization
/// strategies, whatever the memory contents, the entry's direction flags and
/// the negotiated maximum are.
pub proof fn lemma_short_header_rejected(
    m: Seq<u8>,
    chain: Seq<DescriptorEntry>,
    max_data_size: u32,
)
    requires
        chain.len() > 0,
        (chain[0].len as int) < PKT_HEADER_SIZE,
    ensures
        spec_from_rx(m, chain, max_data_size) is Err,
        spec_from_tx(m, chain, max_data_size) is Err,
{
}

/// The all-zero header cache the receive path starts from.
fn header_zeroed() -> (h: PacketHeader)
    ensures
        h == spec_header_zeroed(),
{
    PacketHeader {
        src_cid: 0,
        dst_cid: 0,
        src_port: 0,
        dst_port: 0,
        len: 0,
        type_: 0,
        op: 0,
        flags: 0,
        buf_alloc: 0,
        fwd_cnt: 0,
    }
}

} // verus!
