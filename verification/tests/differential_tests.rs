//! Differential tests: the library's packet constructors against the real
//! packet-protocol collaborator, run over equivalent descriptor chains and
//! byte-identical guest memory contents.
use virtio_queue::mock::MockSplitQueue;
use virtio_queue::desc::split::Descriptor as SplitDescriptor;
use virtio_queue::desc::RawDescriptor;
use virtio_vsock::packet::VsockPacket;
use vm_memory::{Bytes, GuestAddress, GuestMemoryMmap};
use vsock_fuzz::chain::{DescriptorEntry, VIRTQ_DESC_F_NEXT, VIRTQ_DESC_F_WRITE};
use vsock_fuzz::mem::GuestMem;
use vsock_fuzz::packet::{PacketError, PacketView};
use vsock_fuzz::PKT_HEADER_SIZE;

const MEM_SIZE: usize = 0x10_0000;
const MAX_DATA: u32 = 0x1_0000;

/// The descriptors in the collaborator's raw form; its mock queue then
/// materializes them with the same linear linkage the library's builder
/// uses.
fn raw_chain(entries: &[DescriptorEntry]) -> Vec<RawDescriptor> {
    entries
        .iter()
        .map(|e| RawDescriptor::from(SplitDescriptor::new(e.addr, e.len, e.flags, 0)))
        .collect()
}

/// The library's view of the same chain, with the linkage the builder would
/// produce.
fn own_chain(entries: &[DescriptorEntry]) -> Vec<DescriptorEntry> {
    let n = entries.len();
    entries
        .iter()
        .enumerate()
        .map(|(i, e)| DescriptorEntry {
            addr: e.addr,
            len: e.len,
            flags: if i + 1 == n {
                e.flags & !VIRTQ_DESC_F_NEXT
            } else {
                e.flags | VIRTQ_DESC_F_NEXT
            },
        })
        .collect()
}

#[test]
fn rx_two_writable_descriptors_construct_in_both() {
    let gm = GuestMemoryMmap::<()>::from_ranges(&[(GuestAddress(0), MEM_SIZE)]).unwrap();
    let entries = [
        DescriptorEntry { addr: 0x5_0000, len: 0x100, flags: VIRTQ_DESC_F_WRITE },
        DescriptorEntry { addr: 0x8_0000, len: 0x200, flags: VIRTQ_DESC_F_WRITE },
    ];
    let vq = MockSplitQueue::new(&gm, 16);
    let mut chain = vq.build_desc_chain(&raw_chain(&entries)).unwrap();
    let theirs = VsockPacket::<()>::from_rx_virtq_chain(&gm, &mut chain, MAX_DATA).unwrap();

    let mem = GuestMem::new(MEM_SIZE);
    let ours = PacketView::from_rx_chain(&mem, &own_chain(&entries), MAX_DATA).unwrap();

    assert_eq!(theirs.header_slice().len(), PKT_HEADER_SIZE);
    assert_eq!(ours.header_slice(&mem).len(), PKT_HEADER_SIZE);
    assert_eq!(
        theirs.data_slice().unwrap().len(),
        ours.data_slice(&mem).unwrap().len()
    );
    assert_eq!(ours.data_slice(&mem).unwrap().len(), 0x200);
}

#[test]
fn rx_read_only_head_is_rejected_in_both() {
    let gm = GuestMemoryMmap::<()>::from_ranges(&[(GuestAddress(0), MEM_SIZE)]).unwrap();
    let entries = [
        DescriptorEntry { addr: 0x5_0000, len: 0x100, flags: 0 },
        DescriptorEntry { addr: 0x8_0000, len: 0x200, flags: VIRTQ_DESC_F_WRITE },
    ];
    let vq = MockSplitQueue::new(&gm, 16);
    let mut chain = vq.build_desc_chain(&raw_chain(&entries)).unwrap();
    let theirs = VsockPacket::<()>::from_rx_virtq_chain(&gm, &mut chain, MAX_DATA);
    assert!(matches!(
        theirs.unwrap_err(),
        virtio_vsock::packet::Error::UnexpectedReadOnlyDescriptor
    ));

    let mem = GuestMem::new(MEM_SIZE);
    let ours = PacketView::from_rx_chain(&mem, &own_chain(&entries), MAX_DATA);
    assert_eq!(ours.unwrap_err(), PacketError::UnexpectedReadOnlyDescriptor);
}

#[test]
fn rx_short_header_is_rejected_in_both() {
    let gm = GuestMemoryMmap::<()>::from_ranges(&[(GuestAddress(0), MEM_SIZE)]).unwrap();
    let entries = [
        DescriptorEntry {
            addr: 0x5_0000,
            len: PKT_HEADER_SIZE as u32 - 1,
            flags: VIRTQ_DESC_F_WRITE,
        },
        DescriptorEntry { addr: 0x8_0000, len: 0x200, flags: VIRTQ_DESC_F_WRITE },
    ];
    let vq = MockSplitQueue::new(&gm, 16);
    let mut chain = vq.build_desc_chain(&raw_chain(&entries)).unwrap();
    let theirs = VsockPacket::<()>::from_rx_virtq_chain(&gm, &mut chain, MAX_DATA);
    assert!(matches!(
        theirs.unwrap_err(),
        virtio_vsock::packet::Error::DescriptorLengthTooSmall
    ));

    let mem = GuestMem::new(MEM_SIZE);
    let ours = PacketView::from_rx_chain(&mem, &own_chain(&entries), MAX_DATA);
    assert_eq!(ours.unwrap_err(), PacketError::DescriptorLengthTooSmall);
}

#[test]
fn rx_oversized_data_descriptor_is_rejected_in_both() {
    let gm = GuestMemoryMmap::<()>::from_ranges(&[(GuestAddress(0), MEM_SIZE)]).unwrap();
    let entries = [
        DescriptorEntry { addr: 0x5_0000, len: 0x100, flags: VIRTQ_DESC_F_WRITE },
        DescriptorEntry { addr: 0x8_0000, len: MAX_DATA + 1, flags: VIRTQ_DESC_F_WRITE },
    ];
    let vq = MockSplitQueue::new(&gm, 16);
    let mut chain = vq.build_desc_chain(&raw_chain(&entries)).unwrap();
    let theirs = VsockPacket::<()>::from_rx_virtq_chain(&gm, &mut chain, MAX_DATA);
    assert!(matches!(
        theirs.unwrap_err(),
        virtio_vsock::packet::Error::DescriptorLengthTooLong
    ));

    let mem = GuestMem::new(MEM_SIZE);
    let ours = PacketView::from_rx_chain(&mem, &own_chain(&entries), MAX_DATA);
    assert_eq!(ours.unwrap_err(), PacketError::DescriptorLengthTooLong);
}

#[test]
fn tx_header_fields_parse_identically() {
    let gm = GuestMemoryMmap::<()>::from_ranges(&[(GuestAddress(0), MEM_SIZE)]).unwrap();
    let mut header = vec![0u8; PKT_HEADER_SIZE];
    header[0..8].copy_from_slice(&0x0102030405060708u64.to_le_bytes());
    header[8..16].copy_from_slice(&0x1112131415161718u64.to_le_bytes());
    header[16..20].copy_from_slice(&0x21222324u32.to_le_bytes());
    header[20..24].copy_from_slice(&0x31323334u32.to_le_bytes());
    // len = 0: a packet without a data region.
    header[28..30].copy_from_slice(&0x4142u16.to_le_bytes());
    header[30..32].copy_from_slice(&0x5152u16.to_le_bytes());
    header[32..36].copy_from_slice(&0x61626364u32.to_le_bytes());
    header[36..40].copy_from_slice(&0x71727374u32.to_le_bytes());
    header[40..44].copy_from_slice(&0x81828384u32.to_le_bytes());
    gm.write_slice(&header, GuestAddress(0x5_0000)).unwrap();

    let entries = [DescriptorEntry { addr: 0x5_0000, len: 0x100, flags: 0 }];
    let vq = MockSplitQueue::new(&gm, 16);
    let mut chain = vq.build_desc_chain(&raw_chain(&entries)).unwrap();
    let theirs = VsockPacket::<()>::from_tx_virtq_chain(&gm, &mut chain, MAX_DATA).unwrap();

    let mut mem = GuestMem::new(MEM_SIZE);
    mem.write_bytes(0x5_0000, &header);
    let ours = PacketView::from_tx_chain(&mem, &own_chain(&entries), MAX_DATA).unwrap();

    assert_eq!(theirs.src_cid(), ours.src_cid());
    assert_eq!(theirs.dst_cid(), ours.dst_cid());
    assert_eq!(theirs.src_port(), ours.src_port());
    assert_eq!(theirs.dst_port(), ours.dst_port());
    assert_eq!(theirs.len(), ours.len());
    assert_eq!(theirs.is_empty(), ours.is_empty());
    assert_eq!(theirs.type_(), ours.type_());
    assert_eq!(theirs.op(), ours.op());
    assert_eq!(theirs.flags(), ours.flags());
    assert_eq!(theirs.buf_alloc(), ours.buf_alloc());
    assert_eq!(theirs.fwd_cnt(), ours.fwd_cnt());
    assert_eq!(ours.src_cid(), 0x0102030405060708);
}

#[test]
fn tx_header_len_over_maximum_is_rejected_in_both() {
    let gm = GuestMemoryMmap::<()>::from_ranges(&[(GuestAddress(0), MEM_SIZE)]).unwrap();
    let mut header = vec![0u8; PKT_HEADER_SIZE];
    header[24..28].copy_from_slice(&(MAX_DATA + 1).to_le_bytes());
    gm.write_slice(&header, GuestAddress(0x5_0000)).unwrap();

    let entries = [
        DescriptorEntry { addr: 0x5_0000, len: 0x100, flags: 0 },
        DescriptorEntry { addr: 0x8_0000, len: MAX_DATA + 1, flags: 0 },
    ];
    let vq = MockSplitQueue::new(&gm, 16);
    let mut chain = vq.build_desc_chain(&raw_chain(&entries)).unwrap();
    let theirs = VsockPacket::<()>::from_tx_virtq_chain(&gm, &mut chain, MAX_DATA);
    assert!(matches!(
        theirs.unwrap_err(),
        virtio_vsock::packet::Error::InvalidHeaderLen(l) if l == MAX_DATA + 1
    ));

    let mut mem = GuestMem::new(MEM_SIZE);
    mem.write_bytes(0x5_0000, &header);
    let ours = PacketView::from_tx_chain(&mem, &own_chain(&entries), MAX_DATA);
    assert_eq!(ours.unwrap_err(), PacketError::InvalidHeaderLen(MAX_DATA + 1));
}

#[test]
fn tx_single_descriptor_data_reads_identically() {
    let gm = GuestMemoryMmap::<()>::from_ranges(&[(GuestAddress(0), MEM_SIZE)]).unwrap();
    let mut bytes = vec![0u8; PKT_HEADER_SIZE + 6];
    bytes[24..28].copy_from_slice(&6u32.to_le_bytes());
    bytes[PKT_HEADER_SIZE..].copy_from_slice(&[10, 20, 30, 40, 50, 60]);
    gm.write_slice(&bytes, GuestAddress(0x5_0000)).unwrap();

    let entries = [DescriptorEntry {
        addr: 0x5_0000,
        len: PKT_HEADER_SIZE as u32 + 6,
        flags: 0,
    }];
    let vq = MockSplitQueue::new(&gm, 16);
    let mut chain = vq.build_desc_chain(&raw_chain(&entries)).unwrap();
    let theirs = VsockPacket::<()>::from_tx_virtq_chain(&gm, &mut chain, MAX_DATA).unwrap();
    let mut their_data = vec![0u8; 6];
    theirs
        .data_slice()
        .unwrap()
        .read_slice(&mut their_data, 0)
        .unwrap();

    let mut mem = GuestMem::new(MEM_SIZE);
    mem.write_bytes(0x5_0000, &bytes);
    let ours = PacketView::from_tx_chain(&mem, &own_chain(&entries), MAX_DATA).unwrap();
    assert_eq!(ours.data_slice(&mem).unwrap(), their_data);
    assert_eq!(their_data, vec![10, 20, 30, 40, 50, 60]);
}
