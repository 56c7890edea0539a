//! Cross-checks against the outside packet-protocol and memory collaborators:
//! the harness's fixed header size and clamped raw-write semantics must agree
//! with what the real crates do.
use vm_memory::{Bytes, GuestAddress, GuestMemoryMmap};
use vsock_fuzz::mem::GuestMem;

#[test]
fn header_size_matches_packet_protocol_collaborator() {
    assert_eq!(vsock_fuzz::PKT_HEADER_SIZE, virtio_vsock::packet::PKT_HEADER_SIZE);
}

#[test]
fn clamped_write_matches_memory_collaborator() {
    let gm = GuestMemoryMmap::<()>::from_ranges(&[(GuestAddress(0), 0x1000)]).unwrap();
    let mut own = GuestMem::new(0x1000);

    // A write that runs past the end: the collaborator writes the fitting
    // prefix and reports an error; the model does the same.
    let buf = [1u8, 2, 3, 4, 5, 6, 7, 8];
    assert!(gm.write_slice(&buf, GuestAddress(0xffc)).is_err());
    assert!(!own.write_slice_clamped(0xffc, &buf));
    let mut tail = [0u8; 4];
    gm.read_slice(&mut tail, GuestAddress(0xffc)).unwrap();
    assert_eq!(&tail, &[1, 2, 3, 4]);
    assert_eq!(&own.as_bytes()[0xffc..0x1000], &[1, 2, 3, 4]);

    // A write entirely out of range: both reject it and write nothing.
    assert!(gm.write_slice(&buf, GuestAddress(0x2000)).is_err());
    assert!(!own.write_slice_clamped(0x2000, &buf));

    // A write that fits: both accept it and store the same bytes.
    assert!(gm.write_slice(&buf, GuestAddress(0x100)).is_ok());
    assert!(own.write_slice_clamped(0x100, &buf));
    let mut got = [0u8; 8];
    gm.read_slice(&mut got, GuestAddress(0x100)).unwrap();
    assert_eq!(&got[..], &own.as_bytes()[0x100..0x108]);
}
