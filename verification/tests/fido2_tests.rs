use s_kvm::fido2::{
    serialize_response, uhid_event_step, Fido2Error, virtual_device_params, CtapHidMessage, DeviceLoopStep, MessageAssembler,
    UhidEvent, CTAPHID_CBOR, CTAPHID_INIT, FIDO_HID_REPORT_DESCRIPTOR, HID_PACKET_SIZE,
};

#[test]
fn serialize_single_packet_response() {
    let msg = CtapHidMessage { channel_id: 0x00000001, command: CTAPHID_INIT, data: vec![0xAA; 10] };
    let packets = serialize_response(&msg);
    assert_eq!(packets.len(), 1);
    assert_eq!(packets[0].len(), HID_PACKET_SIZE);
    assert_eq!(&packets[0][0..4], &[0, 0, 0, 1]);
    assert_eq!(packets[0][4], 0x80 | CTAPHID_INIT);
    assert_eq!(&packets[0][5..7], &[0, 10]);
    assert_eq!(&packets[0][7..17], &[0xAA; 10]);
}

#[test]
fn serialize_multi_packet_response() {
    let msg = CtapHidMessage { channel_id: 0x00000002, command: CTAPHID_CBOR, data: vec![0xBB; 60] };
    let packets = serialize_response(&msg);
    assert_eq!(packets.len(), 2);
    assert_eq!(packets[0][4], 0x80 | CTAPHID_CBOR);
    assert_eq!(&packets[0][5..7], &[0, 60]);
    assert_eq!(&packets[0][7..64], &[0xBB; 57]);
    assert_eq!(&packets[1][0..4], &[0, 0, 0, 2]);
    assert_eq!(packets[1][4], 0);
    assert_eq!(&packets[1][5..8], &[0xBB; 3]);
}

#[test]
fn assembler_single_packet() {
    let assembler = MessageAssembler::new(1, CTAPHID_CBOR, 5, &[1, 2, 3, 4, 5]);
    assert!(assembler.is_complete());
    let msg = assembler.into_message();
    assert_eq!(msg.data, vec![1, 2, 3, 4, 5]);
}

#[test]
fn assembler_multi_packet() {
    let mut assembler = MessageAssembler::new(1, CTAPHID_CBOR, 10, &[1, 2, 3, 4, 5]);
    assert!(!assembler.is_complete());
    assembler.add_continuation(0, &[6, 7, 8, 9, 10]).unwrap();
    assert!(assembler.is_complete());
    let msg = assembler.into_message();
    assert_eq!(msg.data, vec![1, 2, 3, 4, 5, 6, 7, 8, 9, 10]);
}

#[test]
fn assembler_rejects_wrong_sequence() {
    let mut assembler = MessageAssembler::new(1, CTAPHID_CBOR, 20, &[0; 5]);
    assert!(assembler.add_continuation(1, &[0; 5]).is_err());
}

#[test]
fn wrong_sequence_is_invalid_packet() {
    let mut assembler = MessageAssembler::new(1, CTAPHID_CBOR, 20, &[0; 5]);
    match assembler.add_continuation(1, &[0; 5]) {
        Err(Fido2Error::InvalidPacket(m)) => assert_eq!(m, "expected seq 0, got 1"),
        other => panic!("unexpected {:?}", other),
    }
    assert!(assembler.add_continuation(0, &[0; 5]).is_ok());
}

#[test]
fn serialized_response_reassembles() {
    let data: Vec<u8> = (0..200u32).map(|i| (i % 251) as u8).collect();
    let msg = CtapHidMessage { channel_id: 0x01020304, command: CTAPHID_CBOR, data: data.clone() };
    let packets = serialize_response(&msg);
    assert_eq!(packets.len(), 4);
    let len = ((packets[0][5] as usize) << 8) | packets[0][6] as usize;
    let mut assembler = MessageAssembler::new(0x01020304, CTAPHID_CBOR, len, &packets[0][7..64]);
    for (i, p) in packets[1..].iter().enumerate() {
        assembler.add_continuation(i as u8, &p[5..64]).unwrap();
    }
    assert!(assembler.is_complete());
    assert_eq!(assembler.into_message().data, data);
}

#[test]
fn virtual_device_identity() {
    let p = virtual_device_params();
    assert_eq!(p.name, "S-KVM Virtual FIDO2 Authenticator");
    assert_eq!(p.uniq, "s-kvm-fido2-0");
    assert_eq!(p.vendor, 0x1209);
    assert_eq!(p.product, 0xF1D0);
    assert_eq!(p.report_descriptor, FIDO_HID_REPORT_DESCRIPTOR.to_vec());
}

#[test]
fn uhid_events_drive_the_loop() {
    assert!(matches!(uhid_event_step(UhidEvent::Output(vec![1, 2])), DeviceLoopStep::Forward(ref d) if d == &vec![1, 2]));
    assert!(matches!(uhid_event_step(UhidEvent::Stop), DeviceLoopStep::Stop));
    assert!(matches!(uhid_event_step(UhidEvent::ReadError), DeviceLoopStep::Stop));
    assert!(matches!(uhid_event_step(UhidEvent::Other), DeviceLoopStep::Continue));
}
