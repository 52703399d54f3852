use bacnet::codec::{DecodeError, Encode};
use bacnet::network::{
    Apdu, NPDUContent, NPDUDest, NPDUMessage, NPDUPriority, NPDUSource, NPDU,
};

fn empty_apdu() -> NPDUContent {
    NPDUContent::APDU(Apdu::new(vec![]))
}

#[test]
fn test_encode_npdu() {
    let content = empty_apdu();
    let npdu = NPDU::new(content, None, None, NPDUPriority::Normal);

    let mut w: Vec<u8> = Vec::new();
    npdu.encode(&mut w);
    assert_eq!(w, vec![1, 0]);
}

#[test]
fn test_encode_npdu_with_dest() {
    let content = empty_apdu();
    let dest = NPDUDest {
        net: 0x126,
        adr: vec![0; 16],
        hops: 255,
    };
    let npdu = NPDU::new(content, Some(dest), None, NPDUPriority::Normal);

    let mut w: Vec<u8> = Vec::new();
    npdu.encode(&mut w);
    assert_eq!(
        w,
        vec![1, 32, 1, 38, 16, 0, 0, 0, 0, 0, 0, 0, 0, 0, 0, 0, 0, 0, 0, 0, 0, 255]
    );
}

#[test]
fn test_encode_npdu_with_source() {
    let content = empty_apdu();
    let source = NPDUSource {
        net: 0x126,
        adr: vec![0; 16],
    };
    let npdu = NPDU::new(content, None, Some(source), NPDUPriority::Normal);

    let mut w: Vec<u8> = Vec::new();
    npdu.encode(&mut w);
    assert_eq!(
        w,
        vec![1, 8, 1, 38, 16, 0, 0, 0, 0, 0, 0, 0, 0, 0, 0, 0, 0, 0, 0, 0, 0]
    );
}

#[test]
fn test_encode_npdu_with_dest_and_source() {
    let content = empty_apdu();
    let dest = NPDUDest {
        net: 0x126,
        adr: vec![0; 16],
        hops: 255,
    };
    let source = NPDUSource {
        net: 0x126,
        adr: vec![0; 16],
    };
    let npdu = NPDU::new(content, Some(dest), Some(source), NPDUPriority::Normal);

    let mut w: Vec<u8> = Vec::new();
    npdu.encode(&mut w);
    assert_eq!(
        w,
        vec![
            1, 40, 1, 38, 16, 0, 0, 0, 0, 0, 0, 0, 0, 0, 0, 0, 0, 0, 0, 0, 0, 1, 38, 16, 0, 0, 0,
            0, 0, 0, 0, 0, 0, 0, 0, 0, 0, 0, 0, 0, 255
        ]
    );
}

#[test]
fn control_byte_flags() {
    let only_dest = NPDU::new(
        empty_apdu(),
        Some(NPDUDest::new(1, 0)),
        None,
        NPDUPriority::Normal,
    );
    assert_eq!(only_dest.control(), 0b0010_0000);

    let only_source = NPDU::new(
        empty_apdu(),
        None,
        Some(NPDUSource::new(1, 0)),
        NPDUPriority::Normal,
    );
    assert_eq!(only_source.control(), 0b0000_1000);

    let both = NPDU::new(
        empty_apdu(),
        Some(NPDUDest::new(1, 0)),
        Some(NPDUSource::new(1, 0)),
        NPDUPriority::Normal,
    );
    assert_eq!(both.control(), 0b0010_1000);

    let mut with_reply = NPDU::new(
        empty_apdu(),
        Some(NPDUDest::new(1, 0)),
        Some(NPDUSource::new(1, 0)),
        NPDUPriority::Normal,
    );
    with_reply.data_expecting_reply = true;
    assert_eq!(with_reply.control(), 0b0010_1100);

    let urgent = NPDU::new(empty_apdu(), Some(NPDUDest::new(1, 0)), None, NPDUPriority::Urgent);
    assert_eq!(urgent.control(), 0b0010_0001);
}

#[test]
fn len_matches_encode() {
    let cases = vec![
        NPDU::new(empty_apdu(), None, None, NPDUPriority::Normal),
        NPDU::new(
            NPDUContent::APDU(Apdu::new(vec![0x10, 0x08])),
            Some(NPDUDest {
                net: 0xffff,
                adr: vec![],
                hops: 255,
            }),
            None,
            NPDUPriority::Normal,
        ),
        NPDU::new(
            NPDUContent::Message(NPDUMessage::WhoIsRouterToNetwork),
            Some(NPDUDest {
                net: 0x126,
                adr: vec![1, 2, 3],
                hops: 9,
            }),
            Some(NPDUSource {
                net: 0x327,
                adr: vec![4, 5],
            }),
            NPDUPriority::LifeSafety,
        ),
    ];
    for npdu in cases {
        let mut w: Vec<u8> = Vec::new();
        npdu.encode(&mut w);
        assert_eq!(npdu.len(), w.len());
    }
}

#[test]
fn decode_roundtrip() {
    let npdu = NPDU::new(
        NPDUContent::APDU(Apdu::new(vec![0x10, 0x08, 0x7f])),
        Some(NPDUDest {
            net: 0x126,
            adr: vec![0xaa, 0xbb],
            hops: 42,
        }),
        Some(NPDUSource {
            net: 0x4455,
            adr: vec![1, 2, 3, 4],
        }),
        NPDUPriority::Urgent,
    );
    let mut w: Vec<u8> = Vec::new();
    npdu.encode(&mut w);
    let decoded = NPDU::decode(&w).expect("decode what encode wrote");
    assert_eq!(decoded, npdu);
}

#[test]
fn decode_scenario_with_dest() {
    let buf = vec![1, 32, 1, 38, 16, 0, 0, 0, 0, 0, 0, 0, 0, 0, 0, 0, 0, 0, 0, 0, 0, 255];
    let npdu = NPDU::decode(&buf).expect("well-formed frame");
    assert_eq!(npdu.version, 1);
    assert_eq!(npdu.priority, NPDUPriority::Normal);
    assert!(!npdu.data_expecting_reply);
    let dest = npdu.destination.expect("destination block present");
    assert_eq!(dest.net, 0x126);
    assert_eq!(dest.adr, vec![0; 16]);
    assert_eq!(dest.hops, 255);
    assert!(npdu.source.is_none());
    assert_eq!(npdu.content, NPDUContent::APDU(Apdu::new(vec![])));
}

#[test]
fn decode_truncated_dest_addr() {
    // The header declares 16 address bytes; none follow.
    let buf = vec![1, 32, 1, 38, 16];
    assert_eq!(NPDU::decode(&buf), Err(DecodeError::Truncated));
}

#[test]
fn decode_short_inputs() {
    assert_eq!(NPDU::decode(&vec![]), Err(DecodeError::Truncated));
    assert_eq!(NPDU::decode(&vec![1]), Err(DecodeError::Truncated));
    // Destination announced, but the input ends inside its header.
    assert_eq!(NPDU::decode(&vec![1, 32, 1]), Err(DecodeError::Truncated));
    // Both blocks read, but the input ends before the hop count.
    assert_eq!(
        NPDU::decode(&vec![1, 40, 1, 38, 0, 1, 38, 0]),
        Err(DecodeError::Truncated)
    );
}

#[test]
fn decode_message_content_unimplemented() {
    let buf = vec![1, 0x80, 0x00];
    assert_eq!(NPDU::decode(&buf), Err(DecodeError::Unimplemented));
}

#[test]
fn message_byte_roundtrip() {
    for b in 0..=255u8 {
        let msg = NPDUMessage::try_from(b).expect("every byte names a message");
        let mut w: Vec<u8> = Vec::new();
        msg.encode(&mut w);
        assert_eq!(w, vec![b]);
        assert_eq!(msg.len(), 1);
    }
}

#[test]
fn message_named_codes() {
    assert_eq!(NPDUMessage::try_from(0x00), Ok(NPDUMessage::WhoIsRouterToNetwork));
    assert_eq!(NPDUMessage::try_from(0x13), Ok(NPDUMessage::NetworkNumberIs));
    assert_eq!(NPDUMessage::try_from(0x14), Ok(NPDUMessage::Reserved(0x14)));
    assert_eq!(NPDUMessage::try_from(0x7f), Ok(NPDUMessage::Reserved(0x7f)));
    assert_eq!(NPDUMessage::try_from(0x80), Ok(NPDUMessage::Proprietary(0x80)));
    assert_eq!(NPDUMessage::try_from(0xff), Ok(NPDUMessage::Proprietary(0xff)));
}

#[test]
fn message_kind_roundtrip() {
    for msg in [
        NPDUMessage::WhoIsRouterToNetwork,
        NPDUMessage::NetworkNumberIs,
        NPDUMessage::Reserved(0x20),
        NPDUMessage::Proprietary(0xd0),
    ] {
        let mut w: Vec<u8> = Vec::new();
        msg.encode(&mut w);
        assert_eq!(NPDUMessage::try_from(w[0]), Ok(msg));
    }
}

#[test]
fn priority_bits_and_default() {
    assert_eq!(u8::from(NPDUPriority::LifeSafety), 0b11);
    assert_eq!(u8::from(NPDUPriority::CriticalEquipment), 0b10);
    assert_eq!(u8::from(NPDUPriority::Urgent), 0b01);
    assert_eq!(u8::from(NPDUPriority::Normal), 0b00);
    assert_eq!(NPDUPriority::default(), NPDUPriority::Normal);
    for b in 0..=3u8 {
        assert_eq!(NPDUPriority::from_bits(b).to_bits(), b);
    }
}

#[test]
fn constructors() {
    let dest = NPDUDest::new(0xffff, 16);
    assert_eq!(dest.net, 0xffff);
    assert!(dest.adr.is_empty());
    assert_eq!(dest.hops, 255);

    let source = NPDUSource::new(0x126, 8);
    assert_eq!(source.net, 0x126);
    assert!(source.adr.is_empty());

    let npdu = NPDU::new(
        NPDUContent::from(Apdu::new(vec![7])),
        None,
        None,
        NPDUPriority::Urgent,
    );
    assert_eq!(npdu.version, 1);
    assert!(!npdu.data_expecting_reply);
    assert_eq!(npdu.priority, NPDUPriority::Urgent);
    assert_eq!(npdu.content, NPDUContent::APDU(Apdu::new(vec![7])));
}
