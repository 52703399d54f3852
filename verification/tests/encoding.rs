use bacnet::encoding::{ApplicationTag, ContextTag, LengthValueType, Tag, TagNumber};

#[test]
fn application_tag_byte_roundtrip() {
    for b in 0..=255u8 {
        let kind = ApplicationTag::from(b);
        assert_eq!(u8::from(kind), b);
    }
}

#[test]
fn context_tag_byte_roundtrip() {
    for b in 0..=255u8 {
        let kind = ContextTag::from(b);
        assert_eq!(u8::from(kind), b);
        assert_eq!(kind, ContextTag::Other(b));
    }
}

#[test]
fn application_tag_named_codes() {
    assert_eq!(ApplicationTag::from(0), ApplicationTag::Null);
    assert_eq!(ApplicationTag::from(1), ApplicationTag::Boolean);
    assert_eq!(ApplicationTag::from(12), ApplicationTag::BACnetObjectIdentifier);
    assert_eq!(ApplicationTag::from(13), ApplicationTag::Reserved(13));
    assert_eq!(ApplicationTag::from(15), ApplicationTag::Reserved(15));
    assert_eq!(ApplicationTag::from(16), ApplicationTag::Other(16));
    assert_eq!(ApplicationTag::from(200), ApplicationTag::Other(200));
}

#[test]
fn application_tag_kind_roundtrip() {
    // Canonical kinds come back as themselves.
    for kind in [
        ApplicationTag::Null,
        ApplicationTag::CharacterString,
        ApplicationTag::BACnetObjectIdentifier,
        ApplicationTag::Reserved(14),
        ApplicationTag::Other(99),
    ] {
        assert_eq!(ApplicationTag::from(u8::from(kind)), kind);
    }
    // A catch-all carrying a named code comes back as the named kind with
    // the same code.
    let shadowed = ApplicationTag::Other(5);
    let back = ApplicationTag::from(u8::from(shadowed));
    assert_eq!(back, ApplicationTag::Double);
    assert_eq!(u8::from(back), u8::from(ApplicationTag::Other(5)));
}

#[test]
fn tag_is_a_range_view() {
    let tag = Tag {
        tag_number: TagNumber::Application(ApplicationTag::UnsignedInteger),
        lvt: LengthValueType::Length(2),
        data_start: 1,
        data_end: 3,
    };
    assert_eq!(tag.data_start, 1);
    assert_eq!(tag.data_end, 3);
    assert_eq!(
        tag.tag_number,
        TagNumber::Application(ApplicationTag::UnsignedInteger)
    );
    assert_eq!(tag.lvt, LengthValueType::Length(2));
}
