use runtime_tracing::{EventLogKind, TypeKind};

#[test]
fn type_kinds_are_numbered_in_order() {
    assert_eq!(TypeKind::SeqKind.to_u8(), 0);
    assert_eq!(TypeKind::SetKind.to_u8(), 1);
    assert_eq!(TypeKind::Struct.to_u8(), 6);
    assert_eq!(TypeKind::Int.to_u8(), 7);
    assert_eq!(TypeKind::Float.to_u8(), 8);
    assert_eq!(TypeKind::String.to_u8(), 9);
    assert_eq!(TypeKind::Bool.to_u8(), 12);
    assert_eq!(TypeKind::Raw.to_u8(), 16);
    assert_eq!(TypeKind::Pointer.to_u8(), 23);
    assert_eq!(TypeKind::Error.to_u8(), 24);
    assert_eq!(TypeKind::Tuple.to_u8(), 27);
    assert_eq!(TypeKind::Variant.to_u8(), 28);
    assert_eq!(TypeKind::NoneKind.to_u8(), 30);
    assert_eq!(TypeKind::Slice.to_u8(), 33);
}

#[test]
fn type_kinds_are_read_back() {
    for n in 0u8..34 {
        let kind = TypeKind::from_u8(n).unwrap();
        assert_eq!(kind.to_u8(), n);
    }
    assert!(TypeKind::from_u8(0) == Some(TypeKind::SeqKind));
    assert!(TypeKind::from_u8(30) == Some(TypeKind::NoneKind));
    assert!(TypeKind::from_u8(33) == Some(TypeKind::Slice));
    assert!(TypeKind::from_u8(34).is_none());
    assert!(TypeKind::from_u8(255).is_none());
}

#[test]
fn event_kinds_are_numbered_in_order() {
    assert_eq!(EventLogKind::Write.to_u8(), 0);
    assert_eq!(EventLogKind::WriteFile.to_u8(), 1);
    assert_eq!(EventLogKind::Read.to_u8(), 3);
    assert_eq!(EventLogKind::Socket.to_u8(), 9);
    assert_eq!(EventLogKind::Error.to_u8(), 11);
    assert_eq!(EventLogKind::TraceLogEvent.to_u8(), 12);
    for n in 0u8..13 {
        assert_eq!(EventLogKind::from_u8(n).unwrap().to_u8(), n);
    }
    assert!(EventLogKind::from_u8(13).is_none());
}

#[test]
fn default_kinds() {
    assert!(TypeKind::default() == TypeKind::SeqKind);
    assert!(EventLogKind::default() == EventLogKind::Write);
}
