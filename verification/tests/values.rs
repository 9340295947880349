use runtime_tracing::{none_value, Place, TypeId, ValueRecord};

fn sample() -> ValueRecord {
    ValueRecord::Struct {
        field_values: vec![
            ValueRecord::Int { i: -1, type_id: TypeId(1) },
            ValueRecord::Int128 { i: 1i128 << 100, type_id: TypeId(2) },
            ValueRecord::Float { bits: 1.5f64.to_bits(), type_id: TypeId(3) },
            ValueRecord::Bool { b: true, type_id: TypeId(4) },
            ValueRecord::String { text: "text".to_string(), type_id: TypeId(5) },
            ValueRecord::Sequence {
                elements: vec![ValueRecord::Cell { place: Place(7) }, none_value()],
                is_slice: true,
                type_id: TypeId(6),
            },
            ValueRecord::Tuple {
                elements: vec![ValueRecord::Raw { r: "raw".to_string(), type_id: TypeId(7) }],
                type_id: TypeId(8),
            },
            ValueRecord::Variant {
                discriminator: "Some".to_string(),
                contents: Box::new(ValueRecord::Tuple { elements: vec![], type_id: TypeId(8) }),
                type_id: TypeId(9),
            },
            ValueRecord::Reference {
                dereferenced: Box::new(ValueRecord::Error {
                    msg: "unreadable".to_string(),
                    type_id: TypeId(0),
                }),
                address: 0xdead_beef,
                mutable: true,
                type_id: TypeId(10),
            },
            ValueRecord::BigInt { b: vec![1, 0, 255], negative: true, type_id: TypeId(11) },
        ],
        type_id: TypeId(12),
    }
}

#[test]
fn a_clone_is_equal_to_the_value_cloned() {
    let value = sample();
    let copy = value.clone();
    assert_eq!(copy, value);
    assert_eq!(value.duplicate(), value);
}

#[test]
fn a_clone_is_deep() {
    let value = sample();
    let mut copy = value.clone();
    if let ValueRecord::Struct { field_values, .. } = &mut copy {
        field_values[0] = ValueRecord::Int { i: 0, type_id: TypeId(1) };
    }
    assert_ne!(copy, value);
    assert_eq!(value, sample());
}

#[test]
fn values_differ_by_each_part() {
    let big = ValueRecord::BigInt { b: vec![1, 2], negative: false, type_id: TypeId(0) };
    assert_ne!(big, ValueRecord::BigInt { b: vec![1, 2], negative: true, type_id: TypeId(0) });
    assert_ne!(big, ValueRecord::BigInt { b: vec![2, 1], negative: false, type_id: TypeId(0) });
    assert_ne!(big, ValueRecord::BigInt { b: vec![1, 2], negative: false, type_id: TypeId(1) });
    assert_eq!(big, ValueRecord::BigInt { b: vec![1, 2], negative: false, type_id: TypeId(0) });
    assert_ne!(
        ValueRecord::Cell { place: Place(1) },
        ValueRecord::Cell { place: Place(2) }
    );
    assert_ne!(
        ValueRecord::Float { bits: 1.5f64.to_bits(), type_id: TypeId(0) },
        ValueRecord::Float { bits: 2.5f64.to_bits(), type_id: TypeId(0) }
    );
}

#[test]
fn the_absent_value_has_the_first_type() {
    assert_eq!(none_value(), ValueRecord::NoneValue { type_id: TypeId(0) });
}

#[test]
fn equality_looks_into_nested_values() {
    let left = ValueRecord::Variant {
        discriminator: "Ok".to_string(),
        contents: Box::new(ValueRecord::Reference {
            dereferenced: Box::new(ValueRecord::Tuple {
                elements: vec![ValueRecord::Int { i: 1, type_id: TypeId(1) }],
                type_id: TypeId(2),
            }),
            address: 16,
            mutable: false,
            type_id: TypeId(3),
        }),
        type_id: TypeId(4),
    };
    let mut right = left.clone();
    assert!(left.same(&right));
    assert_eq!(left, right);
    if let ValueRecord::Variant { contents, .. } = &mut right {
        if let ValueRecord::Reference { dereferenced, .. } = &mut **contents {
            **dereferenced = ValueRecord::Tuple {
                elements: vec![ValueRecord::Int { i: 2, type_id: TypeId(1) }],
                type_id: TypeId(2),
            };
        }
    }
    assert!(!left.same(&right));
    assert_ne!(left, right);
    assert_ne!(
        ValueRecord::Tuple { elements: vec![], type_id: TypeId(0) },
        ValueRecord::Sequence { elements: vec![], is_slice: false, type_id: TypeId(0) }
    );
    assert_ne!(
        ValueRecord::Tuple { elements: vec![none_value()], type_id: TypeId(0) },
        ValueRecord::Tuple { elements: vec![none_value(), none_value()], type_id: TypeId(0) }
    );
}
