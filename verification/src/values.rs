//! The value model: a closed union of the shapes a runtime value can take.
//!
//! `ValueRecord` is what a recorder builds and the event log stores;
//! `ValueView` is the same tree over mathematical sequences, and is what the
//! contracts of this crate speak of.

use vstd::prelude::*;
use crate::ids::{Place, TypeId};

verus! {

/// A runtime value as it is captured in a trace. Every variant but `Cell`
/// carries the id of its type.
#[allow(inconsistent_fields)]
#[derive(Debug)]
pub enum ValueRecord {
    Int { i: i64, type_id: TypeId },
    Int128 { i: i128, type_id: TypeId },
    /// A floating-point number, held as the 64 bits of its IEEE 754 encoding.
    Float { bits: u64, type_id: TypeId },
    Bool { b: bool, type_id: TypeId },
    String { text: String, type_id: TypeId },
    /// An ordered collection; `is_slice` marks a borrowed window into one.
    Sequence { elements: Vec<ValueRecord>, is_slice: bool, type_id: TypeId },
    Tuple { elements: Vec<ValueRecord>, type_id: TypeId },
    /// Field values by position; the type is a struct type with as many
    /// fields, in the same order.
    Struct { field_values: Vec<ValueRecord>, type_id: TypeId },
    /// A value of a sum type: the name of the case and its payload, usually a
    /// `Struct` or a `Tuple`.
    Variant { discriminator: String, contents: Box<ValueRecord>, type_id: TypeId },
    /// A reference, with a snapshot of what it pointed to when it was read.
    Reference { dereferenced: Box<ValueRecord>, address: u64, mutable: bool, type_id: TypeId },
    /// A value only known by its text.
    Raw { r: String, type_id: TypeId },
    /// A value that could not be captured, and why.
    Error { msg: String, type_id: TypeId },
    /// The absence of a value.
    NoneValue { type_id: TypeId },
    /// What is stored in a place: the indirect form used when mutations of
    /// places are tracked.
    Cell { place: Place },
    /// An integer of any size: sign and big-endian magnitude.
    BigInt { b: Vec<u8>, negative: bool, type_id: TypeId },
}

/// The mathematical model of a `ValueRecord`.
#[allow(inconsistent_fields)]
pub enum ValueView {
    Int { i: i64, type_id: TypeId },
    Int128 { i: i128, type_id: TypeId },
    Float { bits: u64, type_id: TypeId },
    Bool { b: bool, type_id: TypeId },
    String { text: Seq<char>, type_id: TypeId },
    Sequence { elements: Seq<ValueView>, is_slice: bool, type_id: TypeId },
    Tuple { elements: Seq<ValueView>, type_id: TypeId },
    Struct { field_values: Seq<ValueView>, type_id: TypeId },
    Variant { discriminator: Seq<char>, contents: Box<ValueView>, type_id: TypeId },
    Reference { dereferenced: Box<ValueView>, address: u64, mutable: bool, type_id: TypeId },
    Raw { r: Seq<char>, type_id: TypeId },
    Error { msg: Seq<char>, type_id: TypeId },
    NoneValue { type_id: TypeId },
    Cell { place: Place },
    BigInt { b: Seq<u8>, negative: bool, type_id: TypeId },
}

impl ValueRecord {
    /// The model of a value: the same tree, with `Vec` and `String` replaced
    /// by the sequences they hold.
    pub open spec fn model(&self) -> ValueView
        decreases self,
    {
        match self {
            ValueRecord::Int { i, type_id } => ValueView::Int { i: *i, type_id: *type_id },
            ValueRecord::Int128 { i, type_id } => ValueView::Int128 { i: *i, type_id: *type_id },
            ValueRecord::Float { bits, type_id } => ValueView::Float {
                bits: *bits,
                type_id: *type_id,
            },
            ValueRecord::Bool { b, type_id } => ValueView::Bool { b: *b, type_id: *type_id },
            ValueRecord::String { text, type_id } => ValueView::String {
                text: text@,
                type_id: *type_id,
            },
            ValueRecord::Sequence { elements, is_slice, type_id } => ValueView::Sequence {
                elements: Seq::new(
                    elements.len() as nat,
                    |k: int|
                        if 0 <= k < elements.len() {
                            elements[k].model()
                        } else {
                            ValueView::Cell { place: Place(0) }
                        },
                ),
                is_slice: *is_slice,
                type_id: *type_id,
            },
            ValueRecord::Tuple { elements, type_id } => ValueView::Tuple {
                elements: Seq::new(
                    elements.len() as nat,
                    |k: int|
                        if 0 <= k < elements.len() {
                            elements[k].model()
                        } else {
                            ValueView::Cell { place: Place(0) }
                        },
                ),
                type_id: *type_id,
            },
            ValueRecord::Struct { field_values, type_id } => ValueView::Struct {
                field_values: Seq::new(
                    field_values.len() as nat,
                    |k: int|
                        if 0 <= k < field_values.len() {
                            field_values[k].model()
                        } else {
                            ValueView::Cell { place: Place(0) }
                        },
                ),
                type_id: *type_id,
            },
            ValueRecord::Variant { discriminator, contents, type_id } => ValueView::Variant {
                discriminator: discriminator@,
                contents: Box::new(contents.model()),
                type_id: *type_id,
            },
            ValueRecord::Reference { dereferenced, address, mutable, type_id } => {
                ValueView::Reference {
                    dereferenced: Box::new(dereferenced.model()),
                    address: *address,
                    mutable: *mutable,
                    type_id: *type_id,
                }
            },
            ValueRecord::Raw { r, type_id } => ValueView::Raw { r: r@, type_id: *type_id },
            ValueRecord::Error { msg, type_id } => ValueView::Error {
                msg: msg@,
                type_id: *type_id,
            },
            ValueRecord::NoneValue { type_id } => ValueView::NoneValue { type_id: *type_id },
            ValueRecord::Cell { place } => ValueView::Cell { place: *place },
            ValueRecord::BigInt { b, negative, type_id } => ValueView::BigInt {
                b: b@,
                negative: *negative,
                type_id: *type_id,
            },
        }
    }

    /// A deep copy.
    #[verifier::loop_isolation(false)]
    pub fn duplicate(&self) -> (r: ValueRecord)
        ensures
            r@ == self@,
        decreases self,
    {
        match self {
            ValueRecord::Int { i, type_id } => ValueRecord::Int { i: *i, type_id: *type_id },
            ValueRecord::Int128 { i, type_id } => ValueRecord::Int128 { i: *i, type_id: *type_id },
            ValueRecord::Float { bits, type_id } => ValueRecord::Float {
                bits: *bits,
                type_id: *type_id,
            },
            ValueRecord::Bool { b, type_id } => ValueRecord::Bool { b: *b, type_id: *type_id },
            ValueRecord::String { text, type_id } => ValueRecord::String {
                text: text.clone(),
                type_id: *type_id,
            },
            ValueRecord::Sequence { elements, is_slice, type_id } => {
                let mut copies: Vec<ValueRecord> = Vec::new();
                let mut k: usize = 0;
                while k < elements.len()
                    invariant
                        k <= elements.len(),
                        copies.len() == k,
                        forall|j: int| 0 <= j < k ==> copies[j]@ == elements[j]@,
                    decreases elements.len() - k,
                {
                    copies.push(elements[k].duplicate());
                    k = k + 1;
                }
                let r = ValueRecord::Sequence {
                    elements: copies,
                    is_slice: *is_slice,
                    type_id: *type_id,
                };
                assert(r@->Sequence_elements =~= self@->Sequence_elements);
                r
            },
            ValueRecord::Tuple { elements, type_id } => {
                let mut copies: Vec<ValueRecord> = Vec::new();
                let mut k: usize = 0;
                while k < elements.len()
                    invariant
                        k <= elements.len(),
                        copies.len() == k,
                        forall|j: int| 0 <= j < k ==> copies[j]@ == elements[j]@,
                    decreases elements.len() - k,
                {
                    copies.push(elements[k].duplicate());
                    k = k + 1;
                }
                let r = ValueRecord::Tuple { elements: copies, type_id: *type_id };
                assert(r@->Tuple_elements =~= self@->Tuple_elements);
                r
            },
            ValueRecord::Struct { field_values, type_id } => {
                let mut copies: Vec<ValueRecord> = Vec::new();
                let mut k: usize = 0;
                while k < field_values.len()
                    invariant
                        k <= field_values.len(),
                        copies.len() == k,
                        forall|j: int| 0 <= j < k ==> copies[j]@ == field_values[j]@,
                    decreases field_values.len() - k,
                {
                    copies.push(field_values[k].duplicate());
                    k = k + 1;
                }
                let r = ValueRecord::Struct { field_values: copies, type_id: *type_id };
                assert(r@->Struct_field_values =~= self@->Struct_field_values);
                r
            },
            ValueRecord::Variant { discriminator, contents, type_id } => ValueRecord::Variant {
                discriminator: discriminator.clone(),
                contents: Box::new(contents.duplicate()),
                type_id: *type_id,
            },
            ValueRecord::Reference { dereferenced, address, mutable, type_id } => {
                ValueRecord::Reference {
                    dereferenced: Box::new(dereferenced.duplicate()),
                    address: *address,
                    mutable: *mutable,
                    type_id: *type_id,
                }
            },
            ValueRecord::Raw { r, type_id } => ValueRecord::Raw { r: r.clone(), type_id: *type_id },
            ValueRecord::Error { msg, type_id } => ValueRecord::Error {
                msg: msg.clone(),
                type_id: *type_id,
            },
            ValueRecord::NoneValue { type_id } => ValueRecord::NoneValue { type_id: *type_id },
            ValueRecord::Cell { place } => ValueRecord::Cell { place: *place },
            ValueRecord::BigInt { b, negative, type_id } => {
                let r = ValueRecord::BigInt {
                    b: b.clone(),
                    negative: *negative,
                    type_id: *type_id,
                };
                assert(r@->BigInt_b =~= self@->BigInt_b);
                r
            },
        }
    }
}

/// Whether two lists of bytes hold the same bytes.
fn same_bytes(a: &Vec<u8>, b: &Vec<u8>) -> (same: bool)
    ensures
        same == (a@ == b@),
{
    if a.len() != b.len() {
        return false;
    }
    let mut k: usize = 0;
    while k < a.len()
        invariant
            k <= a.len(),
            a.len() == b.len(),
            forall|j: int| 0 <= j < k ==> a[j] == b[j],
        decreases a.len() - k,
    {
        if a[k] != b[k] {
            return false;
        }
        k = k + 1;
    }
    assert(a@ =~= b@);
    true
}

impl ValueRecord {
    /// Whether two values are the same value: the same shape, with the same
    /// parts throughout. Floating-point numbers are compared by their bits.
    #[verifier::loop_isolation(false)]
    pub fn same(&self, other: &ValueRecord) -> (same: bool)
        ensures
            same == (self@ == other@),
        decreases self,
    {
        match (self, other) {
            (
                ValueRecord::Int { i, type_id },
                ValueRecord::Int { i: other_i, type_id: other_type },
            ) => *i == *other_i && type_id.0 == other_type.0,
            (
                ValueRecord::Int128 { i, type_id },
                ValueRecord::Int128 { i: other_i, type_id: other_type },
            ) => *i == *other_i && type_id.0 == other_type.0,
            (
                ValueRecord::Float { bits, type_id },
                ValueRecord::Float { bits: other_bits, type_id: other_type },
            ) => *bits == *other_bits && type_id.0 == other_type.0,
            (
                ValueRecord::Bool { b, type_id },
                ValueRecord::Bool { b: other_b, type_id: other_type },
            ) => *b == *other_b && type_id.0 == other_type.0,
            (
                ValueRecord::String { text, type_id },
                ValueRecord::String { text: other_text, type_id: other_type },
            ) => *text == *other_text && type_id.0 == other_type.0,
            (
                ValueRecord::Sequence { elements, is_slice, type_id },
                ValueRecord::Sequence {
                    elements: other_elements,
                    is_slice: other_slice,
                    type_id: other_type,
                },
            ) => {
                if *is_slice != *other_slice || type_id.0 != other_type.0 || elements.len()
                    != other_elements.len() {
                    assert(self@->Sequence_elements.len() == elements.len());
                    assert(other@->Sequence_elements.len() == other_elements.len());
                    return false;
                }
                let mut k: usize = 0;
                while k < elements.len()
                    invariant
                        k <= elements.len(),
                        elements.len() == other_elements.len(),
                        forall|j: int| 0 <= j < k ==> elements[j]@ == other_elements[j]@,
                    decreases elements.len() - k,
                {
                    if !elements[k].same(&other_elements[k]) {
                        assert(self@->Sequence_elements[k as int] == elements[k as int]@);
                        assert(other@->Sequence_elements[k as int] == other_elements[k as int]@);
                        return false;
                    }
                    k = k + 1;
                }
                assert(self@->Sequence_elements =~= other@->Sequence_elements);
                true
            },
            (
                ValueRecord::Tuple { elements, type_id },
                ValueRecord::Tuple { elements: other_elements, type_id: other_type },
            ) => {
                if type_id.0 != other_type.0 || elements.len() != other_elements.len() {
                    assert(self@->Tuple_elements.len() == elements.len());
                    assert(other@->Tuple_elements.len() == other_elements.len());
                    return false;
                }
                let mut k: usize = 0;
                while k < elements.len()
                    invariant
                        k <= elements.len(),
                        elements.len() == other_elements.len(),
                        forall|j: int| 0 <= j < k ==> elements[j]@ == other_elements[j]@,
                    decreases elements.len() - k,
                {
                    if !elements[k].same(&other_elements[k]) {
                        assert(self@->Tuple_elements[k as int] == elements[k as int]@);
                        assert(other@->Tuple_elements[k as int] == other_elements[k as int]@);
                        return false;
                    }
                    k = k + 1;
                }
                assert(self@->Tuple_elements =~= other@->Tuple_elements);
                true
            },
            (
                ValueRecord::Struct { field_values, type_id },
                ValueRecord::Struct { field_values: other_values, type_id: other_type },
            ) => {
                if type_id.0 != other_type.0 || field_values.len() != other_values.len() {
                    assert(self@->Struct_field_values.len() == field_values.len());
                    assert(other@->Struct_field_values.len() == other_values.len());
                    return false;
                }
                let mut k: usize = 0;
                while k < field_values.len()
                    invariant
                        k <= field_values.len(),
                        field_values.len() == other_values.len(),
                        forall|j: int| 0 <= j < k ==> field_values[j]@ == other_values[j]@,
                    decreases field_values.len() - k,
                {
                    if !field_values[k].same(&other_values[k]) {
                        assert(self@->Struct_field_values[k as int] == field_values[k as int]@);
                        assert(other@->Struct_field_values[k as int] == other_values[k as int]@);
                        return false;
                    }
                    k = k + 1;
                }
                assert(self@->Struct_field_values =~= other@->Struct_field_values);
                true
            },
            (
                ValueRecord::Variant { discriminator, contents, type_id },
                ValueRecord::Variant {
                    discriminator: other_discriminator,
                    contents: other_contents,
                    type_id: other_type,
                },
            ) => *discriminator == *other_discriminator && type_id.0 == other_type.0
                && contents.same(other_contents),
            (
                ValueRecord::Reference { dereferenced, address, mutable, type_id },
                ValueRecord::Reference {
                    dereferenced: other_dereferenced,
                    address: other_address,
                    mutable: other_mutable,
                    type_id: other_type,
                },
            ) => *address == *other_address && *mutable == *other_mutable && type_id.0
                == other_type.0 && dereferenced.same(other_dereferenced),
            (
                ValueRecord::Raw { r, type_id },
                ValueRecord::Raw { r: other_r, type_id: other_type },
            ) => *r == *other_r && type_id.0 == other_type.0,
            (
                ValueRecord::Error { msg, type_id },
                ValueRecord::Error { msg: other_msg, type_id: other_type },
            ) => *msg == *other_msg && type_id.0 == other_type.0,
            (
                ValueRecord::NoneValue { type_id },
                ValueRecord::NoneValue { type_id: other_type },
            ) => type_id.0 == other_type.0,
            (ValueRecord::Cell { place }, ValueRecord::Cell { place: other_place }) => place.0
                == other_place.0,
            (
                ValueRecord::BigInt { b, negative, type_id },
                ValueRecord::BigInt { b: other_b, negative: other_negative, type_id: other_type },
            ) => *negative == *other_negative && type_id.0 == other_type.0 && same_bytes(
                b,
                other_b,
            ),
            _ => false,
        }
    }
}

impl PartialEq for ValueRecord {
    fn eq(&self, other: &Self) -> (same: bool) {
        self.same(other)
    }
}

impl vstd::std_specs::cmp::PartialEqSpecImpl for ValueRecord {
    open spec fn obeys_eq_spec() -> bool {
        true
    }

    open spec fn eq_spec(&self, other: &Self) -> bool {
        self@ == other@
    }
}

impl View for ValueRecord {
    type V = ValueView;

    open spec fn view(&self) -> ValueView {
        self.model()
    }
}

impl Clone for ValueRecord {
    fn clone(&self) -> (r: Self)
        ensures
            r@ == self@,
    {
        self.duplicate()
    }
}

impl ValueView {
    /// Whether the value holds, at any depth, a `Cell` for `place`.
    pub open spec fn mentions(self, place: Place) -> bool
        decreases self,
    {
        match self {
            ValueView::Cell { place: p } => p == place,
            ValueView::Sequence { elements, .. } => exists|k: int|
                0 <= k < elements.len() && (#[trigger] elements[k]).mentions(place),
            ValueView::Tuple { elements, .. } => exists|k: int|
                0 <= k < elements.len() && (#[trigger] elements[k]).mentions(place),
            ValueView::Struct { field_values, .. } => exists|k: int|
                0 <= k < field_values.len() && (#[trigger] field_values[k]).mentions(place),
            ValueView::Variant { contents, .. } => contents.mentions(place),
            ValueView::Reference { dereferenced, .. } => dereferenced.mentions(place),
            _ => false,
        }
    }
}

} // verus!
