//! The records that events carry, each with its mathematical model.
//!
//! A record made of identifiers alone is its own model. A record that holds
//! text, a list or a value has a model of its own, named after it, in which
//! `String` and `Vec` give way to `Seq` and `ValueRecord` to `ValueView`.

use vstd::prelude::*;
use crate::ids::{FunctionId, Line, PathId, Place, TypeId, VariableId};
use crate::kinds::{EventLogKind, TypeKind};
use crate::values::{ValueRecord, ValueView};

verus! {

/// The texts of a list of strings, in order.
pub open spec fn strings_view(strings: Seq<String>) -> Seq<Seq<char>> {
    Seq::new(strings.len(), |k: int| strings[k]@)
}

/// A copy of a list of strings.
pub(crate) fn copy_strings(strings: &[String]) -> (copy: Vec<String>)
    ensures
        strings_view(copy@) == strings_view(strings@),
{
    let mut copy: Vec<String> = Vec::new();
    let mut k: usize = 0;
    while k < strings.len()
        invariant
            k <= strings.len(),
            copy.len() == k,
            forall|j: int| 0 <= j < k ==> copy[j]@ == strings[j]@,
        decreases strings.len() - k,
    {
        copy.push(strings[k].clone());
        k = k + 1;
    }
    assert(strings_view(copy@) =~= strings_view(strings@));
    copy
}

/// A copy of a list of variable ids.
pub(crate) fn copy_variable_ids(ids: &Vec<VariableId>) -> (copy: Vec<VariableId>)
    ensures
        copy@ == ids@,
{
    let mut copy: Vec<VariableId> = Vec::new();
    let mut k: usize = 0;
    while k < ids.len()
        invariant
            k <= ids.len(),
            copy.len() == k,
            forall|j: int| 0 <= j < k ==> copy[j] == ids[j],
        decreases ids.len() - k,
    {
        copy.push(ids[k]);
        k = k + 1;
    }
    assert(copy@ =~= ids@);
    copy
}

/// A location: a line of a file of the path table.
#[derive(Debug, Copy, Clone)]
pub struct StepRecord {
    pub path_id: PathId,
    pub line: Line,
}

impl View for StepRecord {
    type V = StepRecord;

    open spec fn view(&self) -> StepRecord {
        *self
    }
}

/// A variable together with a snapshot of its whole value.
#[derive(Debug)]
pub struct FullValueRecord {
    pub variable_id: VariableId,
    pub value: ValueRecord,
}

pub struct FullValueView {
    pub variable_id: VariableId,
    pub value: ValueView,
}

impl View for FullValueRecord {
    type V = FullValueView;

    open spec fn view(&self) -> FullValueView {
        FullValueView { variable_id: self.variable_id, value: self.value@ }
    }
}

impl Clone for FullValueRecord {
    fn clone(&self) -> (r: Self)
        ensures
            r@ == self@,
    {
        FullValueRecord { variable_id: self.variable_id, value: self.value.clone() }
    }
}

/// The models of a list of arguments, in order.
pub open spec fn full_values_view(values: Seq<FullValueRecord>) -> Seq<FullValueView> {
    Seq::new(values.len(), |k: int| values[k]@)
}

/// A call: the function entered and its arguments.
#[derive(Debug)]
pub struct CallRecord {
    pub function_id: FunctionId,
    pub args: Vec<FullValueRecord>,
}

pub struct CallView {
    pub function_id: FunctionId,
    pub args: Seq<FullValueView>,
}

impl View for CallRecord {
    type V = CallView;

    open spec fn view(&self) -> CallView {
        CallView { function_id: self.function_id, args: full_values_view(self.args@) }
    }
}

/// A copy of a list of arguments.
fn copy_full_values(values: &Vec<FullValueRecord>) -> (copy: Vec<FullValueRecord>)
    ensures
        full_values_view(copy@) == full_values_view(values@),
{
    let mut copy: Vec<FullValueRecord> = Vec::new();
    let mut k: usize = 0;
    while k < values.len()
        invariant
            k <= values.len(),
            copy.len() == k,
            forall|j: int| 0 <= j < k ==> copy[j]@ == values[j]@,
        decreases values.len() - k,
    {
        copy.push(values[k].clone());
        k = k + 1;
    }
    assert(full_values_view(copy@) =~= full_values_view(values@));
    copy
}

impl Clone for CallRecord {
    fn clone(&self) -> (r: Self)
        ensures
            r@ == self@,
    {
        CallRecord { function_id: self.function_id, args: copy_full_values(&self.args) }
    }
}

/// The value a call returned.
#[derive(Debug)]
pub struct ReturnRecord {
    pub return_value: ValueRecord,
}

pub struct ReturnView {
    pub return_value: ValueView,
}

impl View for ReturnRecord {
    type V = ReturnView;

    open spec fn view(&self) -> ReturnView {
        ReturnView { return_value: self.return_value@ }
    }
}

impl Clone for ReturnRecord {
    fn clone(&self) -> (r: Self)
        ensures
            r@ == self@,
    {
        ReturnRecord { return_value: self.return_value.clone() }
    }
}

/// A function and the place where it is declared.
#[derive(Debug)]
pub struct FunctionRecord {
    pub path_id: PathId,
    pub line: Line,
    pub name: String,
}

pub struct FunctionView {
    pub path_id: PathId,
    pub line: Line,
    pub name: Seq<char>,
}

impl View for FunctionRecord {
    type V = FunctionView;

    open spec fn view(&self) -> FunctionView {
        FunctionView { path_id: self.path_id, line: self.line, name: self.name@ }
    }
}

impl Clone for FunctionRecord {
    fn clone(&self) -> (r: Self)
        ensures
            r@ == self@,
    {
        FunctionRecord { path_id: self.path_id, line: self.line, name: self.name.clone() }
    }
}

/// A variable by name, with its value.
#[derive(Debug)]
pub struct VariableRecord {
    pub name: String,
    pub value: ValueRecord,
}

pub struct VariableView {
    pub name: Seq<char>,
    pub value: ValueView,
}

impl View for VariableRecord {
    type V = VariableView;

    open spec fn view(&self) -> VariableView {
        VariableView { name: self.name@, value: self.value@ }
    }
}

impl Clone for VariableRecord {
    fn clone(&self) -> (r: Self)
        ensures
            r@ == self@,
    {
        VariableRecord { name: self.name.clone(), value: self.value.clone() }
    }
}

/// A field of a struct type: its name and the id of its type.
#[derive(Debug)]
pub struct FieldTypeRecord {
    pub name: String,
    pub type_id: TypeId,
}

pub struct FieldTypeView {
    pub name: Seq<char>,
    pub type_id: TypeId,
}

impl View for FieldTypeRecord {
    type V = FieldTypeView;

    open spec fn view(&self) -> FieldTypeView {
        FieldTypeView { name: self.name@, type_id: self.type_id }
    }
}

impl Clone for FieldTypeRecord {
    fn clone(&self) -> (r: Self)
        ensures
            r@ == self@,
    {
        FieldTypeRecord { name: self.name.clone(), type_id: self.type_id }
    }
}

/// The models of a list of fields, in order.
pub open spec fn fields_view(fields: Seq<FieldTypeRecord>) -> Seq<FieldTypeView> {
    Seq::new(fields.len(), |k: int| fields[k]@)
}

/// What a type record says beyond kind and name: the fields of a struct, the
/// target of a pointer, or nothing.
#[derive(Debug)]
pub enum TypeSpecificInfo {
    NoneInfo,
    Struct { fields: Vec<FieldTypeRecord> },
    Pointer { dereference_type_id: TypeId },
}

pub enum TypeSpecificInfoView {
    NoneInfo,
    Struct { fields: Seq<FieldTypeView> },
    Pointer { dereference_type_id: TypeId },
}

impl View for TypeSpecificInfo {
    type V = TypeSpecificInfoView;

    open spec fn view(&self) -> TypeSpecificInfoView {
        match self {
            TypeSpecificInfo::NoneInfo => TypeSpecificInfoView::NoneInfo,
            TypeSpecificInfo::Struct { fields } => TypeSpecificInfoView::Struct {
                fields: fields_view(fields@),
            },
            TypeSpecificInfo::Pointer { dereference_type_id } => TypeSpecificInfoView::Pointer {
                dereference_type_id: *dereference_type_id,
            },
        }
    }
}

/// A copy of a list of fields.
fn copy_fields(fields: &Vec<FieldTypeRecord>) -> (copy: Vec<FieldTypeRecord>)
    ensures
        fields_view(copy@) == fields_view(fields@),
{
    let mut copy: Vec<FieldTypeRecord> = Vec::new();
    let mut k: usize = 0;
    while k < fields.len()
        invariant
            k <= fields.len(),
            copy.len() == k,
            forall|j: int| 0 <= j < k ==> copy[j]@ == fields[j]@,
        decreases fields.len() - k,
    {
        copy.push(fields[k].clone());
        k = k + 1;
    }
    assert(fields_view(copy@) =~= fields_view(fields@));
    copy
}

impl Clone for TypeSpecificInfo {
    fn clone(&self) -> (r: Self)
        ensures
            r@ == self@,
    {
        match self {
            TypeSpecificInfo::NoneInfo => TypeSpecificInfo::NoneInfo,
            TypeSpecificInfo::Struct { fields } => TypeSpecificInfo::Struct {
                fields: copy_fields(fields),
            },
            TypeSpecificInfo::Pointer { dereference_type_id } => TypeSpecificInfo::Pointer {
                dereference_type_id: *dereference_type_id,
            },
        }
    }
}

/// A type of the traced program: its category, its name in the source
/// language, and the refinement for structs and pointers.
#[derive(Debug)]
pub struct TypeRecord {
    pub kind: TypeKind,
    pub lang_type: String,
    pub specific_info: TypeSpecificInfo,
}

pub struct TypeView {
    pub kind: TypeKind,
    pub lang_type: Seq<char>,
    pub specific_info: TypeSpecificInfoView,
}

impl View for TypeRecord {
    type V = TypeView;

    open spec fn view(&self) -> TypeView {
        TypeView {
            kind: self.kind,
            lang_type: self.lang_type@,
            specific_info: self.specific_info@,
        }
    }
}

impl Clone for TypeRecord {
    fn clone(&self) -> (r: Self)
        ensures
            r@ == self@,
    {
        TypeRecord {
            kind: self.kind,
            lang_type: self.lang_type.clone(),
            specific_info: self.specific_info.clone(),
        }
    }
}

/// A marker for an I/O or log side effect of the traced program.
#[derive(Debug)]
pub struct RecordEvent {
    pub kind: EventLogKind,
    pub metadata: String,
    pub content: String,
}

pub struct RecordEventView {
    pub kind: EventLogKind,
    pub metadata: Seq<char>,
    pub content: Seq<char>,
}

impl View for RecordEvent {
    type V = RecordEventView;

    open spec fn view(&self) -> RecordEventView {
        RecordEventView { kind: self.kind, metadata: self.metadata@, content: self.content@ }
    }
}

impl Clone for RecordEvent {
    fn clone(&self) -> (r: Self)
        ensures
            r@ == self@,
    {
        RecordEvent {
            kind: self.kind,
            metadata: self.metadata.clone(),
            content: self.content.clone(),
        }
    }
}

/// A variable bound to a place.
#[derive(Debug)]
pub struct BindVariableRecord {
    pub variable_id: VariableId,
    pub place: Place,
}

impl View for BindVariableRecord {
    type V = BindVariableRecord;

    open spec fn view(&self) -> BindVariableRecord {
        *self
    }
}

impl Clone for BindVariableRecord {
    fn clone(&self) -> (r: Self)
        ensures
            r == *self,
    {
        BindVariableRecord { variable_id: self.variable_id, place: self.place }
    }
}

/// How a value reaches its target: copied, or shared by reference.
#[derive(Debug)]
pub enum PassBy {
    Value,
    Reference,
}

impl Default for PassBy {
    fn default() -> (r: Self)
        ensures
            r == PassBy::Value,
    {
        PassBy::Value
    }
}

impl Clone for PassBy {
    fn clone(&self) -> (r: Self)
        ensures
            r == *self,
    {
        match self {
            PassBy::Value => PassBy::Value,
            PassBy::Reference => PassBy::Reference,
        }
    }
}

/// The source of an assignment: one variable, or several merged into one
/// value.
#[derive(Debug)]
pub enum RValue {
    Simple(VariableId),
    Compound(Vec<VariableId>),
}

pub enum RValueView {
    Simple(VariableId),
    Compound(Seq<VariableId>),
}

impl View for RValue {
    type V = RValueView;

    open spec fn view(&self) -> RValueView {
        match self {
            RValue::Simple(v) => RValueView::Simple(*v),
            RValue::Compound(vs) => RValueView::Compound(vs@),
        }
    }
}

impl Clone for RValue {
    fn clone(&self) -> (r: Self)
        ensures
            r@ == self@,
    {
        match self {
            RValue::Simple(v) => RValue::Simple(*v),
            RValue::Compound(vs) => RValue::Compound(copy_variable_ids(vs)),
        }
    }
}

/// An assignment or the passing of a parameter: where the value goes, how,
/// and where it comes from.
#[derive(Debug)]
pub struct AssignmentRecord {
    pub to: VariableId,
    pub pass_by: PassBy,
    pub from: RValue,
}

pub struct AssignmentView {
    pub to: VariableId,
    pub pass_by: PassBy,
    pub from: RValueView,
}

impl View for AssignmentRecord {
    type V = AssignmentView;

    open spec fn view(&self) -> AssignmentView {
        AssignmentView { to: self.to, pass_by: self.pass_by, from: self.from@ }
    }
}

impl Clone for AssignmentRecord {
    fn clone(&self) -> (r: Self)
        ensures
            r@ == self@,
    {
        AssignmentRecord {
            to: self.to,
            pass_by: self.pass_by.clone(),
            from: self.from.clone(),
        }
    }
}

/// Defines the aggregate stored in a place. Its elements may be cells of
/// other places.
#[derive(Debug)]
pub struct CompoundValueRecord {
    pub place: Place,
    pub value: ValueRecord,
}

pub struct CompoundValueView {
    pub place: Place,
    pub value: ValueView,
}

impl View for CompoundValueRecord {
    type V = CompoundValueView;

    open spec fn view(&self) -> CompoundValueView {
        CompoundValueView { place: self.place, value: self.value@ }
    }
}

impl Clone for CompoundValueRecord {
    fn clone(&self) -> (r: Self)
        ensures
            r@ == self@,
    {
        CompoundValueRecord { place: self.place, value: self.value.clone() }
    }
}

/// Defines the scalar stored in a place.
#[derive(Debug)]
pub struct CellValueRecord {
    pub place: Place,
    pub value: ValueRecord,
}

pub struct CellValueView {
    pub place: Place,
    pub value: ValueView,
}

impl View for CellValueRecord {
    type V = CellValueView;

    open spec fn view(&self) -> CellValueView {
        CellValueView { place: self.place, value: self.value@ }
    }
}

impl Clone for CellValueRecord {
    fn clone(&self) -> (r: Self)
        ensures
            r@ == self@,
    {
        CellValueRecord { place: self.place, value: self.value.clone() }
    }
}

/// Rebinds one element of the aggregate in `place` to the cell `item_place`.
#[derive(Debug, Copy, Clone)]
pub struct AssignCompoundItemRecord {
    pub place: Place,
    pub index: usize,
    pub item_place: Place,
}

impl View for AssignCompoundItemRecord {
    type V = AssignCompoundItemRecord;

    open spec fn view(&self) -> AssignCompoundItemRecord {
        *self
    }
}

/// Replaces the value stored in a cell.
#[derive(Debug)]
pub struct AssignCellRecord {
    pub place: Place,
    pub new_value: ValueRecord,
}

pub struct AssignCellView {
    pub place: Place,
    pub new_value: ValueView,
}

impl View for AssignCellRecord {
    type V = AssignCellView;

    open spec fn view(&self) -> AssignCellView {
        AssignCellView { place: self.place, new_value: self.new_value@ }
    }
}

impl Clone for AssignCellRecord {
    fn clone(&self) -> (r: Self)
        ensures
            r@ == self@,
    {
        AssignCellRecord { place: self.place, new_value: self.new_value.clone() }
    }
}

/// A variable naming a place, rather than holding a snapshot.
#[derive(Debug)]
pub struct VariableCellRecord {
    pub variable_id: VariableId,
    pub place: Place,
}

impl View for VariableCellRecord {
    type V = VariableCellRecord;

    open spec fn view(&self) -> VariableCellRecord {
        *self
    }
}

impl Clone for VariableCellRecord {
    fn clone(&self) -> (r: Self)
        ensures
            r == *self,
    {
        VariableCellRecord { variable_id: self.variable_id, place: self.place }
    }
}

/// What is known of a run besides its events: where it ran, what ran, and
/// with which arguments.
#[derive(Debug)]
pub struct TraceMetadata {
    pub workdir: String,
    pub program: String,
    pub args: Vec<String>,
}

pub struct TraceMetadataView {
    pub workdir: Seq<char>,
    pub program: Seq<char>,
    pub args: Seq<Seq<char>>,
}

impl View for TraceMetadata {
    type V = TraceMetadataView;

    open spec fn view(&self) -> TraceMetadataView {
        TraceMetadataView {
            workdir: self.workdir@,
            program: self.program@,
            args: strings_view(self.args@),
        }
    }
}

impl Clone for TraceMetadata {
    fn clone(&self) -> (r: Self)
        ensures
            r@ == self@,
    {
        TraceMetadata {
            workdir: self.workdir.clone(),
            program: self.program.clone(),
            args: copy_strings(self.args.as_slice()),
        }
    }
}

} // verus!
