//! The event: the single unit of a trace.

use vstd::prelude::*;
use crate::ids::VariableId;
use crate::records::{
    copy_strings, copy_variable_ids, strings_view, AssignCellRecord, AssignCellView, AssignCompoundItemRecord, AssignmentRecord,
    AssignmentView, BindVariableRecord, CallRecord, CallView, CellValueRecord, CellValueView,
    CompoundValueRecord, CompoundValueView, FullValueRecord, FullValueView, FunctionRecord,
    FunctionView, RecordEvent, RecordEventView, ReturnRecord, ReturnView, StepRecord, TypeRecord,
    TypeView, VariableCellRecord,
};

verus! {

/// One entry of the event log.
///
/// `Path`, `VariableName` (and its older form `Variable`), `Type` and
/// `Function` define the next entry of their table; every other event refers
/// to entries defined before it.
#[derive(Debug)]
pub enum TraceLowLevelEvent {
    /// Execution reached a location.
    Step(StepRecord),
    /// Defines the next path.
    Path(String),
    /// Defines the next variable name.
    VariableName(String),
    /// Defines the next variable name; the form older traces use.
    Variable(String),
    /// Defines the next type.
    Type(TypeRecord),
    /// A whole value, bound to a variable.
    Value(FullValueRecord),
    /// Defines the next function.
    Function(FunctionRecord),
    Call(CallRecord),
    Return(ReturnRecord),
    /// An I/O or log side effect.
    Event(RecordEvent),
    /// Instructions as text; advisory.
    Asm(Vec<String>),
    BindVariable(BindVariableRecord),
    Assignment(AssignmentRecord),
    DropVariables(Vec<VariableId>),
    CompoundValue(CompoundValueRecord),
    CellValue(CellValueRecord),
    AssignCompoundItem(AssignCompoundItemRecord),
    AssignCell(AssignCellRecord),
    VariableCell(VariableCellRecord),
    DropVariable(VariableId),
    /// Cancels the step emitted last. The log only grows, so a step is taken
    /// back by this marker and not by removal.
    DropLastStep,
}

/// The mathematical model of an event.
pub enum EventView {
    Step(StepRecord),
    Path(Seq<char>),
    VariableName(Seq<char>),
    Variable(Seq<char>),
    Type(TypeView),
    Value(FullValueView),
    Function(FunctionView),
    Call(CallView),
    Return(ReturnView),
    Event(RecordEventView),
    Asm(Seq<Seq<char>>),
    BindVariable(BindVariableRecord),
    Assignment(AssignmentView),
    DropVariables(Seq<VariableId>),
    CompoundValue(CompoundValueView),
    CellValue(CellValueView),
    AssignCompoundItem(AssignCompoundItemRecord),
    AssignCell(AssignCellView),
    VariableCell(VariableCellRecord),
    DropVariable(VariableId),
    DropLastStep,
}

impl View for TraceLowLevelEvent {
    type V = EventView;

    open spec fn view(&self) -> EventView {
        match self {
            TraceLowLevelEvent::Step(r) => EventView::Step(*r),
            TraceLowLevelEvent::Path(p) => EventView::Path(p@),
            TraceLowLevelEvent::VariableName(n) => EventView::VariableName(n@),
            TraceLowLevelEvent::Variable(n) => EventView::Variable(n@),
            TraceLowLevelEvent::Type(r) => EventView::Type(r@),
            TraceLowLevelEvent::Value(r) => EventView::Value(r@),
            TraceLowLevelEvent::Function(r) => EventView::Function(r@),
            TraceLowLevelEvent::Call(r) => EventView::Call(r@),
            TraceLowLevelEvent::Return(r) => EventView::Return(r@),
            TraceLowLevelEvent::Event(r) => EventView::Event(r@),
            TraceLowLevelEvent::Asm(lines) => EventView::Asm(strings_view(lines@)),
            TraceLowLevelEvent::BindVariable(r) => EventView::BindVariable(*r),
            TraceLowLevelEvent::Assignment(r) => EventView::Assignment(r@),
            TraceLowLevelEvent::DropVariables(vs) => EventView::DropVariables(vs@),
            TraceLowLevelEvent::CompoundValue(r) => EventView::CompoundValue(r@),
            TraceLowLevelEvent::CellValue(r) => EventView::CellValue(r@),
            TraceLowLevelEvent::AssignCompoundItem(r) => EventView::AssignCompoundItem(*r),
            TraceLowLevelEvent::AssignCell(r) => EventView::AssignCell(r@),
            TraceLowLevelEvent::VariableCell(r) => EventView::VariableCell(*r),
            TraceLowLevelEvent::DropVariable(v) => EventView::DropVariable(*v),
            TraceLowLevelEvent::DropLastStep => EventView::DropLastStep,
        }
    }
}

impl Clone for TraceLowLevelEvent {
    fn clone(&self) -> (r: Self)
        ensures
            r@ == self@,
    {
        match self {
            TraceLowLevelEvent::Step(r) => TraceLowLevelEvent::Step(*r),
            TraceLowLevelEvent::Path(p) => TraceLowLevelEvent::Path(p.clone()),
            TraceLowLevelEvent::VariableName(n) => TraceLowLevelEvent::VariableName(n.clone()),
            TraceLowLevelEvent::Variable(n) => TraceLowLevelEvent::Variable(n.clone()),
            TraceLowLevelEvent::Type(r) => TraceLowLevelEvent::Type(r.clone()),
            TraceLowLevelEvent::Value(r) => TraceLowLevelEvent::Value(r.clone()),
            TraceLowLevelEvent::Function(r) => TraceLowLevelEvent::Function(r.clone()),
            TraceLowLevelEvent::Call(r) => TraceLowLevelEvent::Call(r.clone()),
            TraceLowLevelEvent::Return(r) => TraceLowLevelEvent::Return(r.clone()),
            TraceLowLevelEvent::Event(r) => TraceLowLevelEvent::Event(r.clone()),
            TraceLowLevelEvent::Asm(lines) => TraceLowLevelEvent::Asm(
                copy_strings(lines.as_slice()),
            ),
            TraceLowLevelEvent::BindVariable(r) => TraceLowLevelEvent::BindVariable(r.clone()),
            TraceLowLevelEvent::Assignment(r) => TraceLowLevelEvent::Assignment(r.clone()),
            TraceLowLevelEvent::DropVariables(vs) => TraceLowLevelEvent::DropVariables(
                copy_variable_ids(vs),
            ),
            TraceLowLevelEvent::CompoundValue(r) => TraceLowLevelEvent::CompoundValue(r.clone()),
            TraceLowLevelEvent::CellValue(r) => TraceLowLevelEvent::CellValue(r.clone()),
            TraceLowLevelEvent::AssignCompoundItem(r) => TraceLowLevelEvent::AssignCompoundItem(*r),
            TraceLowLevelEvent::AssignCell(r) => TraceLowLevelEvent::AssignCell(r.clone()),
            TraceLowLevelEvent::VariableCell(r) => TraceLowLevelEvent::VariableCell(r.clone()),
            TraceLowLevelEvent::DropVariable(v) => TraceLowLevelEvent::DropVariable(*v),
            TraceLowLevelEvent::DropLastStep => TraceLowLevelEvent::DropLastStep,
        }
    }
}

/// The models of a sequence of events, in order: the log as contracts see it.
pub open spec fn events_view(events: Seq<TraceLowLevelEvent>) -> Seq<EventView> {
    Seq::new(events.len(), |k: int| events[k]@)
}

} // verus!
