//! An append-only, self-describing log of the events of a program run, and
//! the tracer that builds it.
//!
//! The log records control flow, calls, variable bindings and mutations of
//! values. Every identifier in it is defined before it is first used, so
//! that a reader needs one forward pass and no lookahead.

pub mod events;
pub mod ids;
pub mod json;
pub mod kinds;
pub mod laws;
pub mod model;
pub mod records;
pub mod stream;
pub mod tracer;
pub mod values;

pub use crate::events::{EventView, TraceLowLevelEvent};
pub use crate::ids::{
    no_key, CallKey, FunctionId, Line, PathId, Place, StepId, TypeId, VariableId,
};
pub use crate::json::EncodeError;
pub use crate::kinds::{EventLogKind, TypeKind};
pub use crate::model::TracerView;
pub use crate::records::{
    AssignCellRecord, AssignCompoundItemRecord, AssignmentRecord, BindVariableRecord, CallRecord,
    CellValueRecord, CompoundValueRecord, FieldTypeRecord, FullValueRecord, FunctionRecord,
    PassBy, RValue, RecordEvent, ReturnRecord, StepRecord, TraceMetadata, TypeRecord,
    TypeSpecificInfo, VariableCellRecord, VariableRecord,
};
pub use crate::tracer::{none_type_id, none_value, top_level_function_id, Tracer};
pub use crate::values::{ValueRecord, ValueView};
