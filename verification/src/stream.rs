//! What a reader learns from a log in one forward pass, and which logs such a
//! reader can follow.
//!
//! A reader keeps four tables and fills them from the definition events, in
//! the order in which they arrive: the n-th `Path` event defines `PathId(n)`,
//! and likewise for functions, types and variable names. A log is well formed
//! when no event refers to an entry that the events before it have not
//! defined, and no definition repeats a name. That is the identifier
//! discipline. The place discipline is stated apart from it: an assignment
//! to a place needs a definition of that place earlier in the log.

use vstd::prelude::*;
use crate::events::EventView;
use crate::ids::{FunctionId, PathId, Place, TypeId, VariableId};
use crate::records::{FullValueView, FunctionView, RValueView, TypeSpecificInfoView, TypeView};
use crate::values::ValueView;

verus! {

/// The tables of a reader: entry `n` of each holds what id `n` stands for.
pub struct Tables {
    pub paths: Seq<Seq<char>>,
    pub functions: Seq<FunctionView>,
    pub types: Seq<TypeView>,
    pub variables: Seq<Seq<char>>,
}

/// The names of the functions of a function table, in id order.
pub open spec fn function_names(functions: Seq<FunctionView>) -> Seq<Seq<char>> {
    Seq::new(functions.len(), |k: int| functions[k].name)
}

/// The names of the types of a type table, in id order.
pub open spec fn type_names(types: Seq<TypeView>) -> Seq<Seq<char>> {
    Seq::new(types.len(), |k: int| types[k].lang_type)
}

/// Whether every type id in a value is an entry of `types`, and every struct
/// value has a struct type with as many fields as the value has field values.
/// A `Cell` carries no type.
pub open spec fn value_ok(types: Seq<TypeView>, v: ValueView) -> bool
    decreases v,
{
    match v {
        ValueView::Cell { .. } => true,
        ValueView::Sequence { elements, type_id, .. } => {
            &&& type_id.0 < types.len()
            &&& forall|k: int| 0 <= k < elements.len() ==> value_ok(types, #[trigger] elements[k])
        },
        ValueView::Tuple { elements, type_id } => {
            &&& type_id.0 < types.len()
            &&& forall|k: int| 0 <= k < elements.len() ==> value_ok(types, #[trigger] elements[k])
        },
        ValueView::Struct { field_values, type_id } => {
            &&& type_id.0 < types.len()
            &&& types[type_id.0 as int].specific_info matches TypeSpecificInfoView::Struct {
                fields,
            }
            &&& fields.len() == field_values.len()
            &&& forall|k: int|
                0 <= k < field_values.len() ==> value_ok(types, #[trigger] field_values[k])
        },
        ValueView::Variant { contents, type_id, .. } => {
            &&& type_id.0 < types.len()
            &&& value_ok(types, *contents)
        },
        ValueView::Reference { dereferenced, type_id, .. } => {
            &&& type_id.0 < types.len()
            &&& value_ok(types, *dereferenced)
        },
        ValueView::Int { type_id, .. } => type_id.0 < types.len(),
        ValueView::Int128 { type_id, .. } => type_id.0 < types.len(),
        ValueView::Float { type_id, .. } => type_id.0 < types.len(),
        ValueView::Bool { type_id, .. } => type_id.0 < types.len(),
        ValueView::String { type_id, .. } => type_id.0 < types.len(),
        ValueView::Raw { type_id, .. } => type_id.0 < types.len(),
        ValueView::Error { type_id, .. } => type_id.0 < types.len(),
        ValueView::NoneValue { type_id } => type_id.0 < types.len(),
        ValueView::BigInt { type_id, .. } => type_id.0 < types.len(),
    }
}

impl Tables {
    /// The tables before any event.
    pub open spec fn empty() -> Tables {
        Tables {
            paths: Seq::empty(),
            functions: Seq::empty(),
            types: Seq::empty(),
            variables: Seq::empty(),
        }
    }

    pub open spec fn knows_path(self, id: PathId) -> bool {
        id.0 < self.paths.len()
    }

    pub open spec fn knows_function(self, id: FunctionId) -> bool {
        id.0 < self.functions.len()
    }

    pub open spec fn knows_type(self, id: TypeId) -> bool {
        id.0 < self.types.len()
    }

    pub open spec fn knows_variable(self, id: VariableId) -> bool {
        id.0 < self.variables.len()
    }

    /// Whether every id in a list of variables is defined.
    pub open spec fn knows_variables(self, ids: Seq<VariableId>) -> bool {
        forall|k: int| 0 <= k < ids.len() ==> self.knows_variable(#[trigger] ids[k])
    }

    /// Whether a value can be read with these tables.
    pub open spec fn value_ok(self, v: ValueView) -> bool {
        value_ok(self.types, v)
    }

    /// Whether the variable and the value of a binding can be read.
    pub open spec fn full_value_ok(self, fv: FullValueView) -> bool {
        self.knows_variable(fv.variable_id) && self.value_ok(fv.value)
    }

    /// Whether every binding of an argument list can be read.
    pub open spec fn args_ok(self, args: Seq<FullValueView>) -> bool {
        forall|k: int| 0 <= k < args.len() ==> self.full_value_ok(#[trigger] args[k])
    }

    /// Whether the type ids inside a type record are defined: the types of
    /// the fields of a struct, the target of a pointer.
    pub open spec fn type_ok(self, t: TypeView) -> bool {
        match t.specific_info {
            TypeSpecificInfoView::NoneInfo => true,
            TypeSpecificInfoView::Struct { fields } => forall|k: int|
                0 <= k < fields.len() ==> self.knows_type((#[trigger] fields[k]).type_id),
            TypeSpecificInfoView::Pointer { dereference_type_id } => self.knows_type(
                dereference_type_id,
            ),
        }
    }

    /// Whether these tables hold every entry of `earlier`, under the same id.
    pub open spec fn extends(self, earlier: Tables) -> bool {
        &&& earlier.paths.is_prefix_of(self.paths)
        &&& earlier.functions.is_prefix_of(self.functions)
        &&& earlier.types.is_prefix_of(self.types)
        &&& earlier.variables.is_prefix_of(self.variables)
    }

    /// Whether a reader with these tables can take `e` as the next event: it
    /// refers only to defined entries, and a definition brings a new name.
    pub open spec fn accepts(self, e: EventView) -> bool {
        match e {
            EventView::Step(s) => self.knows_path(s.path_id),
            EventView::Path(p) => !self.paths.contains(p),
            EventView::VariableName(n) => !self.variables.contains(n),
            EventView::Variable(n) => !self.variables.contains(n),
            EventView::Type(t) => !type_names(self.types).contains(t.lang_type) && self.type_ok(t),
            EventView::Value(fv) => self.full_value_ok(fv),
            EventView::Function(f) => {
                &&& !function_names(self.functions).contains(f.name)
                &&& self.knows_path(f.path_id)
            },
            EventView::Call(c) => self.knows_function(c.function_id) && self.args_ok(c.args),
            EventView::Return(r) => self.value_ok(r.return_value),
            EventView::Event(_) => true,
            EventView::Asm(_) => true,
            EventView::BindVariable(b) => self.knows_variable(b.variable_id),
            EventView::Assignment(a) => {
                &&& self.knows_variable(a.to)
                &&& match a.from {
                    RValueView::Simple(v) => self.knows_variable(v),
                    RValueView::Compound(vs) => self.knows_variables(vs),
                }
            },
            EventView::DropVariables(vs) => self.knows_variables(vs),
            EventView::CompoundValue(c) => self.value_ok(c.value),
            EventView::CellValue(c) => self.value_ok(c.value),
            EventView::AssignCompoundItem(_) => true,
            EventView::AssignCell(a) => self.value_ok(a.new_value),
            EventView::VariableCell(v) => self.knows_variable(v.variable_id),
            EventView::DropVariable(v) => self.knows_variable(v),
            EventView::DropLastStep => true,
        }
    }

    /// The tables after reading `e`: a definition event adds the next entry
    /// of its table, any other event leaves the tables as they are.
    pub open spec fn apply(self, e: EventView) -> Tables {
        match e {
            EventView::Path(p) => Tables { paths: self.paths.push(p), ..self },
            EventView::VariableName(n) => Tables { variables: self.variables.push(n), ..self },
            EventView::Variable(n) => Tables { variables: self.variables.push(n), ..self },
            EventView::Type(t) => Tables { types: self.types.push(t), ..self },
            EventView::Function(f) => Tables { functions: self.functions.push(f), ..self },
            _ => self,
        }
    }
}

/// Whether an event defines a table entry.
pub open spec fn is_definition(e: EventView) -> bool {
    e is Path || e is VariableName || e is Variable || e is Type || e is Function
}

/// The tables a reader holds after the whole of `log`.
pub open spec fn tables_of(log: Seq<EventView>) -> Tables
    decreases log.len(),
{
    if log.len() == 0 {
        Tables::empty()
    } else {
        tables_of(log.drop_last()).apply(log.last())
    }
}

/// The identifier discipline: every event is accepted by the tables built
/// from the events strictly before it.
#[verifier::opaque]
pub open spec fn well_formed(log: Seq<EventView>) -> bool {
    forall|i: int|
        0 <= i < log.len() ==> tables_of(log.subrange(0, i)).accepts(#[trigger] log[i])
}

/// Whether an event gives `place` the standing of a cell: it defines the
/// scalar stored there, or it makes the place an element of an aggregate.
pub open spec fn defines_cell(e: EventView, place: Place) -> bool {
    match e {
        EventView::CellValue(c) => c.place == place,
        EventView::CompoundValue(c) => c.value.mentions(place),
        EventView::AssignCompoundItem(a) => a.item_place == place,
        _ => false,
    }
}

/// Whether an event defines the aggregate stored in `place`.
pub open spec fn defines_compound(e: EventView, place: Place) -> bool {
    e matches EventView::CompoundValue(c) && c.place == place
}

/// Whether some event of `log` makes `place` a cell.
#[verifier::opaque]
pub open spec fn cell_known(log: Seq<EventView>, place: Place) -> bool {
    exists|i: int| 0 <= i < log.len() && defines_cell(#[trigger] log[i], place)
}

/// Whether some event of `log` defines an aggregate in `place`.
#[verifier::opaque]
pub open spec fn compound_known(log: Seq<EventView>, place: Place) -> bool {
    exists|i: int| 0 <= i < log.len() && defines_compound(#[trigger] log[i], place)
}

/// Whether `e` may follow `before` as far as places go: a cell is assigned
/// only where a cell is known, an element is rebound only in a known
/// aggregate, and the value that defines a place holds no cell of that
/// place.
pub open spec fn place_step_ok(before: Seq<EventView>, e: EventView) -> bool {
    match e {
        EventView::AssignCell(a) => cell_known(before, a.place),
        EventView::AssignCompoundItem(a) => compound_known(before, a.place),
        EventView::CompoundValue(c) => !c.value.mentions(c.place),
        EventView::CellValue(c) => !c.value.mentions(c.place),
        _ => true,
    }
}

/// The place discipline: every event may follow the events strictly before
/// it.
#[verifier::opaque]
pub open spec fn place_graph_ok(log: Seq<EventView>) -> bool {
    forall|i: int| 0 <= i < log.len() ==> place_step_ok(log.subrange(0, i), #[trigger] log[i])
}

/// A value that can be read with a type table can be read with any longer
/// one.
pub proof fn lemma_value_ok_extends(shorter: Seq<TypeView>, longer: Seq<TypeView>, v: ValueView)
    requires
        shorter.is_prefix_of(longer),
        value_ok(shorter, v),
    ensures
        value_ok(longer, v),
    decreases v,
{
    match v {
        ValueView::Sequence { elements, .. } => {
            assert forall|k: int| 0 <= k < elements.len() implies value_ok(
                longer,
                #[trigger] elements[k],
            ) by {
                lemma_value_ok_extends(shorter, longer, elements[k]);
            }
        },
        ValueView::Tuple { elements, .. } => {
            assert forall|k: int| 0 <= k < elements.len() implies value_ok(
                longer,
                #[trigger] elements[k],
            ) by {
                lemma_value_ok_extends(shorter, longer, elements[k]);
            }
        },
        ValueView::Struct { field_values, type_id } => {
            assert(longer[type_id.0 as int] == shorter[type_id.0 as int]);
            assert forall|k: int| 0 <= k < field_values.len() implies value_ok(
                longer,
                #[trigger] field_values[k],
            ) by {
                lemma_value_ok_extends(shorter, longer, field_values[k]);
            }
        },
        ValueView::Variant { contents, .. } => {
            lemma_value_ok_extends(shorter, longer, *contents);
        },
        ValueView::Reference { dereferenced, .. } => {
            lemma_value_ok_extends(shorter, longer, *dereferenced);
        },
        _ => {},
    }
}

/// Reading an event never takes an entry away.
pub proof fn lemma_apply_extends(tables: Tables, e: EventView)
    ensures
        tables.apply(e).extends(tables),
{
    let after = tables.apply(e);
    assert(tables.paths =~= after.paths.subrange(0, tables.paths.len() as int));
    assert(tables.functions =~= after.functions.subrange(0, tables.functions.len() as int));
    assert(tables.types =~= after.types.subrange(0, tables.types.len() as int));
    assert(tables.variables =~= after.variables.subrange(0, tables.variables.len() as int));
}

/// The empty log keeps both disciplines.
pub proof fn lemma_empty_log()
    ensures
        well_formed(Seq::empty()),
        place_graph_ok(Seq::empty()),
{
    reveal(well_formed);
    reveal(place_graph_ok);
}

/// Reading one more event applies it to the tables read so far.
pub proof fn lemma_tables_push(log: Seq<EventView>, e: EventView)
    ensures
        tables_of(log.push(e)) == tables_of(log).apply(e),
{
    assert(log.push(e).drop_last() =~= log);
}

/// Every entry of the tables was put there by a definition event of the
/// log: no table holds what the log does not define.
pub proof fn lemma_entries_have_definitions(log: Seq<EventView>)
    ensures
        forall|n: int|
            0 <= n < tables_of(log).paths.len() ==> exists|j: int|
                0 <= j < log.len() && #[trigger] log[j] == EventView::Path(
                    #[trigger] tables_of(log).paths[n],
                ),
        forall|n: int|
            0 <= n < tables_of(log).functions.len() ==> exists|j: int|
                0 <= j < log.len() && #[trigger] log[j] == EventView::Function(
                    #[trigger] tables_of(log).functions[n],
                ),
        forall|n: int|
            0 <= n < tables_of(log).types.len() ==> exists|j: int|
                0 <= j < log.len() && #[trigger] log[j] == EventView::Type(
                    #[trigger] tables_of(log).types[n],
                ),
        forall|n: int|
            0 <= n < tables_of(log).variables.len() ==> exists|j: int|
                0 <= j < log.len() && (#[trigger] log[j] == EventView::VariableName(
                    #[trigger] tables_of(log).variables[n],
                ) || log[j] == EventView::Variable(tables_of(log).variables[n])),
    decreases log.len(),
{
    if log.len() > 0 {
        let shorter = log.drop_last();
        let last = log.len() - 1;
        let before = tables_of(shorter);
        let after = tables_of(log);
        lemma_entries_have_definitions(shorter);
        assert forall|n: int| 0 <= n < after.paths.len() implies exists|j: int|
            0 <= j < log.len() && #[trigger] log[j] == EventView::Path(
                #[trigger] after.paths[n],
            ) by {
            if n < before.paths.len() {
                let j = choose|j: int|
                    0 <= j < shorter.len() && #[trigger] shorter[j] == EventView::Path(
                        before.paths[n],
                    );
                assert(log[j] == shorter[j]);
            } else {
                assert(log[last] == EventView::Path(after.paths[n]));
            }
        }
        assert forall|n: int| 0 <= n < after.functions.len() implies exists|j: int|
            0 <= j < log.len() && #[trigger] log[j] == EventView::Function(
                #[trigger] after.functions[n],
            ) by {
            if n < before.functions.len() {
                let j = choose|j: int|
                    0 <= j < shorter.len() && #[trigger] shorter[j] == EventView::Function(
                        before.functions[n],
                    );
                assert(log[j] == shorter[j]);
            } else {
                assert(log[last] == EventView::Function(after.functions[n]));
            }
        }
        assert forall|n: int| 0 <= n < after.types.len() implies exists|j: int|
            0 <= j < log.len() && #[trigger] log[j] == EventView::Type(
                #[trigger] after.types[n],
            ) by {
            if n < before.types.len() {
                let j = choose|j: int|
                    0 <= j < shorter.len() && #[trigger] shorter[j] == EventView::Type(
                        before.types[n],
                    );
                assert(log[j] == shorter[j]);
            } else {
                assert(log[last] == EventView::Type(after.types[n]));
            }
        }
        assert forall|n: int| 0 <= n < after.variables.len() implies exists|j: int|
            0 <= j < log.len() && (#[trigger] log[j] == EventView::VariableName(
                #[trigger] after.variables[n],
            ) || log[j] == EventView::Variable(after.variables[n])) by {
            if n < before.variables.len() {
                let j = choose|j: int|
                    0 <= j < shorter.len() && (#[trigger] shorter[j] == EventView::VariableName(
                        before.variables[n],
                    ) || shorter[j] == EventView::Variable(before.variables[n]));
                assert(log[j] == shorter[j]);
            } else {
                assert(log[last] == EventView::VariableName(after.variables[n]) || log[last]
                    == EventView::Variable(after.variables[n]));
            }
        }
    }
}

/// A log with one more event is well formed exactly when the log was and the
/// tables read from it accept the event.
pub proof fn lemma_well_formed_push(log: Seq<EventView>, e: EventView)
    ensures
        well_formed(log.push(e)) <==> well_formed(log) && tables_of(log).accepts(e),
{
    reveal(well_formed);
    let longer = log.push(e);
    assert(longer.subrange(0, log.len() as int) =~= log);
    assert forall|i: int| 0 <= i < log.len() implies longer.subrange(0, i) == log.subrange(0, i)
        && longer[i] == log[i] by {
        assert(longer.subrange(0, i) =~= log.subrange(0, i));
    }
    if well_formed(longer) {
        assert(longer[log.len() as int] == e);
        assert forall|i: int| 0 <= i < log.len() implies tables_of(log.subrange(0, i)).accepts(
            #[trigger] log[i],
        ) by {
            assert(tables_of(longer.subrange(0, i)).accepts(longer[i]));
        }
    }
    if well_formed(log) && tables_of(log).accepts(e) {
        assert forall|i: int| 0 <= i < longer.len() implies tables_of(
            longer.subrange(0, i),
        ).accepts(#[trigger] longer[i]) by {
            if i < log.len() {
                assert(tables_of(log.subrange(0, i)).accepts(log[i]));
            }
        }
    }
}

/// A place known as a cell stays one when the log grows, and the new event
/// can make one more place a cell.
pub proof fn lemma_cell_known_push(log: Seq<EventView>, e: EventView, place: Place)
    ensures
        cell_known(log.push(e), place) <==> cell_known(log, place) || defines_cell(e, place),
{
    reveal(cell_known);
    let longer = log.push(e);
    if cell_known(log, place) {
        let i = choose|i: int| 0 <= i < log.len() && defines_cell(#[trigger] log[i], place);
        assert(defines_cell(longer[i], place));
    }
    if defines_cell(e, place) {
        assert(defines_cell(longer[log.len() as int], place));
    }
    if cell_known(longer, place) {
        let i = choose|i: int| 0 <= i < longer.len() && defines_cell(#[trigger] longer[i], place);
        if i < log.len() {
            assert(defines_cell(log[i], place));
        }
    }
}

/// An aggregate known in a place stays known when the log grows, and the new
/// event can define one more.
pub proof fn lemma_compound_known_push(log: Seq<EventView>, e: EventView, place: Place)
    ensures
        compound_known(log.push(e), place) <==> compound_known(log, place) || defines_compound(
            e,
            place,
        ),
{
    reveal(compound_known);
    let longer = log.push(e);
    if compound_known(log, place) {
        let i = choose|i: int| 0 <= i < log.len() && defines_compound(#[trigger] log[i], place);
        assert(defines_compound(longer[i], place));
    }
    if defines_compound(e, place) {
        assert(defines_compound(longer[log.len() as int], place));
    }
    if compound_known(longer, place) {
        let i = choose|i: int|
            0 <= i < longer.len() && defines_compound(#[trigger] longer[i], place);
        if i < log.len() {
            assert(defines_compound(log[i], place));
        }
    }
}

/// A log with one more event keeps the place discipline exactly when the log
/// kept it and the event may follow the log.
pub proof fn lemma_place_graph_push(log: Seq<EventView>, e: EventView)
    ensures
        place_graph_ok(log.push(e)) <==> place_graph_ok(log) && place_step_ok(log, e),
{
    reveal(place_graph_ok);
    let longer = log.push(e);
    assert(longer.subrange(0, log.len() as int) =~= log);
    assert forall|i: int| 0 <= i < log.len() implies longer.subrange(0, i) == log.subrange(0, i)
        && longer[i] == log[i] by {
        assert(longer.subrange(0, i) =~= log.subrange(0, i));
    }
    if place_graph_ok(longer) {
        assert(longer[log.len() as int] == e);
        assert forall|i: int| 0 <= i < log.len() implies place_step_ok(
            log.subrange(0, i),
            #[trigger] log[i],
        ) by {
            assert(place_step_ok(longer.subrange(0, i), longer[i]));
        }
    }
    if place_graph_ok(log) && place_step_ok(log, e) {
        assert forall|i: int| 0 <= i < longer.len() implies place_step_ok(
            longer.subrange(0, i),
            #[trigger] longer[i],
        ) by {
            if i < log.len() {
                assert(place_step_ok(log.subrange(0, i), log[i]));
            }
        }
    }
}

/// Rebinding an element of the aggregate in `place` keeps the place
/// discipline if and only if an earlier event defined an aggregate there.
pub proof fn lemma_assign_compound_item_valid(
    log: Seq<EventView>,
    place: Place,
    index: usize,
    item_place: Place,
)
    ensures
        place_graph_ok(
            log.push(
                EventView::AssignCompoundItem(
                    crate::records::AssignCompoundItemRecord { place, index, item_place },
                ),
            ),
        ) <==> place_graph_ok(log) && compound_known(log, place),
{
    lemma_place_graph_push(
        log,
        EventView::AssignCompoundItem(
            crate::records::AssignCompoundItemRecord { place, index, item_place },
        ),
    );
}

/// Assigning to the cell in `place` keeps the place discipline if and only
/// if an earlier event defined a scalar there or made the place an element
/// of an aggregate.
pub proof fn lemma_assign_cell_valid(log: Seq<EventView>, place: Place, new_value: ValueView)
    ensures
        place_graph_ok(
            log.push(EventView::AssignCell(crate::records::AssignCellView { place, new_value })),
        ) <==> place_graph_ok(log) && cell_known(log, place),
{
    lemma_place_graph_push(
        log,
        EventView::AssignCell(crate::records::AssignCellView { place, new_value }),
    );
}

} // verus!
