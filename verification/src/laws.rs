//! What holds of every tracer, stated on its model.

use vstd::prelude::*;
use crate::events::EventView;
use crate::ids::{FunctionId, Line, Place, TypeId};
use crate::kinds::TypeKind;
use crate::model::{value_events, TracerView};
use crate::records::{
    AssignCellView, AssignCompoundItemRecord, CallView, CellValueView, CompoundValueView,
    FullValueView, StepRecord, TypeView,
};
use crate::stream::{
    cell_known, compound_known, lemma_cell_known_push, lemma_compound_known_push,
    lemma_entries_have_definitions, lemma_place_graph_push, place_graph_ok, tables_of,
    well_formed,
};
use crate::values::ValueView;

verus! {

/// Interning a path twice in a row gives the same id twice, and the second
/// time changes nothing: only the first can emit a definition.
pub proof fn law_path_interning_idempotent(s: TracerView, path: Seq<char>)
    ensures
        s.ensure_path(path).0.ensure_path(path) == s.ensure_path(path),
        s.ensure_path(path).0.events == if s.paths.contains_key(path) {
            s.events
        } else {
            s.events.push(EventView::Path(path))
        },
{
}

/// Interning a function twice in a row gives the same id twice, and the
/// second time changes nothing, whatever declaration site it is given.
pub proof fn law_function_interning_idempotent(
    s: TracerView,
    name: Seq<char>,
    path: Seq<char>,
    line: Line,
    other_path: Seq<char>,
    other_line: Line,
)
    ensures
        s.ensure_function(name, path, line).0.ensure_function(name, other_path, other_line)
            == s.ensure_function(name, path, line),
        s.functions.contains_key(name) ==> s.ensure_function(name, path, line).0 == s,
{
}

/// Interning a type twice in a row gives the same id twice, and the second
/// time changes nothing, whatever else the second record says.
pub proof fn law_type_interning_idempotent(s: TracerView, t: TypeView, other: TypeView)
    requires
        other.lang_type == t.lang_type,
    ensures
        s.ensure_raw_type(t).0.ensure_raw_type(other) == s.ensure_raw_type(t),
        s.ensure_raw_type(t).0.events == if s.types.contains_key(t.lang_type) {
            s.events
        } else {
            s.events.push(EventView::Type(t))
        },
{
}

/// Interning a variable name twice in a row gives the same id twice, and the
/// second time changes nothing: only the first can emit a definition.
pub proof fn law_variable_interning_idempotent(s: TracerView, name: Seq<char>)
    ensures
        s.ensure_variable(name).0.ensure_variable(name) == s.ensure_variable(name),
        s.ensure_variable(name).0.events == if s.variables.contains_key(name) {
            s.events
        } else {
            s.events.push(EventView::VariableName(name))
        },
{
}

/// An id, once given to a name, is never given up: interning anything else
/// leaves it as it is.
pub proof fn law_ids_are_stable(s: TracerView, seen: Seq<char>, other: Seq<char>, line: Line)
    ensures
        s.paths.contains_key(seen) ==> {
            let after = s.ensure_path(other).0.paths;
            after.contains_key(seen) && after[seen] == s.paths[seen]
        },
        s.variables.contains_key(seen) ==> {
            let after = s.ensure_variable(other).0.variables;
            after.contains_key(seen) && after[seen] == s.variables[seen]
        },
        s.types.contains_key(seen) ==> {
            let after = s.ensure_type(TypeKind::Any, other).0.types;
            after.contains_key(seen) && after[seen] == s.types[seen]
        },
        s.functions.contains_key(seen) ==> {
            let after = s.ensure_function(other, other, line).0.functions;
            after.contains_key(seen) && after[seen] == s.functions[seen]
        },
{
}

/// On a tracer that has recorded nothing, the first function interned gets
/// id 0 and the first type interned gets id 0.
pub proof fn law_first_ids(
    s: TracerView,
    name: Seq<char>,
    path: Seq<char>,
    line: Line,
    kind: TypeKind,
    lang_type: Seq<char>,
)
    requires
        s.is_fresh(),
    ensures
        s.ensure_function(name, path, line).1 == FunctionId(0),
        s.ensure_type(kind, lang_type).1 == TypeId(0),
{
}

/// Opening a session gives the toplevel function id 0 and the type of the
/// absent value id 0, and leaves the tracer well formed.
pub proof fn law_bootstrap(s: TracerView, path: Seq<char>, line: Line)
    requires
        s.is_fresh(),
    ensures
        s.start(path, line).wf(),
        s.start(path, line).functions.contains_key("<toplevel>"@),
        s.start(path, line).functions["<toplevel>"@] == 0,
        s.start(path, line).function_list[0].name == "<toplevel>"@,
        s.start(path, line).types.contains_key("None"@),
        s.start(path, line).types["None"@] == 0,
        s.start(path, line).tables().types[0].lang_type == "None"@,
        s.start(path, line).tables().types[0].kind == TypeKind::NoneKind,
{
    s.lemma_start(path, line);
}

/// The call of any function but the toplevel one adds to the log, in this
/// order: the value of each argument, a step at the declaration of the
/// function, and the call. Nothing before them changes.
pub proof fn law_call_order(s: TracerView, function_id: FunctionId, args: Seq<FullValueView>)
    requires
        function_id.0 != 0,
    ensures
        ({
            let after = s.register_call(function_id, args).events;
            let start = s.events.len() as int;
            let declared = s.function_list[function_id.0 as int];
            &&& after.len() == start + args.len() + 2
            &&& after.subrange(0, start) == s.events
            &&& forall|k: int| 0 <= k < args.len() ==> after[start + k] == EventView::Value(args[k])
            &&& after[start + args.len()] == EventView::Step(
                StepRecord { path_id: declared.path_id, line: declared.line },
            )
            &&& after[start + args.len() + 1] == EventView::Call(CallView { function_id, args })
        }),
{
    let after = s.register_call(function_id, args).events;
    assert(after.subrange(0, s.events.len() as int) =~= s.events);
    assert(value_events(args).len() == args.len());
}

/// The call of the toplevel function adds the call to the log and nothing
/// else.
pub proof fn law_toplevel_call(s: TracerView, args: Seq<FullValueView>)
    ensures
        s.register_call(FunctionId(0), args).events == s.events.push(
            EventView::Call(CallView { function_id: FunctionId(0), args }),
        ),
{
}

/// A step and the marker that cancels it make the log longer by two. The
/// marker comes last, the step before it, and nothing before them changes.
pub proof fn law_drop_last_step(s: TracerView, step: StepRecord)
    ensures
        s.emit(EventView::Step(step)).emit(EventView::DropLastStep).events.len() == s.events.len()
            + 2,
        s.emit(EventView::Step(step)).emit(EventView::DropLastStep).events.last()
            == EventView::DropLastStep,
        s.emit(EventView::Step(step)).emit(EventView::DropLastStep).events[s.events.len() as int]
            == EventView::Step(step),
        s.emit(EventView::Step(step)).emit(EventView::DropLastStep).events.subrange(
            0,
            s.events.len() as int,
        ) == s.events,
{
    let r = s.emit(EventView::Step(step)).emit(EventView::DropLastStep);
    assert(r.events.subrange(0, s.events.len() as int) =~= s.events);
}

/// Registering a step at a path that is interned already, and then
/// cancelling it, makes the log longer by two. The marker comes last, the
/// step before it, and nothing before them changes.
pub proof fn law_register_step_then_drop(s: TracerView, path: Seq<char>, line: Line)
    requires
        s.paths.contains_key(path),
    ensures
        s.register_step(path, line).emit(EventView::DropLastStep).events.len() == s.events.len()
            + 2,
        s.register_step(path, line).emit(EventView::DropLastStep).events.last()
            == EventView::DropLastStep,
        s.register_step(path, line).emit(EventView::DropLastStep).events.subrange(
            0,
            s.events.len() as int,
        ) == s.events,
{
    let r = s.register_step(path, line).emit(EventView::DropLastStep);
    assert(r.events.subrange(0, s.events.len() as int) =~= s.events);
}

/// How many events each operation adds to the log: interning adds one
/// definition at first sight and nothing later; a new function in a new path
/// adds two; a step adds one more than interning its path does; a call adds
/// one event for the toplevel function, and two more than it has arguments
/// for any other.
pub proof fn law_emission_counts(
    s: TracerView,
    name: Seq<char>,
    path: Seq<char>,
    line: Line,
    t: TypeView,
    function_id: FunctionId,
    args: Seq<FullValueView>,
)
    ensures
        s.ensure_path(path).0.events.len() == s.events.len() + if s.paths.contains_key(path) {
            0int
        } else {
            1int
        },
        s.ensure_variable(name).0.events.len() == s.events.len() + if s.variables.contains_key(
            name,
        ) {
            0int
        } else {
            1int
        },
        s.ensure_raw_type(t).0.events.len() == s.events.len() + if s.types.contains_key(
            t.lang_type,
        ) {
            0int
        } else {
            1int
        },
        s.ensure_function(name, path, line).0.events.len() == s.events.len()
            + if s.functions.contains_key(name) {
            0int
        } else if s.paths.contains_key(path) {
            1int
        } else {
            2int
        },
        s.register_step(path, line).events.len() == s.ensure_path(path).0.events.len() + 1,
        s.register_call(function_id, args).events.len() == s.events.len()
            + if function_id.0 == 0 {
            1int
        } else {
            args.len() as int + 2
        },
{
}

/// Interning a list of names adds at most one definition for each name, and
/// gives one id for each name.
pub proof fn law_names_define_at_most_once(s: TracerView, names: Seq<Seq<char>>)
    ensures
        s.ensure_variables(names).1.len() == names.len(),
        s.events.len() <= s.ensure_variables(names).0.events.len() <= s.events.len() + names.len(),
        s.drop_variables(names).events.len() == s.ensure_variables(names).0.events.len() + 1,
    decreases names.len(),
{
    if names.len() > 0 {
        law_names_define_at_most_once(s, names.drop_last());
    }
}

/// In a well-formed log every step is at a path that an earlier event of the
/// log defines, and every call is of a function that an earlier event
/// defines: a reader never has to look ahead.
pub proof fn law_definitions_come_first(log: Seq<EventView>, i: int)
    requires
        well_formed(log),
        0 <= i < log.len(),
    ensures
        log[i] matches EventView::Step(step) ==> exists|j: int|
            0 <= j < i && #[trigger] log[j] == EventView::Path(
                tables_of(log.subrange(0, i)).paths[step.path_id.0 as int],
            ),
        log[i] matches EventView::Call(call) ==> exists|j: int|
            0 <= j < i && #[trigger] log[j] == EventView::Function(
                tables_of(log.subrange(0, i)).functions[call.function_id.0 as int],
            ),
        log[i] matches EventView::Value(binding) ==> exists|j: int|
            0 <= j < i && (#[trigger] log[j] == EventView::VariableName(
                tables_of(log.subrange(0, i)).variables[binding.variable_id.0 as int],
            ) || log[j] == EventView::Variable(
                tables_of(log.subrange(0, i)).variables[binding.variable_id.0 as int],
            )),
{
    reveal(well_formed);
    let before = log.subrange(0, i);
    lemma_entries_have_definitions(before);
    assert(tables_of(before).accepts(log[i]));
    match log[i] {
        EventView::Step(step) => {
            let path = tables_of(before).paths[step.path_id.0 as int];
            let j = choose|j: int|
                0 <= j < before.len() && #[trigger] before[j] == EventView::Path(path);
            assert(log[j] == before[j]);
        },
        EventView::Call(call) => {
            let f = tables_of(before).functions[call.function_id.0 as int];
            let j = choose|j: int|
                0 <= j < before.len() && #[trigger] before[j] == EventView::Function(f);
            assert(log[j] == before[j]);
        },
        EventView::Value(binding) => {
            let name = tables_of(before).variables[binding.variable_id.0 as int];
            let j = choose|j: int|
                0 <= j < before.len() && (#[trigger] before[j] == EventView::VariableName(name)
                    || before[j] == EventView::Variable(name));
            assert(log[j] == before[j]);
        },
        _ => {},
    }
}

/// A place whose scalar has been defined can be assigned to from then on:
/// the definition makes the place a cell, and it stays one however the log
/// grows.
pub proof fn law_defined_cell_can_be_assigned(
    log: Seq<EventView>,
    place: Place,
    value: ValueView,
    later: EventView,
    new_value: ValueView,
)
    requires
        place_graph_ok(log.push(EventView::CellValue(CellValueView { place, value })).push(later)),
    ensures
        cell_known(log.push(EventView::CellValue(CellValueView { place, value })), place),
        place_graph_ok(
            log.push(EventView::CellValue(CellValueView { place, value })).push(later).push(
                EventView::AssignCell(AssignCellView { place, new_value }),
            ),
        ),
{
    let defined = log.push(EventView::CellValue(CellValueView { place, value }));
    lemma_cell_known_push(log, EventView::CellValue(CellValueView { place, value }), place);
    lemma_cell_known_push(defined, later, place);
    lemma_place_graph_push(
        defined.push(later),
        EventView::AssignCell(AssignCellView { place, new_value }),
    );
}

/// A place that an aggregate holds as an element can be assigned to from
/// then on, and an element of the aggregate can be rebound from then on.
pub proof fn law_aggregate_binds_its_elements(
    log: Seq<EventView>,
    place: Place,
    value: ValueView,
    element: Place,
    later: EventView,
    new_value: ValueView,
    index: usize,
    item_place: Place,
)
    requires
        value.mentions(element),
        place_graph_ok(
            log.push(EventView::CompoundValue(CompoundValueView { place, value })).push(later),
        ),
    ensures
        place_graph_ok(
            log.push(EventView::CompoundValue(CompoundValueView { place, value })).push(later).push(
                EventView::AssignCell(AssignCellView { place: element, new_value }),
            ),
        ),
        place_graph_ok(
            log.push(EventView::CompoundValue(CompoundValueView { place, value })).push(later).push(
                EventView::AssignCompoundItem(
                    AssignCompoundItemRecord { place, index, item_place },
                ),
            ),
        ),
{
    let definition = EventView::CompoundValue(CompoundValueView { place, value });
    let defined = log.push(definition);
    lemma_cell_known_push(log, definition, element);
    lemma_cell_known_push(defined, later, element);
    lemma_compound_known_push(log, definition, place);
    lemma_compound_known_push(defined, later, place);
    lemma_place_graph_push(
        defined.push(later),
        EventView::AssignCell(AssignCellView { place: element, new_value }),
    );
    lemma_place_graph_push(
        defined.push(later),
        EventView::AssignCompoundItem(AssignCompoundItemRecord { place, index, item_place }),
    );
}

/// In a log without any event, no place can be assigned to and no element
/// can be rebound.
pub proof fn law_nothing_is_defined_at_first(
    place: Place,
    new_value: ValueView,
    index: usize,
    item_place: Place,
)
    ensures
        !cell_known(Seq::empty(), place),
        !compound_known(Seq::empty(), place),
        !place_graph_ok(
            Seq::<EventView>::empty().push(
                EventView::AssignCell(AssignCellView { place, new_value }),
            ),
        ),
        !place_graph_ok(
            Seq::<EventView>::empty().push(
                EventView::AssignCompoundItem(
                    AssignCompoundItemRecord { place, index, item_place },
                ),
            ),
        ),
{
    reveal(cell_known);
    reveal(compound_known);
    lemma_place_graph_push(
        Seq::empty(),
        EventView::AssignCell(AssignCellView { place, new_value }),
    );
    lemma_place_graph_push(
        Seq::empty(),
        EventView::AssignCompoundItem(AssignCompoundItemRecord { place, index, item_place }),
    );
}

} // verus!
