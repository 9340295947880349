//! The tracer: the builder of an event log.
//!
//! A recorder drives a tracer one call at a time. The tracer interns paths,
//! functions, variable names and types, so that each gets its id and its
//! definition event at first sight, and appends the events of the run.
//!
//! Every operation states its effect as an equation on the model of the
//! tracer (`TracerView`). An operation that takes ids asks that they be
//! defined; in return the tracer stays well formed, which includes that its
//! log keeps the identifier discipline of `stream`. The place discipline is
//! not asked for: the operations on places say when the log keeps it.
//!
//! `register_path`, `register_function`, `register_type`,
//! `register_raw_type` and `register_variable_name` are the raw emitters that
//! the `ensure_*` operations are made of. Called on their own they emit a
//! definition that no id stands for, and the tracer is ill formed from then
//! on.

use vstd::prelude::*;
use vstd::hash_map::StringHashMap;
use crate::events::{events_view, EventView, TraceLowLevelEvent};
use crate::ids::{FunctionId, Line, PathId, Place, TypeId, VariableId};
use crate::kinds::{EventLogKind, TypeKind};
use crate::model::{numbered, plain_type, value_events, TracerView};
use crate::records::{
    copy_strings, full_values_view, strings_view, AssignCellRecord, AssignCellView, AssignCompoundItemRecord,
    AssignmentRecord, AssignmentView, BindVariableRecord, CallRecord, CallView, CellValueRecord,
    CellValueView, CompoundValueRecord, CompoundValueView, FullValueRecord, FullValueView,
    FunctionRecord, FunctionView, PassBy, RValue, RValueView, RecordEvent, RecordEventView,
    ReturnRecord, ReturnView, StepRecord, TraceMetadata, TraceMetadataView, TypeRecord,
    TypeSpecificInfo, VariableCellRecord,
};
use crate::stream::{
    cell_known, compound_known, lemma_apply_extends, lemma_assign_cell_valid,
    lemma_assign_compound_item_valid, lemma_place_graph_push, place_graph_ok,
};
use crate::values::ValueRecord;

verus! {

/// The models of the entries of a function table, in order.
pub open spec fn functions_view(functions: Seq<FunctionRecord>) -> Seq<FunctionView> {
    Seq::new(functions.len(), |k: int| functions[k]@)
}

/// The id of the type of the absent value: the first type of a session.
pub fn none_type_id() -> (id: TypeId)
    ensures
        id == TypeId(0),
{
    TypeId(0)
}

/// The absent value.
pub fn none_value() -> (value: ValueRecord)
    ensures
        value == (ValueRecord::NoneValue { type_id: TypeId(0) }),
{
    ValueRecord::NoneValue { type_id: TypeId(0) }
}

/// The id of the toplevel function: the first function of a session.
pub fn top_level_function_id() -> (id: FunctionId)
    ensures
        id == FunctionId(0),
{
    FunctionId(0)
}

pub struct Tracer {
    workdir: String,
    program: String,
    args: Vec<String>,
    /// The event log. It only grows.
    pub events: Vec<TraceLowLevelEvent>,
    path_list: Vec<String>,
    function_list: Vec<FunctionRecord>,
    paths: StringHashMap<usize>,
    functions: StringHashMap<usize>,
    variables: StringHashMap<usize>,
    types: StringHashMap<usize>,
}

impl View for Tracer {
    type V = TracerView;

    closed spec fn view(&self) -> TracerView {
        TracerView {
            program: self.program@,
            args: strings_view(self.args@),
            workdir: self.workdir@,
            events: events_view(self.events@),
            path_list: strings_view(self.path_list@),
            function_list: functions_view(self.function_list@),
            paths: self.paths@,
            functions: self.functions@,
            variables: self.variables@,
            types: self.types@,
        }
    }
}

impl Tracer {
    /// The invariant of a tracer, stated on its model.
    pub open spec fn wf(&self) -> bool {
        self@.wf()
    }

    /// A tracer for a run of `program` with `args` in the directory
    /// `workdir`, with an empty log and empty registries.
    pub fn new(program: &str, args: &[String], workdir: &str) -> (tracer: Tracer)
        ensures
            tracer@ == TracerView::initial(program@, strings_view(args@), workdir@),
            tracer@.is_fresh(),
            tracer.wf(),
    {
        let tracer = Tracer {
            workdir: workdir.to_owned(),
            program: program.to_owned(),
            args: copy_strings(args),
            events: Vec::new(),
            path_list: Vec::new(),
            function_list: Vec::new(),
            paths: StringHashMap::new(),
            functions: StringHashMap::new(),
            variables: StringHashMap::new(),
            types: StringHashMap::new(),
        };
        proof {
            let init = TracerView::initial(program@, strings_view(args@), workdir@);
            assert(tracer@.events =~= init.events);
            assert(tracer@.path_list =~= init.path_list);
            assert(tracer@.function_list =~= init.function_list);
            assert(tracer@ =~= init);
            TracerView::lemma_initial_wf(program@, strings_view(args@), workdir@);
        }
        tracer
    }

    /// The event log, for reading.
    pub fn events(&self) -> (events: &Vec<TraceLowLevelEvent>)
        ensures
            events_view(events@) == self@.events,
    {
        &self.events
    }

    /// The path table, for reading: entry `n` is the path of `PathId(n)`.
    pub fn path_list(&self) -> (paths: &Vec<String>)
        ensures
            strings_view(paths@) == self@.path_list,
    {
        &self.path_list
    }

    /// What is known of the run besides its events.
    pub fn metadata(&self) -> (metadata: TraceMetadata)
        ensures
            metadata@ == (TraceMetadataView {
                workdir: self@.workdir,
                program: self@.program,
                args: self@.args,
            }),
    {
        TraceMetadata {
            program: self.program.clone(),
            args: copy_strings(self.args.as_slice()),
            workdir: self.workdir.clone(),
        }
    }

    /// Appends an event to the log and touches nothing else.
    fn push_event(&mut self, event: TraceLowLevelEvent)
        ensures
            final(self)@ == old(self)@.emit(event@),
    {
        self.events.push(event);
        proof {
            let goal = old(self)@.emit(event@);
            assert(self@.events =~= goal.events);
            assert(self@ =~= goal);
        }
    }

    /// Opens the session: interns the toplevel function, declared at `line`
    /// of `path`, emits its call, and interns the type of the absent value.
    /// It is the first operation on a tracer, and is called once. The
    /// toplevel function then has id 0, and so has the type of the absent
    /// value.
    pub fn start(&mut self, path: &str, line: Line)
        requires
            old(self)@.is_fresh(),
        ensures
            final(self).wf(),
            final(self)@ == old(self)@.start(path@, line),
            final(self)@.events == seq![
                EventView::Path(path@),
                EventView::Function(
                    FunctionView { path_id: PathId(0), line, name: "<toplevel>"@ },
                ),
                EventView::Call(CallView { function_id: FunctionId(0), args: Seq::empty() }),
                EventView::Type(plain_type(TypeKind::NoneKind, "None"@)),
            ],
            final(self)@.path_list == seq![path@],
            final(self)@.function_list == seq![
                FunctionView { path_id: PathId(0), line, name: "<toplevel>"@ },
            ],
            final(self)@.paths == Map::<Seq<char>, usize>::empty().insert(path@, 0),
            final(self)@.functions == Map::<Seq<char>, usize>::empty().insert("<toplevel>"@, 0),
            final(self)@.types == Map::<Seq<char>, usize>::empty().insert("None"@, 0),
            final(self)@.variables == Map::<Seq<char>, usize>::empty(),
            final(self)@.tables().types == seq![plain_type(TypeKind::NoneKind, "None"@)],
            final(self)@.tables().variables == Seq::<Seq<char>>::empty(),
            final(self)@.tables().knows_function(FunctionId(0)),
            final(self)@.tables().knows_type(TypeId(0)),
    {
        proof {
            TracerView::lemma_initial_wf(old(self)@.program, old(self)@.args, old(self)@.workdir);
            old(self)@.lemma_start(path@, line);
        }
        let function_id = self.ensure_function_id("<toplevel>", path, line);
        let no_args: Vec<FullValueRecord> = Vec::new();
        assert(full_values_view(no_args@) =~= Seq::<FullValueView>::empty());
        self.register_call(function_id, no_args);
        let none_id = self.ensure_type_id(TypeKind::NoneKind, "None");
        assert(function_id.0 == 0);
        assert(none_id.0 == 0);
    }

    /// The id of a path. A path seen before keeps its id, and nothing is
    /// emitted; a new path gets the next id, and its definition is emitted.
    pub fn ensure_path_id(&mut self, path: &str) -> (id: PathId)
        requires
            old(self).wf(),
        ensures
            final(self).wf(),
            final(self)@ == old(self)@.ensure_path(path@).0,
            id == old(self)@.ensure_path(path@).1,
            final(self)@.tables().knows_path(id),
            final(self)@.path_list[id.0 as int] == path@,
            !old(self)@.paths.contains_key(path@) ==> id.0 == old(self)@.path_list.len(),
            final(self)@.tables() == if old(self)@.paths.contains_key(path@) {
                old(self)@.tables()
            } else {
                old(self)@.tables().apply(EventView::Path(path@))
            },
            final(self)@.tables().extends(old(self)@.tables()),
    {
        broadcast use vstd::hash_map::group_hash_map_axioms;

        if !self.paths.contains_key(path) {
            let id = self.paths.len();
            self.paths.insert(path.to_owned(), id);
            proof {
                reveal(numbered);
                assert(self.paths@.dom() =~= old(self)@.paths.dom().insert(path@));
                assert(self.paths.spec_len() == self.paths@.len());
            }
            self.register_path(path);
        }
        proof {
            old(self)@.lemma_ensure_path_wf(path@);
            lemma_apply_extends(old(self)@.tables(), EventView::Path(path@));
        }
        PathId(*self.paths.get(path).unwrap())
    }

    /// The id of a function, by its name alone. A name seen before keeps its
    /// id, nothing is emitted, and `path` and `line` are not looked at: two
    /// functions of one name are one function to the tracer. A new name gets
    /// the next id; its path is interned and its definition is emitted.
    pub fn ensure_function_id(&mut self, function_name: &str, path: &str, line: Line) -> (id:
        FunctionId)
        requires
            old(self).wf(),
        ensures
            final(self).wf(),
            final(self)@ == old(self)@.ensure_function(function_name@, path@, line).0,
            id == old(self)@.ensure_function(function_name@, path@, line).1,
            final(self)@.tables().knows_function(id),
            final(self)@.function_list[id.0 as int].name == function_name@,
            !old(self)@.functions.contains_key(function_name@) ==> id.0
                == old(self)@.function_list.len(),
            final(self)@.tables().extends(old(self)@.tables()),
            final(self)@.tables().types == old(self)@.tables().types,
    {
        broadcast use vstd::hash_map::group_hash_map_axioms;

        if !self.functions.contains_key(function_name) {
            let id = self.functions.len();
            self.register_function(function_name, path, line);
            self.functions.insert(function_name.to_owned(), id);
            proof {
                reveal(numbered);
                let before = old(self)@;
                assert(self.functions@.dom() =~= before.functions.dom().insert(function_name@));
                assert(self.functions.spec_len() == self.functions@.len());
                assert(self.paths.spec_len() == self.paths@.len());
                if !before.paths.contains_key(path@) {
                    assert(self.paths@.dom() =~= before.paths.dom().insert(path@));
                }
                assert(self@ =~= before.ensure_function(function_name@, path@, line).0);
            }
        }
        proof {
            old(self)@.lemma_ensure_function_wf(function_name@, path@, line);
        }
        FunctionId(*self.functions.get(function_name).unwrap())
    }

    /// The id of a type of which only kind and name are known. See
    /// `ensure_raw_type_id`.
    pub fn ensure_type_id(&mut self, kind: TypeKind, lang_type: &str) -> (id: TypeId)
        requires
            old(self).wf(),
        ensures
            final(self).wf(),
            final(self)@ == old(self)@.ensure_type(kind, lang_type@).0,
            id == old(self)@.ensure_type(kind, lang_type@).1,
            final(self)@.tables().knows_type(id),
            final(self)@.tables().types[id.0 as int].lang_type == lang_type@,
            !old(self)@.types.contains_key(lang_type@) ==> id.0 == old(self)@.tables().types.len(),
            final(self)@.tables() == if old(self)@.types.contains_key(lang_type@) {
                old(self)@.tables()
            } else {
                old(self)@.tables().apply(EventView::Type(plain_type(kind, lang_type@)))
            },
            final(self)@.tables().extends(old(self)@.tables()),
    {
        let typ = self.to_raw_type(kind, lang_type);
        self.ensure_raw_type_id(typ)
    }

    /// The id of a type, by its name in the source language alone. A name
    /// seen before keeps its id, nothing is emitted, and the rest of the
    /// record is not looked at. A new name gets the next id, and the record
    /// is emitted as its definition; the type ids in it have to be defined.
    pub fn ensure_raw_type_id(&mut self, typ: TypeRecord) -> (id: TypeId)
        requires
            old(self).wf(),
            !old(self)@.types.contains_key(typ.lang_type@) ==> old(self)@.tables().type_ok(typ@),
        ensures
            final(self).wf(),
            final(self)@ == old(self)@.ensure_raw_type(typ@).0,
            id == old(self)@.ensure_raw_type(typ@).1,
            final(self)@.tables().knows_type(id),
            final(self)@.tables().types[id.0 as int].lang_type == typ.lang_type@,
            !old(self)@.types.contains_key(typ.lang_type@) ==> id.0
                == old(self)@.tables().types.len(),
            final(self)@.tables() == if old(self)@.types.contains_key(typ.lang_type@) {
                old(self)@.tables()
            } else {
                old(self)@.tables().apply(EventView::Type(typ@))
            },
            final(self)@.tables().extends(old(self)@.tables()),
    {
        broadcast use vstd::hash_map::group_hash_map_axioms;

        let name = typ.lang_type.clone();
        if !self.types.contains_key(name.as_str()) {
            let id = self.types.len();
            self.types.insert(name.clone(), id);
            proof {
                reveal(numbered);
                assert(self.types@.dom() =~= old(self)@.types.dom().insert(typ.lang_type@));
                assert(self.types.spec_len() == self.types@.len());
            }
            self.register_raw_type(typ);
        }
        proof {
            old(self)@.lemma_ensure_raw_type_wf(typ@);
            lemma_apply_extends(old(self)@.tables(), EventView::Type(typ@));
        }
        TypeId(*self.types.get(name.as_str()).unwrap())
    }

    /// The id of a variable name. A name seen before keeps its id, and
    /// nothing is emitted; a new name gets the next id, and its definition
    /// is emitted.
    pub fn ensure_variable_id(&mut self, variable_name: &str) -> (id: VariableId)
        requires
            old(self).wf(),
        ensures
            final(self).wf(),
            final(self)@ == old(self)@.ensure_variable(variable_name@).0,
            id == old(self)@.ensure_variable(variable_name@).1,
            final(self)@.tables().knows_variable(id),
            final(self)@.tables().variables[id.0 as int] == variable_name@,
            !old(self)@.variables.contains_key(variable_name@) ==> id.0
                == old(self)@.tables().variables.len(),
            final(self)@.tables() == if old(self)@.variables.contains_key(variable_name@) {
                old(self)@.tables()
            } else {
                old(self)@.tables().apply(EventView::VariableName(variable_name@))
            },
            final(self)@.tables().extends(old(self)@.tables()),
            final(self)@.tables().types == old(self)@.tables().types,
    {
        broadcast use vstd::hash_map::group_hash_map_axioms;

        if !self.variables.contains_key(variable_name) {
            let id = self.variables.len();
            self.variables.insert(variable_name.to_owned(), id);
            proof {
                reveal(numbered);
                assert(self.variables@.dom() =~= old(self)@.variables.dom().insert(
                    variable_name@,
                ));
                assert(self.variables.spec_len() == self.variables@.len());
            }
            self.register_variable_name(variable_name);
        }
        proof {
            old(self)@.lemma_ensure_variable_wf(variable_name@);
            lemma_apply_extends(old(self)@.tables(), EventView::VariableName(variable_name@));
        }
        VariableId(*self.variables.get(variable_name).unwrap())
    }

    /// Adds a path to the path table and emits its definition, without
    /// giving it an id: the low-level half of `ensure_path_id`. On its own
    /// it leaves the path table ahead of the ids.
    pub fn register_path(&mut self, path: &str)
        ensures
            final(self)@ == old(self)@.register_path(path@),
            old(self).wf() ==> !final(self).wf(),
    {
        proof {
            if self.wf() {
                self@.lemma_definition_alone_breaks_wf(EventView::Path(path@));
            }
        }
        self.path_list.push(path.to_owned());
        self.events.push(TraceLowLevelEvent::Path(path.to_owned()));
        proof {
            let goal = old(self)@.register_path(path@);
            assert(self@.path_list =~= goal.path_list);
            assert(self@.events =~= goal.events);
            assert(self@ =~= goal);
        }
    }

    /// Interns the path, adds the function to the function table and emits
    /// its definition, without giving it an id: the low-level half of
    /// `ensure_function_id`. On its own it leaves the function table ahead
    /// of the ids.
    pub fn register_function(&mut self, name: &str, path: &str, line: Line)
        requires
            old(self).wf(),
        ensures
            final(self)@ == old(self)@.register_function(name@, path@, line),
            !final(self).wf(),
    {
        proof {
            self@.lemma_function_alone_breaks_wf(name@, path@, line);
        }
        let path_id = self.ensure_path_id(path);
        self.function_list.push(FunctionRecord { path_id, line, name: name.to_owned() });
        self.events.push(
            TraceLowLevelEvent::Function(FunctionRecord { path_id, line, name: name.to_owned() }),
        );
        proof {
            let goal = old(self)@.register_function(name@, path@, line);
            assert(self@.function_list =~= goal.function_list);
            assert(self@.events =~= goal.events);
            assert(self@ =~= goal);
        }
    }

    /// Interns the path and emits a step at the location.
    pub fn register_step(&mut self, path: &str, line: Line)
        requires
            old(self).wf(),
        ensures
            final(self).wf(),
            final(self)@ == old(self)@.register_step(path@, line),
            final(self)@.tables().extends(old(self)@.tables()),
            final(self)@.tables().types == old(self)@.tables().types,
    {
        let path_id = self.ensure_path_id(path);
        proof {
            self@.lemma_emit_wf(EventView::Step(StepRecord { path_id, line }));
        }
        self.push_event(TraceLowLevelEvent::Step(StepRecord { path_id, line }));
    }

    /// Emits a call of a defined function with arguments whose variables and
    /// types are defined. For any function but the toplevel one, the value
    /// of each argument is emitted first, in order, then a step at the
    /// declaration of the function, then the call with the same arguments.
    /// The call of the toplevel function is emitted alone.
    pub fn register_call(&mut self, function_id: FunctionId, args: Vec<FullValueRecord>)
        requires
            old(self).wf(),
            old(self)@.tables().knows_function(function_id),
            old(self)@.tables().args_ok(full_values_view(args@)),
        ensures
            final(self).wf(),
            final(self)@ == old(self)@.register_call(function_id, full_values_view(args@)),
            final(self)@.tables() == old(self)@.tables(),
    {
        let ghost before = self@;
        let ghost arg_views = full_values_view(args@);
        if function_id.0 != 0 {
            let mut k: usize = 0;
            proof {
                assert(before.events + value_events(arg_views).subrange(0, 0) =~= before.events);
            }
            while k < args.len()
                invariant
                    k <= args.len(),
                    arg_views == full_values_view(args@),
                    before.wf(),
                    before.tables().args_ok(arg_views),
                    self.wf(),
                    self@ == before.emit_all(value_events(arg_views).subrange(0, k as int)),
                    self@.tables() == before.tables(),
                decreases args.len() - k,
            {
                assert(before.tables().full_value_ok(arg_views[k as int]));
                self.register_full_value(args[k].variable_id, args[k].value.clone());
                proof {
                    let done = value_events(arg_views).subrange(0, k as int);
                    let more = value_events(arg_views).subrange(0, k as int + 1);
                    assert(more =~= done.push(EventView::Value(arg_views[k as int])));
                    assert(before.events + more =~= (before.events + done).push(
                        EventView::Value(arg_views[k as int]),
                    ));
                    assert(self@ =~= before.emit_all(more));
                }
                k = k + 1;
            }
            proof {
                assert(value_events(arg_views).subrange(0, args.len() as int) =~= value_events(
                    arg_views,
                ));
            }
            let path_id = self.function_list[function_id.0].path_id;
            let line = self.function_list[function_id.0].line;
            self.push_event(TraceLowLevelEvent::Step(StepRecord { path_id, line }));
            proof {
                let step = EventView::Step(before.entry_step(function_id));
                assert(self@.events =~= before.events + value_events(arg_views).push(step));
            }
        }
        self.push_event(TraceLowLevelEvent::Call(CallRecord { function_id, args }));
        proof {
            let call = EventView::Call(CallView { function_id, args: arg_views });
            let goal = before.register_call(function_id, arg_views);
            if function_id.0 != 0 {
                let step = EventView::Step(before.entry_step(function_id));
                assert(self@.events =~= before.events + value_events(arg_views).push(step).push(
                    call,
                ));
            }
            assert(self@ =~= goal);
            before.lemma_register_call_wf(function_id, arg_views);
        }
    }

    /// Interns the name of an argument and pairs its id with the value.
    pub fn arg(&mut self, name: &str, value: ValueRecord) -> (arg: FullValueRecord)
        requires
            old(self).wf(),
        ensures
            final(self).wf(),
            final(self)@ == old(self)@.ensure_variable(name@).0,
            arg.variable_id == old(self)@.ensure_variable(name@).1,
            arg.value == value,
            final(self)@.tables().knows_variable(arg.variable_id),
            final(self)@.tables().extends(old(self)@.tables()),
            final(self)@.tables().types == old(self)@.tables().types,
    {
        let variable_id = self.ensure_variable_id(name);
        FullValueRecord { variable_id, value }
    }

    /// Emits the return of the current call with a value whose types are
    /// defined.
    pub fn register_return(&mut self, return_value: ValueRecord)
        requires
            old(self).wf(),
            old(self)@.tables().value_ok(return_value@),
        ensures
            final(self).wf(),
            final(self)@ == old(self)@.emit(
                EventView::Return(ReturnView { return_value: return_value@ }),
            ),
            final(self)@.tables() == old(self)@.tables(),
    {
        proof {
            self@.lemma_emit_wf(EventView::Return(ReturnView { return_value: return_value@ }));
        }
        self.push_event(TraceLowLevelEvent::Return(ReturnRecord { return_value }));
    }

    /// Emits a marker for a side effect, with empty metadata.
    pub fn register_special_event(&mut self, kind: EventLogKind, content: &str)
        requires
            old(self).wf(),
        ensures
            final(self).wf(),
            final(self)@ == old(self)@.emit(
                EventView::Event(
                    RecordEventView { kind, metadata: Seq::empty(), content: content@ },
                ),
            ),
            final(self)@.tables() == old(self)@.tables(),
    {
        proof {
            self@.lemma_emit_wf(
                EventView::Event(
                    RecordEventView { kind, metadata: Seq::empty(), content: content@ },
                ),
            );
        }
        self.push_event(
            TraceLowLevelEvent::Event(
                RecordEvent { kind, metadata: String::new(), content: content.to_owned() },
            ),
        );
    }

    /// Emits a marker for a side effect, with metadata.
    pub fn register_special_event_with_metadata(
        &mut self,
        kind: EventLogKind,
        metadata: &str,
        content: &str,
    )
        requires
            old(self).wf(),
        ensures
            final(self).wf(),
            final(self)@ == old(self)@.emit(
                EventView::Event(RecordEventView { kind, metadata: metadata@, content: content@ }),
            ),
            final(self)@.tables() == old(self)@.tables(),
    {
        proof {
            self@.lemma_emit_wf(
                EventView::Event(RecordEventView { kind, metadata: metadata@, content: content@ }),
            );
        }
        self.push_event(
            TraceLowLevelEvent::Event(
                RecordEvent { kind, metadata: metadata.to_owned(), content: content.to_owned() },
            ),
        );
    }

    /// Emits instructions as text.
    pub fn register_asm(&mut self, instructions: &[String])
        requires
            old(self).wf(),
        ensures
            final(self).wf(),
            final(self)@ == old(self)@.emit(EventView::Asm(strings_view(instructions@))),
            final(self)@.tables() == old(self)@.tables(),
    {
        proof {
            self@.lemma_emit_wf(EventView::Asm(strings_view(instructions@)));
        }
        self.push_event(TraceLowLevelEvent::Asm(copy_strings(instructions)));
    }

    /// The record of a type of which only kind and name are known.
    pub fn to_raw_type(&self, kind: TypeKind, lang_type: &str) -> (typ: TypeRecord)
        ensures
            typ@ == plain_type(kind, lang_type@),
    {
        TypeRecord {
            kind,
            lang_type: lang_type.to_owned(),
            specific_info: TypeSpecificInfo::NoneInfo,
        }
    }

    /// Emits the definition of a type of which only kind and name are known,
    /// without giving it an id. On its own it leaves the log ahead of the
    /// ids.
    pub fn register_type(&mut self, kind: TypeKind, lang_type: &str)
        ensures
            final(self)@ == old(self)@.register_type(kind, lang_type@),
            old(self).wf() ==> !final(self).wf(),
    {
        proof {
            if self.wf() {
                self@.lemma_definition_alone_breaks_wf(
                    EventView::Type(plain_type(kind, lang_type@)),
                );
            }
        }
        let typ = self.to_raw_type(kind, lang_type);
        self.push_event(TraceLowLevelEvent::Type(typ));
    }

    /// Emits a type record as the definition of a type, without giving it an
    /// id: the low-level half of `ensure_raw_type_id`. On its own it leaves
    /// the log ahead of the ids.
    pub fn register_raw_type(&mut self, typ: TypeRecord)
        ensures
            final(self)@ == old(self)@.emit(EventView::Type(typ@)),
            old(self).wf() ==> !final(self).wf(),
    {
        proof {
            if self.wf() {
                self@.lemma_definition_alone_breaks_wf(EventView::Type(typ@));
            }
        }
        self.push_event(TraceLowLevelEvent::Type(typ));
    }

    /// Interns the name and emits the binding of the variable to a snapshot
    /// of its value, whose types are defined.
    pub fn register_variable_with_full_value(&mut self, name: &str, value: ValueRecord)
        requires
            old(self).wf(),
            old(self)@.tables().value_ok(value@),
        ensures
            final(self).wf(),
            final(self)@ == old(self)@.register_variable_with_full_value(name@, value@),
            final(self)@.tables().extends(old(self)@.tables()),
            final(self)@.tables().types == old(self)@.tables().types,
    {
        let variable_id = self.ensure_variable_id(name);
        self.register_full_value(variable_id, value);
    }

    /// Emits the definition of a variable name, without giving it an id: the
    /// low-level half of `ensure_variable_id`. On its own it leaves the log
    /// ahead of the ids.
    pub fn register_variable_name(&mut self, variable_name: &str)
        ensures
            final(self)@ == old(self)@.emit(EventView::VariableName(variable_name@)),
            old(self).wf() ==> !final(self).wf(),
    {
        proof {
            if self.wf() {
                self@.lemma_definition_alone_breaks_wf(EventView::VariableName(variable_name@));
            }
        }
        self.push_event(TraceLowLevelEvent::VariableName(variable_name.to_owned()));
    }

    /// Emits the binding of a defined variable to a snapshot of its value,
    /// whose types are defined.
    pub fn register_full_value(&mut self, variable_id: VariableId, value: ValueRecord)
        requires
            old(self).wf(),
            old(self)@.tables().knows_variable(variable_id),
            old(self)@.tables().value_ok(value@),
        ensures
            final(self).wf(),
            final(self)@ == old(self)@.emit(
                EventView::Value(FullValueView { variable_id, value: value@ }),
            ),
            final(self)@.tables() == old(self)@.tables(),
    {
        proof {
            self@.lemma_emit_wf(EventView::Value(FullValueView { variable_id, value: value@ }));
        }
        self.push_event(TraceLowLevelEvent::Value(FullValueRecord { variable_id, value }));
    }

    /// Emits the definition of the aggregate stored in a place. Its elements
    /// may be cells of other places. The log keeps the place discipline if
    /// and only if it kept it before and the value holds no cell of `place`
    /// itself.
    pub fn register_compound_value(&mut self, place: Place, value: ValueRecord)
        requires
            old(self).wf(),
            old(self)@.tables().value_ok(value@),
        ensures
            final(self).wf(),
            final(self)@ == old(self)@.emit(
                EventView::CompoundValue(CompoundValueView { place, value: value@ }),
            ),
            final(self)@.tables() == old(self)@.tables(),
            place_graph_ok(final(self)@.events) <==> place_graph_ok(old(self)@.events)
                && !value@.mentions(place),
    {
        proof {
            let e = EventView::CompoundValue(CompoundValueView { place, value: value@ });
            self@.lemma_emit_wf(e);
            lemma_place_graph_push(self@.events, e);
        }
        self.push_event(TraceLowLevelEvent::CompoundValue(CompoundValueRecord { place, value }));
    }

    /// Emits the definition of the scalar stored in a place. The log keeps
    /// the place discipline if and only if it kept it before and the value
    /// holds no cell of `place` itself.
    pub fn register_cell_value(&mut self, place: Place, value: ValueRecord)
        requires
            old(self).wf(),
            old(self)@.tables().value_ok(value@),
        ensures
            final(self).wf(),
            final(self)@ == old(self)@.emit(
                EventView::CellValue(CellValueView { place, value: value@ }),
            ),
            final(self)@.tables() == old(self)@.tables(),
            place_graph_ok(final(self)@.events) <==> place_graph_ok(old(self)@.events)
                && !value@.mentions(place),
    {
        proof {
            let e = EventView::CellValue(CellValueView { place, value: value@ });
            self@.lemma_emit_wf(e);
            lemma_place_graph_push(self@.events, e);
        }
        self.push_event(TraceLowLevelEvent::CellValue(CellValueRecord { place, value }));
    }

    /// Emits the rebinding of element `index` of the aggregate in `place` to
    /// the cell `item_place`. The log keeps the place discipline if and only
    /// if it kept it before and an earlier event defined an aggregate in
    /// `place`.
    pub fn assign_compound_item(&mut self, place: Place, index: usize, item_place: Place)
        requires
            old(self).wf(),
        ensures
            final(self).wf(),
            final(self)@ == old(self)@.emit(
                EventView::AssignCompoundItem(
                    AssignCompoundItemRecord { place, index, item_place },
                ),
            ),
            final(self)@.tables() == old(self)@.tables(),
            place_graph_ok(final(self)@.events) <==> place_graph_ok(old(self)@.events)
                && compound_known(old(self)@.events, place),
    {
        proof {
            self@.lemma_emit_wf(
                EventView::AssignCompoundItem(
                    AssignCompoundItemRecord { place, index, item_place },
                ),
            );
            lemma_assign_compound_item_valid(self@.events, place, index, item_place);
        }
        self.push_event(
            TraceLowLevelEvent::AssignCompoundItem(
                AssignCompoundItemRecord { place, index, item_place },
            ),
        );
    }

    /// Emits the assignment of a value, whose types are defined, to the cell
    /// in `place`. The log keeps the place discipline if and only if it kept
    /// it before and an earlier event defined a scalar in `place` or made
    /// `place` an element of an aggregate.
    pub fn assign_cell(&mut self, place: Place, new_value: ValueRecord)
        requires
            old(self).wf(),
            old(self)@.tables().value_ok(new_value@),
        ensures
            final(self).wf(),
            final(self)@ == old(self)@.emit(
                EventView::AssignCell(AssignCellView { place, new_value: new_value@ }),
            ),
            final(self)@.tables() == old(self)@.tables(),
            place_graph_ok(final(self)@.events) <==> place_graph_ok(old(self)@.events)
                && cell_known(old(self)@.events, place),
    {
        proof {
            self@.lemma_emit_wf(
                EventView::AssignCell(AssignCellView { place, new_value: new_value@ }),
            );
            lemma_assign_cell_valid(self@.events, place, new_value@);
        }
        self.push_event(TraceLowLevelEvent::AssignCell(AssignCellRecord { place, new_value }));
    }

    /// Interns the name and emits the binding of the variable to a place
    /// whose value is tracked.
    pub fn register_variable(&mut self, variable_name: &str, place: Place)
        requires
            old(self).wf(),
        ensures
            final(self).wf(),
            final(self)@ == old(self)@.register_variable(variable_name@, place),
            final(self)@.tables().extends(old(self)@.tables()),
            final(self)@.tables().types == old(self)@.tables().types,
    {
        let variable_id = self.ensure_variable_id(variable_name);
        proof {
            self@.lemma_emit_wf(EventView::VariableCell(VariableCellRecord { variable_id, place }));
        }
        self.push_event(
            TraceLowLevelEvent::VariableCell(VariableCellRecord { variable_id, place }),
        );
    }

    /// Interns the name and emits the end of the variable.
    pub fn drop_variable(&mut self, variable_name: &str)
        requires
            old(self).wf(),
        ensures
            final(self).wf(),
            final(self)@ == old(self)@.drop_variable(variable_name@),
            final(self)@.tables().extends(old(self)@.tables()),
            final(self)@.tables().types == old(self)@.tables().types,
    {
        let variable_id = self.ensure_variable_id(variable_name);
        proof {
            self@.lemma_emit_wf(EventView::DropVariable(variable_id));
        }
        self.push_event(TraceLowLevelEvent::DropVariable(variable_id));
    }

    /// Interns the names, first to last, and emits the end of all the
    /// variables at once.
    pub fn drop_variables(&mut self, variable_names: &[String])
        requires
            old(self).wf(),
        ensures
            final(self).wf(),
            final(self)@ == old(self)@.drop_variables(strings_view(variable_names@)),
            final(self)@.tables().extends(old(self)@.tables()),
            final(self)@.tables().types == old(self)@.tables().types,
    {
        let variable_ids = self.ensure_variable_ids(variable_names);
        proof {
            self@.lemma_emit_wf(EventView::DropVariables(variable_ids@));
        }
        self.push_event(TraceLowLevelEvent::DropVariables(variable_ids));
    }

    /// Interns the name and emits the binding of the variable to a place.
    pub fn bind_variable(&mut self, variable_name: &str, place: Place)
        requires
            old(self).wf(),
        ensures
            final(self).wf(),
            final(self)@ == old(self)@.bind_variable(variable_name@, place),
            final(self)@.tables().extends(old(self)@.tables()),
            final(self)@.tables().types == old(self)@.tables().types,
    {
        let variable_id = self.ensure_variable_id(variable_name);
        proof {
            self@.lemma_emit_wf(EventView::BindVariable(BindVariableRecord { variable_id, place }));
        }
        self.push_event(
            TraceLowLevelEvent::BindVariable(BindVariableRecord { variable_id, place }),
        );
    }

    /// Interns the name of the target and emits the assignment from a source
    /// whose variables are defined.
    pub fn assign(&mut self, variable_name: &str, rvalue: RValue, pass_by: PassBy)
        requires
            old(self).wf(),
            match rvalue@ {
                RValueView::Simple(v) => old(self)@.tables().knows_variable(v),
                RValueView::Compound(vs) => old(self)@.tables().knows_variables(vs),
            },
        ensures
            final(self).wf(),
            final(self)@ == old(self)@.assign(variable_name@, rvalue@, pass_by),
            final(self)@.tables().extends(old(self)@.tables()),
            final(self)@.tables().types == old(self)@.tables().types,
    {
        let to = self.ensure_variable_id(variable_name);
        proof {
            self@.lemma_emit_wf(
                EventView::Assignment(AssignmentView { to, pass_by, from: rvalue@ }),
            );
        }
        self.push_event(
            TraceLowLevelEvent::Assignment(AssignmentRecord { to, pass_by, from: rvalue }),
        );
    }

    /// Interns the name and gives the source that is this one variable.
    pub fn simple_rvalue(&mut self, variable_name: &str) -> (rvalue: RValue)
        requires
            old(self).wf(),
        ensures
            final(self).wf(),
            final(self)@ == old(self)@.ensure_variable(variable_name@).0,
            rvalue == RValue::Simple(old(self)@.ensure_variable(variable_name@).1),
            final(self)@.tables().knows_variable(old(self)@.ensure_variable(variable_name@).1),
            final(self)@.tables().extends(old(self)@.tables()),
            final(self)@.tables().types == old(self)@.tables().types,
    {
        RValue::Simple(self.ensure_variable_id(variable_name))
    }

    /// Interns the names, first to last, and gives the source that merges
    /// these variables.
    pub fn compound_rvalue(&mut self, variable_dependencies: &[String]) -> (rvalue: RValue)
        requires
            old(self).wf(),
        ensures
            final(self).wf(),
            final(self)@ == old(self)@.ensure_variables(strings_view(variable_dependencies@)).0,
            rvalue@ == RValueView::Compound(
                old(self)@.ensure_variables(strings_view(variable_dependencies@)).1,
            ),
            final(self)@.tables().knows_variables(
                old(self)@.ensure_variables(strings_view(variable_dependencies@)).1,
            ),
            final(self)@.tables().extends(old(self)@.tables()),
            final(self)@.tables().types == old(self)@.tables().types,
    {
        RValue::Compound(self.ensure_variable_ids(variable_dependencies))
    }

    /// Interns a list of names, first to last, and gives their ids in the
    /// same order.
    fn ensure_variable_ids(&mut self, names: &[String]) -> (ids: Vec<VariableId>)
        requires
            old(self).wf(),
        ensures
            final(self).wf(),
            final(self)@ == old(self)@.ensure_variables(strings_view(names@)).0,
            ids@ == old(self)@.ensure_variables(strings_view(names@)).1,
            final(self)@.tables().knows_variables(ids@),
            final(self)@.tables().extends(old(self)@.tables()),
            final(self)@.tables().types == old(self)@.tables().types,
    {
        let ghost before = self@;
        let ghost all = strings_view(names@);
        let mut ids: Vec<VariableId> = Vec::new();
        let mut k: usize = 0;
        proof {
            assert(all.subrange(0, 0) =~= Seq::<Seq<char>>::empty());
        }
        while k < names.len()
            invariant
                k <= names.len(),
                all == strings_view(names@),
                self.wf(),
                self@ == before.ensure_variables(all.subrange(0, k as int)).0,
                ids@ == before.ensure_variables(all.subrange(0, k as int)).1,
                self@.tables().knows_variables(ids@),
                self@.tables().extends(before.tables()),
                self@.tables().types == before.tables().types,
            decreases names.len() - k,
        {
            let ghost mid = self@;
            let ghost done = ids@;
            let id = self.ensure_variable_id(names[k].as_str());
            ids.push(id);
            proof {
                let longer = all.subrange(0, k as int + 1);
                assert(longer.drop_last() =~= all.subrange(0, k as int));
                assert(longer.last() == names[k as int]@);
                assert forall|j: int| 0 <= j < ids@.len() implies self@.tables().knows_variable(
                    #[trigger] ids@[j],
                ) by {
                    if j < done.len() {
                        assert(mid.tables().knows_variable(done[j]));
                    }
                }
            }
            k = k + 1;
        }
        proof {
            assert(all.subrange(0, names.len() as int) =~= all);
        }
        ids
    }

    /// Emits the marker that cancels the step emitted last. Nothing is
    /// removed from the log.
    pub fn drop_last_step(&mut self)
        requires
            old(self).wf(),
        ensures
            final(self).wf(),
            final(self)@ == old(self)@.emit(EventView::DropLastStep),
            final(self)@.tables() == old(self)@.tables(),
    {
        proof {
            self@.lemma_emit_wf(EventView::DropLastStep);
        }
        self.push_event(TraceLowLevelEvent::DropLastStep);
    }
}

} // verus!
