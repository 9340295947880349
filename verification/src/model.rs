//! The state of a tracer as contracts see it, and each operation of the
//! tracer as a function on that state.
//!
//! A registry is a list of names in the order of first sight together with a
//! map from each name to its position in the list; ids are dense and start
//! at 0. The lists of variable and type names are not stored: they are the
//! tables that a reader builds from the log.

use vstd::prelude::*;
use crate::events::EventView;
use crate::ids::{FunctionId, Line, PathId, Place, TypeId, VariableId};
use crate::kinds::TypeKind;
use crate::records::{
    AssignmentView, BindVariableRecord, CallView, FullValueView, FunctionView, PassBy,
    RValueView, StepRecord, TypeSpecificInfoView, TypeView, VariableCellRecord,
};
use crate::values::ValueView;
use crate::stream::{
    function_names, is_definition, lemma_apply_extends, lemma_empty_log, lemma_tables_push,
    lemma_well_formed_push, tables_of, type_names, well_formed, Tables,
};

verus! {

/// The mathematical model of a tracer.
#[verifier::ext_equal]
pub struct TracerView {
    pub program: Seq<char>,
    pub args: Seq<Seq<char>>,
    pub workdir: Seq<char>,
    /// The event log.
    pub events: Seq<EventView>,
    /// The path table: entry `n` is the path that `PathId(n)` stands for.
    pub path_list: Seq<Seq<char>>,
    /// The function table: entry `n` is the declaration of `FunctionId(n)`.
    pub function_list: Seq<FunctionView>,
    /// The id of each interned path.
    pub paths: Map<Seq<char>, usize>,
    /// The id of each interned function, by name.
    pub functions: Map<Seq<char>, usize>,
    /// The id of each interned variable name.
    pub variables: Map<Seq<char>, usize>,
    /// The id of each interned type, by its name in the source language.
    pub types: Map<Seq<char>, usize>,
}

/// Whether `ids` numbers exactly the names of `names`, each by its position.
#[verifier::opaque]
pub open spec fn numbered(ids: Map<Seq<char>, usize>, names: Seq<Seq<char>>) -> bool {
    &&& ids.dom().finite()
    &&& ids.len() == names.len()
    &&& names.len() <= usize::MAX
    &&& forall|k: int|
        0 <= k < names.len() ==> ids.contains_key(#[trigger] names[k]) && ids[names[k]] == k
    &&& forall|n: Seq<char>| #[trigger]
        ids.contains_key(n) ==> ids[n] < names.len() && names[ids[n] as int] == n
}

/// The record of a type of which only kind and name are known.
pub open spec fn plain_type(kind: TypeKind, lang_type: Seq<char>) -> TypeView {
    TypeView { kind, lang_type, specific_info: TypeSpecificInfoView::NoneInfo }
}

/// The events that bind each argument of a call to its value, in order.
pub open spec fn value_events(args: Seq<FullValueView>) -> Seq<EventView> {
    Seq::new(args.len(), |k: int| EventView::Value(args[k]))
}

impl TracerView {
    /// The state of a tracer that has recorded nothing.
    pub open spec fn initial(program: Seq<char>, args: Seq<Seq<char>>, workdir: Seq<char>)
        -> TracerView {
        TracerView {
            program,
            args,
            workdir,
            events: Seq::empty(),
            path_list: Seq::empty(),
            function_list: Seq::empty(),
            paths: Map::empty(),
            functions: Map::empty(),
            variables: Map::empty(),
            types: Map::empty(),
        }
    }

    /// Whether nothing has been recorded or interned yet.
    pub open spec fn is_fresh(self) -> bool {
        self == Self::initial(self.program, self.args, self.workdir)
    }

    /// The tables a reader holds after the whole log.
    pub open spec fn tables(self) -> Tables {
        tables_of(self.events)
    }

    /// The invariant of a tracer: each registry numbers its names by first
    /// sight, the registries agree with the tables that a reader builds from
    /// the log, and the log keeps the identifier discipline.
    pub open spec fn wf(self) -> bool {
        &&& numbered(self.paths, self.path_list)
        &&& numbered(self.functions, function_names(self.function_list))
        &&& numbered(self.variables, self.tables().variables)
        &&& numbered(self.types, type_names(self.tables().types))
        &&& self.tables().paths == self.path_list
        &&& self.tables().functions == self.function_list
        &&& self.function_paths_known()
        &&& well_formed(self.events)
    }

    /// Whether every function of the function table is declared in a path of
    /// the path table.
    pub open spec fn function_paths_known(self) -> bool {
        forall|k: int|
            0 <= k < self.function_list.len() ==> (#[trigger] self.function_list[k]).path_id.0
                < self.path_list.len()
    }

    /// Appends one event.
    pub open spec fn emit(self, e: EventView) -> TracerView {
        TracerView { events: self.events.push(e), ..self }
    }

    /// Appends a run of events.
    pub open spec fn emit_all(self, es: Seq<EventView>) -> TracerView {
        TracerView { events: self.events + es, ..self }
    }

    /// Adds a path to the path table and emits its definition. The map of
    /// path ids is left alone.
    pub open spec fn register_path(self, path: Seq<char>) -> TracerView {
        TracerView {
            path_list: self.path_list.push(path),
            events: self.events.push(EventView::Path(path)),
            ..self
        }
    }

    /// Interns a path: a path seen before keeps its id and nothing changes; a
    /// new path gets the next id and its definition is emitted.
    pub open spec fn ensure_path(self, path: Seq<char>) -> (TracerView, PathId) {
        if self.paths.contains_key(path) {
            (self, PathId(self.paths[path]))
        } else {
            let id = self.paths.len() as usize;
            (
                TracerView { paths: self.paths.insert(path, id), ..self }.register_path(path),
                PathId(id),
            )
        }
    }

    /// Interns the path of a declaration, adds the function to the function
    /// table and emits its definition. The map of function ids is left alone.
    pub open spec fn register_function(self, name: Seq<char>, path: Seq<char>, line: Line)
        -> TracerView {
        let (s, path_id) = self.ensure_path(path);
        let f = FunctionView { path_id, line, name };
        TracerView {
            function_list: s.function_list.push(f),
            events: s.events.push(EventView::Function(f)),
            ..s
        }
    }

    /// Interns a function by its name: a name seen before keeps its id and
    /// nothing changes, whatever the declaration site given; a new name gets
    /// the next id and its definition is emitted, after that of its path
    /// where the path is new.
    pub open spec fn ensure_function(self, name: Seq<char>, path: Seq<char>, line: Line) -> (
        TracerView,
        FunctionId,
    ) {
        if self.functions.contains_key(name) {
            (self, FunctionId(self.functions[name]))
        } else {
            let id = self.functions.len() as usize;
            (
                TracerView { functions: self.functions.insert(name, id), ..self }.register_function(
                    name,
                    path,
                    line,
                ),
                FunctionId(id),
            )
        }
    }

    /// Interns a type by its name: a name seen before keeps its id and
    /// nothing changes, whatever the rest of the record; a new name gets the
    /// next id and the record is emitted as its definition.
    pub open spec fn ensure_raw_type(self, t: TypeView) -> (TracerView, TypeId) {
        if self.types.contains_key(t.lang_type) {
            (self, TypeId(self.types[t.lang_type]))
        } else {
            let id = self.types.len() as usize;
            (
                TracerView { types: self.types.insert(t.lang_type, id), ..self }.emit(
                    EventView::Type(t),
                ),
                TypeId(id),
            )
        }
    }

    /// Interns a type of which only kind and name are known.
    pub open spec fn ensure_type(self, kind: TypeKind, lang_type: Seq<char>) -> (
        TracerView,
        TypeId,
    ) {
        self.ensure_raw_type(plain_type(kind, lang_type))
    }

    /// Interns a variable name: a name seen before keeps its id and nothing
    /// changes; a new name gets the next id and its definition is emitted.
    pub open spec fn ensure_variable(self, name: Seq<char>) -> (TracerView, VariableId) {
        if self.variables.contains_key(name) {
            (self, VariableId(self.variables[name]))
        } else {
            let id = self.variables.len() as usize;
            (
                TracerView { variables: self.variables.insert(name, id), ..self }.emit(
                    EventView::VariableName(name),
                ),
                VariableId(id),
            )
        }
    }

    /// Interns a list of variable names from first to last, and gives their
    /// ids in the same order.
    pub open spec fn ensure_variables(self, names: Seq<Seq<char>>) -> (
        TracerView,
        Seq<VariableId>,
    )
        decreases names.len(),
    {
        if names.len() == 0 {
            (self, Seq::empty())
        } else {
            let (s, ids) = self.ensure_variables(names.drop_last());
            let (s2, id) = s.ensure_variable(names.last());
            (s2, ids.push(id))
        }
    }

    /// Interns the path and emits a step at the location.
    pub open spec fn register_step(self, path: Seq<char>, line: Line) -> TracerView {
        let (s, path_id) = self.ensure_path(path);
        s.emit(EventView::Step(StepRecord { path_id, line }))
    }

    /// The step that stands for entering a function: its declaration site.
    pub open spec fn entry_step(self, function_id: FunctionId) -> StepRecord {
        let f = self.function_list[function_id.0 as int];
        StepRecord { path_id: f.path_id, line: f.line }
    }

    /// Emits a call. For any function but the toplevel one, the value of each
    /// argument comes first, then a step at the declaration of the function,
    /// then the call. The toplevel call is emitted alone.
    pub open spec fn register_call(self, function_id: FunctionId, args: Seq<FullValueView>)
        -> TracerView {
        let call = EventView::Call(CallView { function_id, args });
        if function_id.0 == 0 {
            self.emit(call)
        } else {
            self.emit_all(
                value_events(args).push(EventView::Step(self.entry_step(function_id))).push(call),
            )
        }
    }

    /// Opens a session: interns the toplevel function, declared at the given
    /// location, emits its call without arguments, and interns the type of
    /// the absent value.
    pub open spec fn start(self, path: Seq<char>, line: Line) -> TracerView {
        self.ensure_function("<toplevel>"@, path, line).0.register_call(
            FunctionId(0),
            Seq::empty(),
        ).ensure_type(TypeKind::NoneKind, "None"@).0
    }

    /// Emits the definition of a type of which only kind and name are
    /// known, without giving it an id.
    pub open spec fn register_type(self, kind: TypeKind, lang_type: Seq<char>) -> TracerView {
        self.emit(EventView::Type(plain_type(kind, lang_type)))
    }

    /// Interns the name and emits the binding of the variable to a snapshot
    /// of its value.
    pub open spec fn register_variable_with_full_value(self, name: Seq<char>, value: ValueView)
        -> TracerView {
        let (s, variable_id) = self.ensure_variable(name);
        s.emit(EventView::Value(FullValueView { variable_id, value }))
    }

    /// Interns the name and emits the binding of the variable to a place
    /// whose value is tracked.
    pub open spec fn register_variable(self, name: Seq<char>, place: Place) -> TracerView {
        let (s, variable_id) = self.ensure_variable(name);
        s.emit(EventView::VariableCell(VariableCellRecord { variable_id, place }))
    }

    /// Interns the name and emits the end of the variable.
    pub open spec fn drop_variable(self, name: Seq<char>) -> TracerView {
        let (s, variable_id) = self.ensure_variable(name);
        s.emit(EventView::DropVariable(variable_id))
    }

    /// Interns the name and emits the binding of the variable to a place.
    pub open spec fn bind_variable(self, name: Seq<char>, place: Place) -> TracerView {
        let (s, variable_id) = self.ensure_variable(name);
        s.emit(EventView::BindVariable(BindVariableRecord { variable_id, place }))
    }

    /// Interns the name of the target and emits the assignment.
    pub open spec fn assign(self, name: Seq<char>, from: RValueView, pass_by: PassBy)
        -> TracerView {
        let (s, to) = self.ensure_variable(name);
        s.emit(EventView::Assignment(AssignmentView { to, pass_by, from }))
    }

    /// Interns the names and emits the end of all the variables at once.
    pub open spec fn drop_variables(self, names: Seq<Seq<char>>) -> TracerView {
        let (s, ids) = self.ensure_variables(names);
        s.emit(EventView::DropVariables(ids))
    }
}

/// A name is in a numbered list exactly when the map has it as a key.
pub proof fn lemma_numbered_contains(
    ids: Map<Seq<char>, usize>,
    names: Seq<Seq<char>>,
    name: Seq<char>,
)
    requires
        numbered(ids, names),
    ensures
        names.contains(name) <==> ids.contains_key(name),
{
    reveal(numbered);
    if ids.contains_key(name) {
        assert(names[ids[name] as int] == name);
    }
}

/// Giving a new name the next position keeps a registry numbered.
pub proof fn lemma_numbered_insert(
    ids: Map<Seq<char>, usize>,
    names: Seq<Seq<char>>,
    name: Seq<char>,
)
    requires
        numbered(ids, names),
        !ids.contains_key(name),
        names.len() < usize::MAX,
    ensures
        numbered(ids.insert(name, ids.len() as usize), names.push(name)),
{
    reveal(numbered);
    let ids2 = ids.insert(name, ids.len() as usize);
    let names2 = names.push(name);
    assert(ids2.dom() =~= ids.dom().insert(name));
    assert forall|k: int| 0 <= k < names2.len() implies ids2.contains_key(#[trigger] names2[k])
        && ids2[names2[k]] == k by {
        if k < names.len() {
            assert(ids.contains_key(names[k]));
        }
    }
    assert forall|n: Seq<char>| #[trigger] ids2.contains_key(n) implies ids2[n] < names2.len()
        && names2[ids2[n] as int] == n by {
        if n != name {
            assert(ids.contains_key(n));
        }
    }
}

impl TracerView {
    /// A tracer that has recorded nothing is well formed.
    pub proof fn lemma_initial_wf(program: Seq<char>, args: Seq<Seq<char>>, workdir: Seq<char>)
        ensures
            Self::initial(program, args, workdir).wf(),
            Self::initial(program, args, workdir).tables() == Tables::empty(),
    {
        reveal(numbered);
        let s = Self::initial(program, args, workdir);
        lemma_empty_log();
        assert(function_names(s.function_list) =~= Seq::empty());
        assert(type_names(s.tables().types) =~= Seq::empty());
    }

    /// An event that defines nothing, and that the tables accept, keeps the
    /// tracer well formed and the tables as they are.
    pub proof fn lemma_emit_wf(self, e: EventView)
        requires
            self.wf(),
            !is_definition(e),
            self.tables().accepts(e),
        ensures
            self.emit(e).wf(),
            self.emit(e).tables() == self.tables(),
    {
        lemma_tables_push(self.events, e);
        lemma_well_formed_push(self.events, e);
    }

    /// A run of events that define nothing, each accepted by the tables,
    /// keeps the tracer well formed and the tables as they are.
    pub proof fn lemma_emit_all_wf(self, es: Seq<EventView>)
        requires
            self.wf(),
            forall|k: int|
                0 <= k < es.len() ==> !is_definition(#[trigger] es[k]) && self.tables().accepts(
                    es[k],
                ),
        ensures
            self.emit_all(es).wf(),
            self.emit_all(es).tables() == self.tables(),
        decreases es.len(),
    {
        if es.len() == 0 {
            assert(self.events + es =~= self.events);
        } else {
            let shorter = es.drop_last();
            self.lemma_emit_all_wf(shorter);
            let mid = self.emit_all(shorter);
            mid.lemma_emit_wf(es.last());
            assert(self.events + es =~= (self.events + shorter).push(es.last()));
        }
    }

    /// Interning a path keeps the tracer well formed. The id is defined
    /// afterwards and stands for the path; no other table changes.
    pub proof fn lemma_ensure_path_wf(self, path: Seq<char>)
        requires
            self.wf(),
            self.paths.contains_key(path) || self.paths.len() < usize::MAX,
        ensures
            self.ensure_path(path).0.wf(),
            self.ensure_path(path).0.tables().knows_path(self.ensure_path(path).1),
            self.ensure_path(path).0.path_list[self.ensure_path(path).1.0 as int] == path,
            self.ensure_path(path).0.tables() == if self.paths.contains_key(path) {
                self.tables()
            } else {
                self.tables().apply(EventView::Path(path))
            },
            !self.paths.contains_key(path) ==> self.ensure_path(path).1.0 == self.path_list.len(),
    {
        reveal(numbered);
        if !self.paths.contains_key(path) {
            let e = EventView::Path(path);
            lemma_numbered_contains(self.paths, self.path_list, path);
            lemma_numbered_insert(self.paths, self.path_list, path);
            lemma_tables_push(self.events, e);
            lemma_well_formed_push(self.events, e);
        }
    }

    /// Interning a variable name keeps the tracer well formed. The id is
    /// defined afterwards and stands for the name; no other table changes.
    pub proof fn lemma_ensure_variable_wf(self, name: Seq<char>)
        requires
            self.wf(),
            self.variables.contains_key(name) || self.variables.len() < usize::MAX,
        ensures
            self.ensure_variable(name).0.wf(),
            self.ensure_variable(name).0.tables().knows_variable(self.ensure_variable(name).1),
            self.ensure_variable(name).0.tables().variables[self.ensure_variable(name).1.0 as int]
                == name,
            self.ensure_variable(name).0.tables() == if self.variables.contains_key(name) {
                self.tables()
            } else {
                self.tables().apply(EventView::VariableName(name))
            },
            !self.variables.contains_key(name) ==> self.ensure_variable(name).1.0
                == self.tables().variables.len(),
    {
        reveal(numbered);
        if !self.variables.contains_key(name) {
            let e = EventView::VariableName(name);
            lemma_numbered_contains(self.variables, self.tables().variables, name);
            lemma_numbered_insert(self.variables, self.tables().variables, name);
            lemma_tables_push(self.events, e);
            lemma_well_formed_push(self.events, e);
        }
    }
}

impl TracerView {
    /// A definition event alone, without its id, leaves a well-formed tracer
    /// ill formed: the reader's table is then one entry ahead of the ids.
    pub proof fn lemma_definition_alone_breaks_wf(self, e: EventView)
        requires
            self.wf(),
            is_definition(e),
        ensures
            !self.emit(e).wf(),
            e matches EventView::Path(p) ==> !self.register_path(p).wf(),
    {
        reveal(numbered);
        lemma_tables_push(self.events, e);
        match e {
            EventView::Path(p) => {
                assert(self.register_path(p).path_list.len() == self.path_list.len() + 1);
            },
            EventView::Type(t) => {
                assert(type_names(self.tables().types.push(t)).len() == self.tables().types.len()
                    + 1);
                assert(type_names(self.tables().types).len() == self.tables().types.len());
            },
            _ => {},
        }
    }

    /// A function added to the function table without its id leaves a
    /// well-formed tracer ill formed.
    pub proof fn lemma_function_alone_breaks_wf(self, name: Seq<char>, path: Seq<char>, line: Line)
        requires
            self.wf(),
        ensures
            !self.register_function(name, path, line).wf(),
    {
        reveal(numbered);
        let after = self.register_function(name, path, line);
        assert(function_names(after.function_list).len() == self.function_list.len() + 1);
        assert(function_names(self.function_list).len() == self.function_list.len());
    }

    /// Interning a function keeps the tracer well formed. The id is defined
    /// afterwards and stands for a function of that name; the tables of
    /// types and of variable names do not change.
    pub proof fn lemma_ensure_function_wf(self, name: Seq<char>, path: Seq<char>, line: Line)
        requires
            self.wf(),
            self.functions.contains_key(name) || {
                &&& self.functions.len() < usize::MAX
                &&& self.paths.contains_key(path) || self.paths.len() < usize::MAX
            },
        ensures
            self.ensure_function(name, path, line).0.wf(),
            self.ensure_function(name, path, line).0.tables().knows_function(
                self.ensure_function(name, path, line).1,
            ),
            self.ensure_function(name, path, line).0.function_list[self.ensure_function(
                name,
                path,
                line,
            ).1.0 as int].name == name,
            self.ensure_function(name, path, line).0.tables().types == self.tables().types,
            self.ensure_function(name, path, line).0.tables().variables == self.tables().variables,
            self.ensure_function(name, path, line).0.tables().extends(self.tables()),
            self.ensure_function(name, path, line).0.tables() == if self.functions.contains_key(
                name,
            ) {
                self.tables()
            } else {
                self.ensure_path(path).0.tables().apply(
                    EventView::Function(
                        FunctionView { path_id: self.ensure_path(path).1, line, name },
                    ),
                )
            },
            !self.functions.contains_key(name) ==> self.ensure_function(name, path, line).1.0
                == self.function_list.len(),
    {
        reveal(numbered);
        lemma_apply_extends(self.tables(), EventView::Path(path));
        if !self.functions.contains_key(name) {
            let id = self.functions.len() as usize;
            let s0 = TracerView { functions: self.functions.insert(name, id), ..self };
            let (s1, path_id) = s0.ensure_path(path);
            let (t1, _) = self.ensure_path(path);
            self.lemma_ensure_path_wf(path);
            assert(s1 =~= TracerView { functions: s0.functions, ..t1 });
            let f = FunctionView { path_id, line, name };
            let e = EventView::Function(f);
            let names = function_names(self.function_list);
            lemma_numbered_contains(self.functions, names, name);
            lemma_numbered_insert(self.functions, names, name);
            assert(function_names(self.function_list.push(f)) =~= names.push(name));
            lemma_tables_push(t1.events, e);
            lemma_well_formed_push(t1.events, e);
            assert(function_names(t1.tables().functions) =~= names);
            lemma_apply_extends(t1.tables(), e);
            let after = t1.tables().apply(e);
            assert(self.tables().paths.is_prefix_of(after.paths));
            assert(self.tables().functions =~= after.functions.subrange(
                0,
                self.tables().functions.len() as int,
            ));
        }
    }

    /// Interning a type keeps the tracer well formed, provided that the
    /// record of a new type refers to defined types only. The id is defined
    /// afterwards and stands for a type of that name; the other tables do
    /// not change.
    pub proof fn lemma_ensure_raw_type_wf(self, t: TypeView)
        requires
            self.wf(),
            self.types.contains_key(t.lang_type) || {
                &&& self.types.len() < usize::MAX
                &&& self.tables().type_ok(t)
            },
        ensures
            self.ensure_raw_type(t).0.wf(),
            self.ensure_raw_type(t).0.tables().knows_type(self.ensure_raw_type(t).1),
            self.ensure_raw_type(t).0.tables().types[self.ensure_raw_type(t).1.0 as int].lang_type
                == t.lang_type,
            self.ensure_raw_type(t).0.tables() == if self.types.contains_key(t.lang_type) {
                self.tables()
            } else {
                self.tables().apply(EventView::Type(t))
            },
            !self.types.contains_key(t.lang_type) ==> self.ensure_raw_type(t).1.0
                == self.tables().types.len(),
    {
        reveal(numbered);
        let names = type_names(self.tables().types);
        if !self.types.contains_key(t.lang_type) {
            let e = EventView::Type(t);
            lemma_numbered_contains(self.types, names, t.lang_type);
            lemma_numbered_insert(self.types, names, t.lang_type);
            lemma_tables_push(self.events, e);
            lemma_well_formed_push(self.events, e);
            assert(type_names(self.tables().types.push(t)) =~= names.push(t.lang_type));
        } else {
            assert(names[self.types[t.lang_type] as int] == t.lang_type);
        }
    }

    /// A call of a defined function with readable arguments keeps the tracer
    /// well formed and defines nothing.
    pub proof fn lemma_register_call_wf(self, function_id: FunctionId, args: Seq<FullValueView>)
        requires
            self.wf(),
            self.tables().knows_function(function_id),
            self.tables().args_ok(args),
        ensures
            self.register_call(function_id, args).wf(),
            self.register_call(function_id, args).tables() == self.tables(),
    {
        let call = EventView::Call(CallView { function_id, args });
        if function_id.0 == 0 {
            self.lemma_emit_wf(call);
        } else {
            let step = EventView::Step(self.entry_step(function_id));
            let es = value_events(args).push(step).push(call);
            assert(self.tables().knows_path(self.function_list[function_id.0 as int].path_id));
            assert forall|k: int| 0 <= k < es.len() implies !is_definition(#[trigger] es[k])
                && self.tables().accepts(es[k]) by {
                if k < args.len() {
                    assert(es[k] == EventView::Value(args[k]));
                    assert(self.tables().full_value_ok(args[k]));
                }
            }
            self.lemma_emit_all_wf(es);
        }
    }

    /// Opening a session on a tracer that has recorded nothing emits four
    /// events: the path of the toplevel function, the toplevel function, its
    /// call, and the type of the absent value. The toplevel function gets id
    /// 0, and so does that type.
    pub proof fn lemma_start(self, path: Seq<char>, line: Line)
        requires
            self.is_fresh(),
        ensures
            self.start(path, line).wf(),
            self.start(path, line).events == seq![
                EventView::Path(path),
                EventView::Function(FunctionView { path_id: PathId(0), line, name: "<toplevel>"@ }),
                EventView::Call(CallView { function_id: FunctionId(0), args: Seq::empty() }),
                EventView::Type(plain_type(TypeKind::NoneKind, "None"@)),
            ],
            self.start(path, line).path_list == seq![path],
            self.start(path, line).function_list == seq![
                FunctionView { path_id: PathId(0), line, name: "<toplevel>"@ },
            ],
            self.start(path, line).functions == Map::<Seq<char>, usize>::empty().insert(
                "<toplevel>"@,
                0,
            ),
            self.start(path, line).types == Map::<Seq<char>, usize>::empty().insert("None"@, 0),
            self.start(path, line).paths == Map::<Seq<char>, usize>::empty().insert(path, 0),
            self.start(path, line).variables == Map::<Seq<char>, usize>::empty(),
            self.start(path, line).tables().types == seq![plain_type(TypeKind::NoneKind, "None"@)],
            self.start(path, line).tables().variables == Seq::<Seq<char>>::empty(),
    {
        reveal(numbered);
        Self::lemma_initial_wf(self.program, self.args, self.workdir);
        let (s1, f) = self.ensure_function("<toplevel>"@, path, line);
        self.lemma_ensure_function_wf("<toplevel>"@, path, line);
        assert(f == FunctionId(0));
        s1.lemma_register_call_wf(FunctionId(0), Seq::empty());
        let s2 = s1.register_call(FunctionId(0), Seq::empty());
        s2.lemma_ensure_raw_type_wf(plain_type(TypeKind::NoneKind, "None"@));
        let s3 = s2.ensure_type(TypeKind::NoneKind, "None"@).0;
        assert(s3.events =~= seq![
            EventView::Path(path),
            EventView::Function(FunctionView { path_id: PathId(0), line, name: "<toplevel>"@ }),
            EventView::Call(CallView { function_id: FunctionId(0), args: Seq::empty() }),
            EventView::Type(plain_type(TypeKind::NoneKind, "None"@)),
        ]);
        assert(s3.tables().types =~= seq![plain_type(TypeKind::NoneKind, "None"@)]);
        assert(s3.path_list =~= seq![path]);
        assert(s3.function_list =~= seq![
            FunctionView { path_id: PathId(0), line, name: "<toplevel>"@ },
        ]);
    }
}

} // verus!
