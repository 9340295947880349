use runtime_tracing::{
    none_value, EventLogKind, FunctionId, Line, PassBy, PathId, Place, RValue, StepRecord,
    TraceLowLevelEvent, Tracer, TypeKind, ValueRecord, VariableId,
};

fn started() -> Tracer {
    let mut tracer = Tracer::new("prog", &[], "/work");
    tracer.start("/src/main.small", Line(1));
    tracer
}

#[test]
fn a_call_emits_values_then_step_then_call() {
    let mut tracer = started();
    let int_id = tracer.ensure_type_id(TypeKind::Int, "Int");
    let f = tracer.ensure_function_id("add", "/src/math.small", Line(12));
    let x = tracer.arg("x", ValueRecord::Int { i: 3, type_id: int_id });
    let y = tracer.arg("y", ValueRecord::Int { i: 4, type_id: int_id });
    let before = tracer.events.len();
    tracer.register_call(f, vec![x, y]);
    assert_eq!(tracer.events.len(), before + 4);
    match &tracer.events[before] {
        TraceLowLevelEvent::Value(v) => {
            assert_eq!(v.variable_id, VariableId(0));
            assert_eq!(v.value, ValueRecord::Int { i: 3, type_id: int_id });
        }
        _ => panic!("expected the value of x"),
    }
    match &tracer.events[before + 1] {
        TraceLowLevelEvent::Value(v) => {
            assert_eq!(v.variable_id, VariableId(1));
            assert_eq!(v.value, ValueRecord::Int { i: 4, type_id: int_id });
        }
        _ => panic!("expected the value of y"),
    }
    match &tracer.events[before + 2] {
        TraceLowLevelEvent::Step(StepRecord { path_id, line }) => {
            assert_eq!(*path_id, PathId(1));
            assert_eq!(*line, Line(12));
        }
        _ => panic!("expected the entry step"),
    }
    match &tracer.events[before + 3] {
        TraceLowLevelEvent::Call(c) => {
            assert!(c.function_id == f);
            assert_eq!(c.args.len(), 2);
            assert_eq!(c.args[0].variable_id, VariableId(0));
            assert_eq!(c.args[0].value, ValueRecord::Int { i: 3, type_id: int_id });
            assert_eq!(c.args[1].variable_id, VariableId(1));
            assert_eq!(c.args[1].value, ValueRecord::Int { i: 4, type_id: int_id });
        }
        _ => panic!("expected the call"),
    }
}

#[test]
fn a_call_without_arguments_emits_step_then_call() {
    let mut tracer = started();
    let f = tracer.ensure_function_id("f", "/src/main.small", Line(7));
    let before = tracer.events.len();
    tracer.register_call(f, vec![]);
    assert_eq!(tracer.events.len(), before + 2);
    assert!(matches!(
        &tracer.events[before],
        TraceLowLevelEvent::Step(StepRecord { path_id, line }) if *path_id == PathId(0) && *line == Line(7)
    ));
    assert!(matches!(&tracer.events[before + 1], TraceLowLevelEvent::Call(c) if c.function_id == f));
}

#[test]
fn the_toplevel_call_is_emitted_alone() {
    let mut tracer = started();
    let x = tracer.arg("x", none_value());
    let before = tracer.events.len();
    tracer.register_call(FunctionId(0), vec![x]);
    assert_eq!(tracer.events.len(), before + 1);
    match tracer.events.last().unwrap() {
        TraceLowLevelEvent::Call(c) => {
            assert!(c.function_id == FunctionId(0));
            assert_eq!(c.args.len(), 1);
            assert_eq!(c.args[0].value, none_value());
        }
        _ => panic!("expected the call"),
    }
}

#[test]
fn arg_interns_the_name_and_keeps_the_value() {
    let mut tracer = started();
    let before = tracer.events.len();
    let a = tracer.arg("a", none_value());
    assert_eq!(a.variable_id, VariableId(0));
    assert_eq!(a.value, none_value());
    assert_eq!(tracer.events.len(), before + 1);
    let bool_id = tracer.ensure_type_id(TypeKind::Bool, "Bool");
    let again = tracer.arg("a", ValueRecord::Bool { b: true, type_id: bool_id });
    assert_eq!(again.variable_id, VariableId(0));
    assert_eq!(again.value, ValueRecord::Bool { b: true, type_id: bool_id });
    assert_eq!(tracer.events.len(), before + 2);
}

#[test]
fn a_step_and_its_cancellation_add_two_events() {
    let mut tracer = started();
    tracer.register_step("/src/main.small", Line(2));
    let before = tracer.events.len();
    let kept: Vec<String> = tracer.events.iter().map(|e| format!("{:?}", e)).collect();
    tracer.register_step("/src/main.small", Line(3));
    tracer.drop_last_step();
    assert_eq!(tracer.events.len(), before + 2);
    assert!(matches!(tracer.events.last().unwrap(), TraceLowLevelEvent::DropLastStep));
    assert!(matches!(
        &tracer.events[before],
        TraceLowLevelEvent::Step(StepRecord { path_id, line }) if *path_id == PathId(0) && *line == Line(3)
    ));
    for k in 0..before {
        assert_eq!(format!("{:?}", tracer.events[k]), kept[k]);
    }
}

#[test]
fn a_step_in_a_new_path_defines_the_path_first() {
    let mut tracer = started();
    let before = tracer.events.len();
    tracer.register_step("/src/new.small", Line(3));
    tracer.drop_last_step();
    assert_eq!(tracer.events.len(), before + 3);
    assert!(matches!(&tracer.events[before], TraceLowLevelEvent::Path(p) if p == "/src/new.small"));
    assert!(matches!(
        &tracer.events[before + 1],
        TraceLowLevelEvent::Step(StepRecord { path_id, line }) if *path_id == PathId(1) && *line == Line(3)
    ));
    assert!(matches!(tracer.events.last().unwrap(), TraceLowLevelEvent::DropLastStep));
}

#[test]
fn return_and_special_events() {
    let mut tracer = started();
    let before = tracer.events.len();
    tracer.register_return(none_value());
    assert!(matches!(
        tracer.events.last().unwrap(),
        TraceLowLevelEvent::Return(r) if r.return_value == none_value()
    ));
    tracer.register_special_event(EventLogKind::Write, "hello");
    match tracer.events.last().unwrap() {
        TraceLowLevelEvent::Event(e) => {
            assert!(e.kind == EventLogKind::Write);
            assert_eq!(e.metadata, "");
            assert_eq!(e.content, "hello");
        }
        _ => panic!("expected an event"),
    }
    tracer.register_special_event_with_metadata(EventLogKind::ReadFile, "/etc/hosts", "127.0.0.1");
    match tracer.events.last().unwrap() {
        TraceLowLevelEvent::Event(e) => {
            assert!(e.kind == EventLogKind::ReadFile);
            assert_eq!(e.metadata, "/etc/hosts");
            assert_eq!(e.content, "127.0.0.1");
        }
        _ => panic!("expected an event"),
    }
    tracer.register_asm(&["mov".to_string(), "ret".to_string()]);
    match tracer.events.last().unwrap() {
        TraceLowLevelEvent::Asm(lines) => assert_eq!(lines, &vec!["mov".to_string(), "ret".to_string()]),
        _ => panic!("expected instructions"),
    }
    assert_eq!(tracer.events.len(), before + 4);
}

#[test]
fn full_value_of_a_variable() {
    let mut tracer = started();
    let int_id = tracer.ensure_type_id(TypeKind::Int, "Int");
    let before = tracer.events.len();
    tracer.register_variable_with_full_value("n", ValueRecord::Int { i: 5, type_id: int_id });
    assert_eq!(tracer.events.len(), before + 2);
    assert!(matches!(&tracer.events[before], TraceLowLevelEvent::VariableName(n) if n == "n"));
    match &tracer.events[before + 1] {
        TraceLowLevelEvent::Value(v) => {
            assert_eq!(v.variable_id, VariableId(0));
            assert_eq!(v.value, ValueRecord::Int { i: 5, type_id: int_id });
        }
        _ => panic!("expected a value"),
    }
    tracer.register_full_value(VariableId(0), ValueRecord::Int { i: 6, type_id: int_id });
    assert_eq!(tracer.events.len(), before + 3);
    assert!(matches!(
        tracer.events.last().unwrap(),
        TraceLowLevelEvent::Value(v) if v.variable_id == VariableId(0) && v.value == ValueRecord::Int { i: 6, type_id: int_id }
    ));
}

#[test]
fn the_place_graph_events() {
    let mut tracer = started();
    let int_id = tracer.ensure_type_id(TypeKind::Int, "Int");
    let list_id = tracer.ensure_type_id(TypeKind::SeqKind, "List<Int>");
    let before = tracer.events.len();
    tracer.register_cell_value(Place(10), ValueRecord::Int { i: 1, type_id: int_id });
    assert!(matches!(
        tracer.events.last().unwrap(),
        TraceLowLevelEvent::CellValue(c) if c.place == Place(10) && c.value == ValueRecord::Int { i: 1, type_id: int_id }
    ));
    tracer.register_compound_value(
        Place(20),
        ValueRecord::Sequence {
            elements: vec![ValueRecord::Cell { place: Place(10) }],
            is_slice: false,
            type_id: list_id,
        },
    );
    match tracer.events.last().unwrap() {
        TraceLowLevelEvent::CompoundValue(c) => {
            assert_eq!(c.place, Place(20));
            assert_eq!(
                c.value,
                ValueRecord::Sequence {
                    elements: vec![ValueRecord::Cell { place: Place(10) }],
                    is_slice: false,
                    type_id: list_id,
                }
            );
        }
        _ => panic!("expected a compound value"),
    }
    tracer.assign_cell(Place(10), ValueRecord::Int { i: 2, type_id: int_id });
    assert!(matches!(
        tracer.events.last().unwrap(),
        TraceLowLevelEvent::AssignCell(a) if a.place == Place(10) && a.new_value == ValueRecord::Int { i: 2, type_id: int_id }
    ));
    tracer.register_cell_value(Place(11), ValueRecord::Int { i: 3, type_id: int_id });
    tracer.assign_compound_item(Place(20), 0, Place(11));
    assert!(matches!(
        tracer.events.last().unwrap(),
        TraceLowLevelEvent::AssignCompoundItem(a) if a.place == Place(20) && a.index == 0 && a.item_place == Place(11)
    ));
    tracer.register_variable("xs", Place(20));
    assert!(matches!(
        tracer.events.last().unwrap(),
        TraceLowLevelEvent::VariableCell(v) if v.variable_id == VariableId(0) && v.place == Place(20)
    ));
    assert_eq!(tracer.events.len(), before + 7);
}

#[test]
fn the_history_events() {
    let mut tracer = started();
    let before = tracer.events.len();
    tracer.bind_variable("a", Place(1));
    assert!(matches!(
        tracer.events.last().unwrap(),
        TraceLowLevelEvent::BindVariable(b) if b.variable_id == VariableId(0) && b.place == Place(1)
    ));
    tracer.bind_variable("b", Place(2));
    tracer.bind_variable("c", Place(3));
    assert_eq!(tracer.events.len(), before + 6);

    let simple = tracer.simple_rvalue("b");
    assert!(matches!(simple, RValue::Simple(v) if v == VariableId(1)));
    tracer.assign("a", simple, PassBy::Reference);
    match tracer.events.last().unwrap() {
        TraceLowLevelEvent::Assignment(a) => {
            assert_eq!(a.to, VariableId(0));
            assert!(matches!(a.pass_by, PassBy::Reference));
            assert!(matches!(a.from, RValue::Simple(v) if v == VariableId(1)));
        }
        _ => panic!("expected an assignment"),
    }

    let compound = tracer.compound_rvalue(&["c".to_string(), "d".to_string(), "b".to_string()]);
    match &compound {
        RValue::Compound(vs) => assert_eq!(vs, &vec![VariableId(2), VariableId(3), VariableId(1)]),
        _ => panic!("expected a compound source"),
    }
    assert!(matches!(tracer.events.last().unwrap(), TraceLowLevelEvent::VariableName(n) if n == "d"));
    tracer.assign("a", compound, PassBy::Value);
    match tracer.events.last().unwrap() {
        TraceLowLevelEvent::Assignment(a) => {
            assert_eq!(a.to, VariableId(0));
            assert!(matches!(a.pass_by, PassBy::Value));
            assert!(matches!(&a.from, RValue::Compound(vs) if vs == &vec![VariableId(2), VariableId(3), VariableId(1)]));
        }
        _ => panic!("expected an assignment"),
    }

    let before_drop = tracer.events.len();
    tracer.drop_variable("a");
    assert!(matches!(tracer.events.last().unwrap(), TraceLowLevelEvent::DropVariable(v) if *v == VariableId(0)));
    tracer.drop_variables(&["b".to_string(), "e".to_string()]);
    assert_eq!(tracer.events.len(), before_drop + 3);
    assert!(matches!(&tracer.events[before_drop + 1], TraceLowLevelEvent::VariableName(n) if n == "e"));
    assert!(matches!(
        tracer.events.last().unwrap(),
        TraceLowLevelEvent::DropVariables(vs) if vs == &vec![VariableId(1), VariableId(4)]
    ));
    tracer.drop_variables(&[]);
    assert!(matches!(tracer.events.last().unwrap(), TraceLowLevelEvent::DropVariables(vs) if vs.is_empty()));
    assert!(matches!(PassBy::default(), PassBy::Value));
}

#[test]
fn end_to_end_scenario() {
    let mut tracer = Tracer::new("prog", &[], "/work");
    let path = "/src/main.small";
    tracer.start(path, Line(1));
    assert_eq!(tracer.events.len(), 4);
    tracer.register_step(path, Line(2));
    assert_eq!(tracer.events.len(), 5);
    let int_id = tracer.ensure_type_id(TypeKind::Int, "Int");
    assert_eq!(tracer.events.len(), 6);
    let f = tracer.ensure_function_id("f", path, Line(10));
    assert_eq!(tracer.events.len(), 7);
    let a = tracer.arg("a", ValueRecord::Int { i: 1, type_id: int_id });
    let b = tracer.arg("b", ValueRecord::Int { i: 2, type_id: int_id });
    assert_eq!(tracer.events.len(), 9);
    tracer.register_call(f, vec![a, b]);
    assert_eq!(tracer.events.len(), 13);
    tracer.register_return(none_value());
    assert_eq!(tracer.events.len(), 14);
    tracer.drop_variables(&["a".to_string(), "b".to_string()]);
    assert_eq!(tracer.events.len(), 15);

    let events = &tracer.events;
    assert!(matches!(events[0], TraceLowLevelEvent::Path(_)));
    assert!(matches!(events[1], TraceLowLevelEvent::Function(_)));
    assert!(matches!(events[2], TraceLowLevelEvent::Call(_)));
    assert!(matches!(events[3], TraceLowLevelEvent::Type(_)));
    assert!(matches!(events[4], TraceLowLevelEvent::Step(StepRecord { path_id: PathId(0), line: Line(2) })));
    assert!(matches!(events[5], TraceLowLevelEvent::Type(_)));
    assert!(matches!(events[6], TraceLowLevelEvent::Function(_)));
    assert!(matches!(events[7], TraceLowLevelEvent::VariableName(_)));
    assert!(matches!(events[8], TraceLowLevelEvent::VariableName(_)));
    assert!(matches!(events[9], TraceLowLevelEvent::Value(_)));
    assert!(matches!(events[10], TraceLowLevelEvent::Value(_)));
    assert!(matches!(events[11], TraceLowLevelEvent::Step(StepRecord { path_id: PathId(0), line: Line(10) })));
    assert!(matches!(events[12], TraceLowLevelEvent::Call(_)));
    assert!(matches!(events[13], TraceLowLevelEvent::Return(_)));
    assert!(matches!(&events[14], TraceLowLevelEvent::DropVariables(vs) if vs == &vec![VariableId(0), VariableId(1)]));
}
