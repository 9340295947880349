use runtime_tracing::{
    none_type_id, top_level_function_id, FunctionId, Line, PathId, TraceLowLevelEvent, Tracer,
    TypeId, TypeKind, TypeRecord, TypeSpecificInfo, VariableId,
};

fn started() -> Tracer {
    let mut tracer = Tracer::new("prog", &[], "/work");
    tracer.start("/src/main.small", Line(1));
    tracer
}

#[test]
fn new_tracer_is_empty() {
    let tracer = Tracer::new("prog", &["-v".to_string(), "x".to_string()], "/work");
    assert_eq!(tracer.events.len(), 0);
    assert_eq!(tracer.events().len(), 0);
    assert_eq!(tracer.path_list().len(), 0);
    let metadata = tracer.metadata();
    assert_eq!(metadata.program, "prog");
    assert_eq!(metadata.workdir, "/work");
    assert_eq!(metadata.args, vec!["-v".to_string(), "x".to_string()]);
}

#[test]
fn start_emits_the_bootstrap_events() {
    let tracer = started();
    assert_eq!(tracer.events.len(), 4);
    match &tracer.events[0] {
        TraceLowLevelEvent::Path(p) => assert_eq!(p, "/src/main.small"),
        _ => panic!("expected a path"),
    }
    match &tracer.events[1] {
        TraceLowLevelEvent::Function(f) => {
            assert_eq!(f.name, "<toplevel>");
            assert_eq!(f.path_id, PathId(0));
            assert_eq!(f.line, Line(1));
        }
        _ => panic!("expected a function"),
    }
    match &tracer.events[2] {
        TraceLowLevelEvent::Call(c) => {
            assert!(c.function_id == top_level_function_id());
            assert!(c.function_id == FunctionId(0));
            assert_eq!(c.args.len(), 0);
        }
        _ => panic!("expected a call"),
    }
    match &tracer.events[3] {
        TraceLowLevelEvent::Type(t) => {
            assert_eq!(t.lang_type, "None");
            assert!(t.kind == TypeKind::NoneKind);
            assert!(matches!(t.specific_info, TypeSpecificInfo::NoneInfo));
        }
        _ => panic!("expected a type"),
    }
    assert_eq!(tracer.path_list().len(), 1);
    assert_eq!(tracer.path_list()[0], "/src/main.small");
}

#[test]
fn bootstrap_ids_are_zero() {
    let mut tracer = started();
    assert!(tracer.ensure_function_id("<toplevel>", "/elsewhere", Line(9)) == FunctionId(0));
    assert!(tracer.ensure_type_id(TypeKind::NoneKind, "None") == TypeId(0));
    assert!(none_type_id() == TypeId(0));
    assert_eq!(tracer.events.len(), 4);
}

#[test]
fn first_ids_of_a_fresh_tracer_are_zero() {
    let mut tracer = Tracer::new("prog", &[], "/work");
    assert!(tracer.ensure_function_id("f", "/a", Line(2)) == FunctionId(0));
    assert!(tracer.ensure_type_id(TypeKind::Bool, "Bool") == TypeId(0));
    assert_eq!(tracer.ensure_variable_id("x"), VariableId(0));
    assert_eq!(tracer.ensure_path_id("/a"), PathId(0));
}

#[test]
fn path_interning_is_idempotent() {
    let mut tracer = started();
    let before = tracer.events.len();
    let first = tracer.ensure_path_id("/src/lib.small");
    assert_eq!(tracer.events.len(), before + 1);
    assert!(matches!(tracer.events.last().unwrap(), TraceLowLevelEvent::Path(p) if p == "/src/lib.small"));
    let second = tracer.ensure_path_id("/src/lib.small");
    assert_eq!(first, second);
    assert_eq!(first, PathId(1));
    assert_eq!(tracer.events.len(), before + 1);
    assert_eq!(tracer.ensure_path_id("/src/main.small"), PathId(0));
    assert_eq!(tracer.events.len(), before + 1);
    assert_eq!(tracer.path_list().len(), 2);
    assert_eq!(tracer.path_list()[1], "/src/lib.small");
}

#[test]
fn variable_interning_is_idempotent() {
    let mut tracer = started();
    let before = tracer.events.len();
    let x = tracer.ensure_variable_id("x");
    assert_eq!(x, VariableId(0));
    assert_eq!(tracer.events.len(), before + 1);
    assert!(matches!(tracer.events.last().unwrap(), TraceLowLevelEvent::VariableName(n) if n == "x"));
    assert_eq!(tracer.ensure_variable_id("x"), x);
    assert_eq!(tracer.events.len(), before + 1);
    assert_eq!(tracer.ensure_variable_id("y"), VariableId(1));
    assert_eq!(tracer.ensure_variable_id("x"), x);
    assert_eq!(tracer.events.len(), before + 2);
}

#[test]
fn type_interning_is_idempotent() {
    let mut tracer = started();
    let before = tracer.events.len();
    let int_id = tracer.ensure_type_id(TypeKind::Int, "Int");
    assert!(int_id == TypeId(1));
    assert_eq!(tracer.events.len(), before + 1);
    assert!(tracer.ensure_type_id(TypeKind::Int, "Int") == int_id);
    assert_eq!(tracer.events.len(), before + 1);
}

#[test]
fn a_type_is_known_by_its_name_alone() {
    let mut tracer = started();
    let int_id = tracer.ensure_type_id(TypeKind::Int, "Int");
    let before = tracer.events.len();
    let other = TypeRecord {
        kind: TypeKind::Pointer,
        lang_type: "Int".to_string(),
        specific_info: TypeSpecificInfo::Pointer { dereference_type_id: int_id },
    };
    assert!(tracer.ensure_raw_type_id(other) == int_id);
    assert_eq!(tracer.events.len(), before);
}

#[test]
fn a_raw_type_is_emitted_as_given() {
    let mut tracer = started();
    let int_id = tracer.ensure_type_id(TypeKind::Int, "Int");
    let pointer = TypeRecord {
        kind: TypeKind::Pointer,
        lang_type: "Ref<Int>".to_string(),
        specific_info: TypeSpecificInfo::Pointer { dereference_type_id: int_id },
    };
    let id = tracer.ensure_raw_type_id(pointer);
    assert!(id == TypeId(2));
    match tracer.events.last().unwrap() {
        TraceLowLevelEvent::Type(t) => {
            assert!(t.kind == TypeKind::Pointer);
            assert_eq!(t.lang_type, "Ref<Int>");
            assert!(matches!(
                t.specific_info,
                TypeSpecificInfo::Pointer { dereference_type_id } if dereference_type_id == int_id
            ));
        }
        _ => panic!("expected a type"),
    }
}

#[test]
fn function_interning_is_idempotent() {
    let mut tracer = started();
    let before = tracer.events.len();
    let f = tracer.ensure_function_id("f", "/src/main.small", Line(10));
    assert!(f == FunctionId(1));
    assert_eq!(tracer.events.len(), before + 1);
    match tracer.events.last().unwrap() {
        TraceLowLevelEvent::Function(r) => {
            assert_eq!(r.name, "f");
            assert_eq!(r.path_id, PathId(0));
            assert_eq!(r.line, Line(10));
        }
        _ => panic!("expected a function"),
    }
    assert!(tracer.ensure_function_id("f", "/src/main.small", Line(10)) == f);
    assert_eq!(tracer.events.len(), before + 1);
}

#[test]
fn a_new_function_in_a_new_path_defines_the_path_first() {
    let mut tracer = started();
    let before = tracer.events.len();
    let g = tracer.ensure_function_id("g", "/src/other.small", Line(4));
    assert!(g == FunctionId(1));
    assert_eq!(tracer.events.len(), before + 2);
    assert!(matches!(&tracer.events[before], TraceLowLevelEvent::Path(p) if p == "/src/other.small"));
    match &tracer.events[before + 1] {
        TraceLowLevelEvent::Function(r) => {
            assert_eq!(r.path_id, PathId(1));
            assert_eq!(r.name, "g");
        }
        _ => panic!("expected a function"),
    }
}

#[test]
fn functions_of_one_name_share_an_id() {
    let mut tracer = started();
    let first = tracer.ensure_function_id("run", "/src/a.small", Line(1));
    let before = tracer.events.len();
    let second = tracer.ensure_function_id("run", "/src/b.small", Line(77));
    assert!(first == second);
    assert_eq!(tracer.events.len(), before);
    assert_eq!(tracer.path_list().len(), 2);
}

#[test]
fn low_level_emitters_give_no_id() {
    let mut tracer = started();
    let before = tracer.events.len();
    tracer.register_variable_name("v");
    assert!(matches!(tracer.events.last().unwrap(), TraceLowLevelEvent::VariableName(n) if n == "v"));
    tracer.register_type(TypeKind::Float, "Float");
    match tracer.events.last().unwrap() {
        TraceLowLevelEvent::Type(t) => {
            assert!(t.kind == TypeKind::Float);
            assert_eq!(t.lang_type, "Float");
            assert!(matches!(t.specific_info, TypeSpecificInfo::NoneInfo));
        }
        _ => panic!("expected a type"),
    }
    tracer.register_raw_type(TypeRecord {
        kind: TypeKind::Struct,
        lang_type: "Empty".to_string(),
        specific_info: TypeSpecificInfo::Struct { fields: vec![] },
    });
    assert!(matches!(tracer.events.last().unwrap(), TraceLowLevelEvent::Type(t) if t.lang_type == "Empty"));
    tracer.register_path("/p");
    assert!(matches!(tracer.events.last().unwrap(), TraceLowLevelEvent::Path(p) if p == "/p"));
    assert_eq!(tracer.path_list().len(), 2);
    assert_eq!(tracer.events.len(), before + 4);
    let raw = tracer.to_raw_type(TypeKind::Char, "Char");
    assert!(raw.kind == TypeKind::Char);
    assert_eq!(raw.lang_type, "Char");
    assert_eq!(tracer.events.len(), before + 4);
}

#[test]
fn register_function_fills_the_table_without_an_id() {
    let mut tracer = started();
    let before = tracer.events.len();
    tracer.register_function("h", "/src/h.small", Line(5));
    assert_eq!(tracer.events.len(), before + 2);
    assert!(matches!(&tracer.events[before], TraceLowLevelEvent::Path(p) if p == "/src/h.small"));
    assert!(matches!(&tracer.events[before + 1], TraceLowLevelEvent::Function(f) if f.name == "h" && f.path_id == PathId(1) && f.line == Line(5)));
}
