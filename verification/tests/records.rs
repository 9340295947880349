use runtime_tracing::{
    AssignmentRecord, CallRecord, FieldTypeRecord, FullValueRecord, FunctionId, Line, PassBy,
    PathId, Place, RValue, StepRecord, TraceLowLevelEvent, TraceMetadata, TypeId, TypeKind,
    TypeRecord, TypeSpecificInfo, ValueRecord, VariableId, VariableRecord,
};

fn shown(event: &TraceLowLevelEvent) -> String {
    format!("{:?}", event)
}

fn samples() -> Vec<TraceLowLevelEvent> {
    vec![
        TraceLowLevelEvent::Step(StepRecord { path_id: PathId(1), line: Line(2) }),
        TraceLowLevelEvent::Path("/a/b".to_string()),
        TraceLowLevelEvent::VariableName("x".to_string()),
        TraceLowLevelEvent::Variable("y".to_string()),
        TraceLowLevelEvent::Type(TypeRecord {
            kind: TypeKind::Struct,
            lang_type: "Point".to_string(),
            specific_info: TypeSpecificInfo::Struct {
                fields: vec![
                    FieldTypeRecord { name: "x".to_string(), type_id: TypeId(1) },
                    FieldTypeRecord { name: "y".to_string(), type_id: TypeId(1) },
                ],
            },
        }),
        TraceLowLevelEvent::Call(CallRecord {
            function_id: FunctionId(3),
            args: vec![FullValueRecord {
                variable_id: VariableId(0),
                value: ValueRecord::String { text: "s".to_string(), type_id: TypeId(2) },
            }],
        }),
        TraceLowLevelEvent::Asm(vec!["nop".to_string()]),
        TraceLowLevelEvent::Assignment(AssignmentRecord {
            to: VariableId(1),
            pass_by: PassBy::Reference,
            from: RValue::Compound(vec![VariableId(2), VariableId(3)]),
        }),
        TraceLowLevelEvent::DropVariables(vec![VariableId(4), VariableId(5)]),
        TraceLowLevelEvent::DropVariable(VariableId(6)),
        TraceLowLevelEvent::DropLastStep,
    ]
}

#[test]
fn a_cloned_event_shows_the_same() {
    for event in samples() {
        assert_eq!(shown(&event.clone()), shown(&event));
    }
}

#[test]
fn a_cloned_event_is_a_copy_of_its_own() {
    let event = TraceLowLevelEvent::Asm(vec!["nop".to_string()]);
    let mut copy = event.clone();
    if let TraceLowLevelEvent::Asm(lines) = &mut copy {
        lines.push("ret".to_string());
    }
    assert!(matches!(&event, TraceLowLevelEvent::Asm(lines) if lines.len() == 1));
    assert!(matches!(&copy, TraceLowLevelEvent::Asm(lines) if lines.len() == 2));
}

#[test]
fn records_are_cloned_part_by_part() {
    let metadata = TraceMetadata {
        workdir: "/w".to_string(),
        program: "p".to_string(),
        args: vec!["a".to_string(), "b".to_string()],
    };
    let copy = metadata.clone();
    assert_eq!(copy.workdir, "/w");
    assert_eq!(copy.program, "p");
    assert_eq!(copy.args, vec!["a".to_string(), "b".to_string()]);

    let variable = VariableRecord {
        name: "v".to_string(),
        value: ValueRecord::Cell { place: Place(9) },
    };
    let copy = variable.clone();
    assert_eq!(copy.name, "v");
    assert_eq!(copy.value, ValueRecord::Cell { place: Place(9) });

    assert!(matches!(PassBy::Reference.clone(), PassBy::Reference));
    assert!(matches!(PassBy::Value.clone(), PassBy::Value));
    let source = RValue::Compound(vec![VariableId(1), VariableId(0)]);
    assert!(matches!(source.clone(), RValue::Compound(vs) if vs == vec![VariableId(1), VariableId(0)]));
    assert!(matches!(RValue::Simple(VariableId(7)).clone(), RValue::Simple(v) if v == VariableId(7)));
}
