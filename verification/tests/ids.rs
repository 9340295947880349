use runtime_tracing::{
    no_key, CallKey, FunctionId, Line, PathId, Place, StepId, TypeId, VariableId,
};

#[test]
fn ids_convert_to_indices() {
    let p: usize = PathId(3).into();
    assert_eq!(p, 3);
    let v: usize = VariableId(4).into();
    assert_eq!(v, 4);
    let f: usize = FunctionId(5).into();
    assert_eq!(f, 5);
    let t: usize = TypeId(6).into();
    assert_eq!(t, 6);
    let l: usize = Line(7).into();
    assert_eq!(l, 7);
    let l64: i64 = Line(-7).into();
    assert_eq!(l64, -7);
    let s: usize = StepId(8).into();
    assert_eq!(s, 8);
    let c: usize = CallKey(9).into();
    assert_eq!(c, 9);
}

#[test]
fn the_sentinel_key_wraps_to_the_largest_index() {
    assert_eq!(no_key(), CallKey(-1));
    let c: usize = no_key().into();
    assert_eq!(c, usize::MAX);
}

#[test]
fn keys_and_steps_move() {
    assert_eq!(CallKey(2) + 3, CallKey(5));
    assert_eq!(no_key() + 1, CallKey(0));
    let mut key = CallKey(10);
    key += 5;
    assert_eq!(key, CallKey(15));
    assert_eq!(StepId(10) + 4, StepId(14));
    assert_eq!(StepId(10) - 4, StepId(6));
    assert_eq!(StepId(0) - 1, StepId(-1));
}

#[test]
fn default_ids_are_zero() {
    assert_eq!(Place::default(), Place(0));
    assert_eq!(CallKey::default(), CallKey(0));
    assert_eq!(Line::default(), Line(0));
    assert_eq!(PathId::default(), PathId(0));
    assert_eq!(StepId::default(), StepId(0));
    assert_eq!(VariableId::default(), VariableId(0));
    assert_eq!(TypeId::default(), TypeId(0));
}

#[test]
fn ids_are_ordered_by_their_number() {
    assert!(PathId(1) < PathId(2));
    assert!(Place(-1) < Place(0));
    assert!(StepId(3) > StepId(2));
    assert!(VariableId(0) <= VariableId(0));
}
