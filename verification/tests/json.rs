use runtime_tracing::json::encoded;
use runtime_tracing::{EncodeError, Line, Tracer};

#[test]
fn the_path_table_is_written_as_an_array() {
    let mut tracer = Tracer::new("prog", &[], "/work");
    tracer.start("/test/path.small", Line(1));
    match tracer.trace_paths_json() {
        Ok(text) => assert_eq!(text, "[\"/test/path.small\"]"),
        Err(_) => panic!("the path table was not written"),
    }
    tracer.register_step("/test/with \"quotes\".small", Line(2));
    match tracer.trace_paths_json() {
        Ok(text) => assert_eq!(text, "[\"/test/path.small\",\"/test/with \\\"quotes\\\".small\"]"),
        Err(_) => panic!("the path table was not written"),
    }
}

#[test]
fn the_empty_path_table_is_an_empty_array() {
    let tracer = Tracer::new("prog", &[], "/work");
    match tracer.trace_paths_json() {
        Ok(text) => assert_eq!(text, "[]"),
        Err(_) => panic!("the path table was not written"),
    }
}

#[test]
fn the_path_table_is_read_back() {
    let mut tracer = Tracer::new("prog", &[], "/work");
    tracer.start("/a/b.small", Line(1));
    tracer.register_step("/a/c d.small", Line(2));
    tracer.register_step("/a/\u{e9}\n.small", Line(3));
    let text = match tracer.trace_paths_json() {
        Ok(text) => text,
        Err(_) => panic!("the path table was not written"),
    };
    let back: Vec<String> = serde_json::from_str(&text).unwrap();
    assert_eq!(&back, tracer.path_list());
}

#[test]
fn an_outcome_is_passed_on() {
    match encoded(Ok("[]".to_string())) {
        Ok(text) => assert_eq!(text, "[]"),
        Err(_) => panic!("a text was lost"),
    }
    let error = serde_json::from_str::<Vec<String>>("[").unwrap_err();
    let message = error.to_string();
    match encoded(Err(error)) {
        Err(EncodeError::Json(e)) => assert_eq!(e.to_string(), message),
        Ok(_) => panic!("an error was lost"),
    }
}
