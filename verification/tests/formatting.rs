use pyroscope_backends::{push_decimal, StackFrame, StackFrameFormatter, StackTrace};

fn frame(path: &str, lineno: usize, name: &str) -> StackFrame {
    StackFrame {
        absolute_path: None,
        relative_path: path.to_string(),
        lineno,
        name: name.to_string(),
    }
}

fn decimal(n: usize) -> String {
    let mut out = String::new();
    push_decimal(&mut out, n);
    out
}

#[test]
fn test_stack_frame_formatter() {
    let frame = StackFrame {
        absolute_path: Some("".to_string()),
        relative_path: "test.rb".to_string(),
        lineno: 1,
        name: "test".to_string(),
    };
    let formatter = StackFrameFormatter(&frame);
    assert_eq!(formatter.to_string(), "test.rb:1 - test");
}

#[test]
fn frame_with_empty_name_and_path_still_formats() {
    let f = frame("", 0, "");
    assert_eq!(StackFrameFormatter(&f).to_string(), ":0 - ");
}

#[test]
fn frame_separators_are_not_escaped() {
    let f = frame("a b.rb", 12, "x;y - z");
    assert_eq!(StackFrameFormatter(&f).to_string(), "a b.rb:12 - x;y - z");
}

#[test]
fn frame_ignores_the_absolute_path() {
    let mut f = frame("lib/a.rb", 42, "run");
    f.absolute_path = Some("/srv/app/lib/a.rb".to_string());
    assert_eq!(StackFrameFormatter(&f).to_string(), "lib/a.rb:42 - run");
}

#[test]
fn decimal_of_single_digits() {
    assert_eq!(decimal(0), "0");
    assert_eq!(decimal(7), "7");
    assert_eq!(decimal(9), "9");
}

#[test]
fn decimal_of_longer_numbers() {
    assert_eq!(decimal(10), "10");
    assert_eq!(decimal(100), "100");
    assert_eq!(decimal(12345), "12345");
    assert_eq!(decimal(9876543210), "9876543210");
    assert_eq!(decimal(usize::MAX), usize::MAX.to_string());
}

#[test]
fn decimal_appends_to_what_is_there() {
    let mut out = "line ".to_string();
    push_decimal(&mut out, 305);
    assert_eq!(out, "line 305");
}

#[test]
fn folded_key_reverses_the_trace() {
    let trace = StackTrace {
        trace: vec![frame("leaf.rb", 3, "leaf"), frame("middle.rb", 2, "middle"), frame("root.rb", 1, "root")],
    };
    assert_eq!(
        trace.folded_key(),
        "root.rb:1 - root;middle.rb:2 - middle;leaf.rb:3 - leaf"
    );
}

#[test]
fn folded_key_of_one_frame_has_no_separator() {
    let trace = StackTrace { trace: vec![frame("only.rb", 8, "only")] };
    assert_eq!(trace.folded_key(), "only.rb:8 - only");
}

#[test]
fn folded_key_of_no_frames_is_empty() {
    let trace = StackTrace { trace: Vec::new() };
    assert_eq!(trace.folded_key(), "");
}

#[test]
fn folded_key_grows_at_the_front_with_an_outer_caller() {
    let inner = StackTrace { trace: vec![frame("a.rb", 1, "a"), frame("b.rb", 2, "b")] };
    let outer = StackTrace {
        trace: vec![frame("a.rb", 1, "a"), frame("b.rb", 2, "b"), frame("c.rb", 3, "c")],
    };
    assert_eq!(outer.folded_key(), format!("c.rb:3 - c;{}", inner.folded_key()));
}
