use pyroscope_backends::{
    render_report, traces_from_sampled, RbspyFormatter, RbspyWriter, StackFrame, StackTrace,
};

fn frame(path: &str, lineno: usize, name: &str) -> StackFrame {
    StackFrame {
        absolute_path: None,
        relative_path: path.to_string(),
        lineno,
        name: name.to_string(),
    }
}

fn trace_one() -> StackTrace {
    StackTrace { trace: vec![frame("a.rb", 2, "work"), frame("main.rb", 1, "main")] }
}

fn trace_two() -> StackTrace {
    StackTrace { trace: vec![frame("b.rb", 7, "idle"), frame("main.rb", 1, "main")] }
}

fn written(formatter: &mut RbspyFormatter) -> String {
    let mut buffer: Vec<u8> = Vec::new();
    let mut writer = RbspyWriter::new(&mut buffer);
    formatter.complete(&mut writer).unwrap();
    writer.flush().unwrap();
    String::from_utf8(buffer).unwrap()
}

fn sampled(path: &str, lineno: Option<usize>, name: &str) -> rbspy::StackFrame {
    rbspy::StackFrame {
        name: name.to_string(),
        relative_path: path.to_string(),
        absolute_path: Some(format!("/abs/{}", path)),
        lineno,
    }
}

fn sampled_trace(frames: Vec<rbspy::StackFrame>) -> rbspy::StackTrace {
    let mut trace = rbspy::StackTrace::new_empty();
    trace.trace = frames;
    trace
}

#[test]
fn empty_table_writes_nothing() {
    let mut formatter = RbspyFormatter::default();
    assert_eq!(written(&mut formatter), "");
}

#[test]
fn one_trace_gives_one_line_with_count_one() {
    let mut formatter = RbspyFormatter::default();
    formatter.record(&trace_one()).unwrap();
    assert_eq!(written(&mut formatter), "main.rb:1 - main;a.rb:2 - work 1\n");
}

#[test]
fn repeated_trace_is_counted_not_repeated() {
    let mut formatter = RbspyFormatter::default();
    formatter.record(&trace_one()).unwrap();
    formatter.record(&trace_two()).unwrap();
    formatter.record(&trace_two()).unwrap();
    let text = written(&mut formatter);
    let lines: Vec<&str> = text.lines().collect();
    assert_eq!(lines.len(), 2);
    assert!(lines.contains(&"main.rb:1 - main;a.rb:2 - work 1"));
    assert!(lines.contains(&"main.rb:1 - main;b.rb:7 - idle 2"));
    assert!(text.ends_with('\n'));
}

#[test]
fn lines_come_in_the_order_of_first_occurrence() {
    let mut formatter = RbspyFormatter::default();
    formatter.record(&trace_two()).unwrap();
    formatter.record(&trace_one()).unwrap();
    formatter.record(&trace_two()).unwrap();
    formatter.record(&trace_one()).unwrap();
    formatter.record(&trace_two()).unwrap();
    assert_eq!(
        written(&mut formatter),
        "main.rb:1 - main;b.rb:7 - idle 3\nmain.rb:1 - main;a.rb:2 - work 2\n"
    );
}

#[test]
fn count_passes_ten_with_all_its_digits() {
    let mut formatter = RbspyFormatter::default();
    for _ in 0..12 {
        formatter.record(&trace_one()).unwrap();
    }
    assert_eq!(written(&mut formatter), "main.rb:1 - main;a.rb:2 - work 12\n");
}

#[test]
fn trace_without_frames_counts_under_the_empty_key() {
    let mut formatter = RbspyFormatter::default();
    formatter.record(&StackTrace { trace: Vec::new() }).unwrap();
    formatter.record(&StackTrace { trace: Vec::new() }).unwrap();
    assert_eq!(written(&mut formatter), " 2\n");
}

#[test]
fn complete_stages_and_does_not_flush() {
    let mut formatter = RbspyFormatter::default();
    formatter.record(&trace_one()).unwrap();
    let mut buffer: Vec<u8> = Vec::new();
    {
        let mut writer = RbspyWriter::new(&mut buffer);
        formatter.complete(&mut writer).unwrap();
        assert_eq!(writer.data, b"main.rb:1 - main;a.rb:2 - work 1\n".to_vec());
    }
    assert!(buffer.is_empty());
}

#[test]
fn complete_leaves_the_table_as_it_was() {
    let mut formatter = RbspyFormatter::default();
    formatter.record(&trace_one()).unwrap();
    let first = written(&mut formatter);
    let second = written(&mut formatter);
    assert_eq!(first, second);
}

#[test]
fn report_without_traces_is_empty() {
    let report = render_report(&Vec::new(), &Vec::new()).unwrap();
    assert_eq!(report.len(), 0);
}

#[test]
fn report_counts_one_and_two() {
    let traces = vec![trace_one(), trace_two(), trace_two()];
    let report = render_report(&Vec::new(), &traces).unwrap();
    assert_eq!(
        String::from_utf8(report).unwrap(),
        "main.rb:1 - main;a.rb:2 - work 1\nmain.rb:1 - main;b.rb:7 - idle 2\n"
    );
}

#[test]
fn failed_status_does_not_withhold_the_report() {
    let statuses = vec![
        Ok(()),
        Err(anyhow::Error::msg("process ended")),
        Err(anyhow::Error::msg("permission denied")),
    ];
    let traces = vec![trace_one(), trace_two(), trace_two()];
    let with_failures = render_report(&statuses, &traces).unwrap();
    let without = render_report(&Vec::new(), &traces).unwrap();
    assert_eq!(with_failures, without);
    assert_eq!(
        String::from_utf8(with_failures).unwrap(),
        "main.rb:1 - main;a.rb:2 - work 1\nmain.rb:1 - main;b.rb:7 - idle 2\n"
    );
}

#[test]
fn failed_status_without_traces_gives_an_empty_report() {
    let statuses = vec![Err(anyhow::Error::msg("no such process"))];
    assert_eq!(render_report(&statuses, &Vec::new()).unwrap(), Vec::<u8>::new());
}

#[test]
fn report_is_utf8_of_the_text() {
    let traces = vec![StackTrace { trace: vec![frame("über.rb", 5, "grüße")] }];
    let report = render_report(&Vec::new(), &traces).unwrap();
    assert_eq!(report, "über.rb:5 - grüße 1\n".as_bytes().to_vec());
}

#[test]
fn sampled_traces_keep_frames_and_order() {
    let drained = vec![
        sampled_trace(vec![sampled("leaf.rb", Some(3), "leaf"), sampled("root.rb", Some(1), "root")]),
        sampled_trace(Vec::new()),
    ];
    let traces = traces_from_sampled(&drained);
    assert_eq!(traces.len(), 2);
    assert_eq!(traces[0].trace.len(), 2);
    assert_eq!(traces[0].trace[0].name, "leaf");
    assert_eq!(traces[0].trace[0].relative_path, "leaf.rb");
    assert_eq!(traces[0].trace[0].absolute_path, Some("/abs/leaf.rb".to_string()));
    assert_eq!(traces[0].trace[0].lineno, 3);
    assert_eq!(traces[0].trace[1].name, "root");
    assert_eq!(traces[0].trace[1].lineno, 1);
    assert_eq!(traces[0].folded_key(), "root.rb:1 - root;leaf.rb:3 - leaf");
    assert!(traces[1].trace.is_empty());
}

#[test]
fn sampled_frame_without_a_line_gets_line_zero() {
    let drained = vec![sampled_trace(vec![sampled("(unknown)", None, "(unknown) [c function]")])];
    let traces = traces_from_sampled(&drained);
    assert_eq!(traces[0].trace[0].lineno, 0);
    assert_eq!(traces[0].folded_key(), "(unknown):0 - (unknown) [c function]");
}

#[test]
fn count_follows_the_records() {
    let mut formatter = RbspyFormatter::default();
    let one = trace_one().folded_key();
    let two = trace_two().folded_key();
    assert_eq!(formatter.count(&one), 0);
    formatter.record(&trace_one()).unwrap();
    formatter.record(&trace_two()).unwrap();
    formatter.record(&trace_two()).unwrap();
    assert_eq!(formatter.count(&one), 1);
    assert_eq!(formatter.count(&two), 2);
    assert_eq!(formatter.count(&"never seen".to_string()), 0);
}
