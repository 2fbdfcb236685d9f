use python_diagnostics::{
    classify, emit_compile_error_msg, host_frame_line, span_for_line, Anchor, Frame,
    InterpreterFailure, LineColumn, TokenSpan,
};

fn token(file: &str, line: usize, start: usize, end: usize) -> TokenSpan {
    TokenSpan {
        file: file.to_string(),
        start: LineColumn { line, column: start },
        end: LineColumn { line, column: end },
    }
}

fn failure(kind: &str) -> InterpreterFailure {
    InterpreterFailure {
        kind_name: kind.to_string(),
        has_value: true,
        is_syntax_error: false,
        lineno: None,
        msg: None,
        frames: Vec::new(),
        text: None,
    }
}

fn frame(file: &str, line: usize) -> Frame {
    Frame { file: file.to_string(), line }
}

#[test]
fn syntax_error_is_anchored_on_its_line() {
    let mut f = failure("SyntaxError");
    f.is_syntax_error = true;
    f.lineno = Some(3);
    f.msg = Some("invalid syntax".to_string());
    f.text = Some("invalid syntax (<string>, line 3)".to_string());
    let tokens = vec![
        token("host.rs", 2, 4, 9),
        token("host.rs", 3, 5, 10),
        token("host.rs", 3, 12, 20),
        token("host.rs", 4, 0, 3),
    ];
    let d = emit_compile_error_msg(&f, "host.rs", &tokens);
    assert_eq!(d.message, "python: invalid syntax");
    match d.anchor {
        Anchor::Line(ls) => {
            assert_eq!(ls.first, 1);
            assert_eq!(ls.last, 2);
            assert_eq!(ls.span.start, LineColumn { line: 3, column: 5 });
            assert_eq!(ls.span.end, LineColumn { line: 3, column: 20 });
        }
        Anchor::CallSite => panic!("expected a span on line 3"),
    }
}

#[test]
fn empty_payload_goes_to_call_site() {
    let mut f = failure("RuntimeError");
    f.has_value = false;
    f.text = Some("ignored".to_string());
    let tokens = vec![token("host.rs", 1, 0, 4)];
    let d = emit_compile_error_msg(&f, "host.rs", &tokens);
    assert_eq!(d.message, "python: RuntimeError");
    assert!(matches!(d.anchor, Anchor::CallSite));
}

#[test]
fn traceback_line_without_tokens_goes_to_call_site() {
    let mut f = failure("ValueError");
    f.frames = vec![frame("/lib/foo.py", 12), frame("<host.rs>", 7)];
    f.text = Some("bad value".to_string());
    let c = classify(&f, "<host.rs>");
    assert_eq!(c.message, "bad value");
    assert_eq!(c.line, Some(7));
    let tokens = vec![token("<host.rs>", 6, 0, 4), token("<host.rs>", 8, 0, 4)];
    let d = emit_compile_error_msg(&f, "<host.rs>", &tokens);
    assert_eq!(d.message, "python: bad value");
    assert!(matches!(d.anchor, Anchor::CallSite));
}

#[test]
fn syntax_error_wins_over_traceback() {
    let mut f = failure("SyntaxError");
    f.is_syntax_error = true;
    f.lineno = Some(2);
    f.msg = Some("unexpected indent".to_string());
    f.frames = vec![frame("host.rs", 9)];
    f.text = Some("whole text".to_string());
    let c = classify(&f, "host.rs");
    assert_eq!(c.message, "unexpected indent");
    assert_eq!(c.line, Some(2));
}

#[test]
fn syntax_error_without_message_falls_through() {
    let mut f = failure("SyntaxError");
    f.is_syntax_error = true;
    f.lineno = Some(2);
    f.frames = vec![frame("host.rs", 9)];
    f.text = Some("rendered".to_string());
    let c = classify(&f, "host.rs");
    assert_eq!(c.message, "rendered");
    assert_eq!(c.line, Some(9));
}

#[test]
fn syntax_attributes_on_other_kind_are_ignored() {
    let mut f = failure("IndentationError");
    f.lineno = Some(2);
    f.msg = Some("indent".to_string());
    f.text = Some("rendered".to_string());
    let c = classify(&f, "host.rs");
    assert_eq!(c.message, "rendered");
    assert_eq!(c.line, None);
}

#[test]
fn first_matching_frame_is_used() {
    let frames = vec![frame("a.py", 1), frame("host.rs", 4), frame("host.rs", 8)];
    assert_eq!(host_frame_line(&frames, &"host.rs".to_string()), Some(4));
    assert_eq!(host_frame_line(&frames, &"other.rs".to_string()), None);
    assert_eq!(host_frame_line(&Vec::new(), &"host.rs".to_string()), None);
}

#[test]
fn traceback_without_rendered_text_falls_back_to_kind() {
    let mut f = failure("KeyError");
    f.frames = vec![frame("host.rs", 4)];
    let c = classify(&f, "host.rs");
    assert_eq!(c.message, "KeyError");
    assert_eq!(c.line, None);
}

#[test]
fn no_path_applies_renders_payload() {
    let mut f = failure("ValueError");
    f.frames = vec![frame("/lib/foo.py", 3)];
    f.text = Some("oops".to_string());
    let c = classify(&f, "host.rs");
    assert_eq!(c.message, "oops");
    assert_eq!(c.line, None);
    let d = emit_compile_error_msg(&f, "host.rs", &vec![token("host.rs", 3, 0, 1)]);
    assert_eq!(d.message, "python: oops");
    assert!(matches!(d.anchor, Anchor::CallSite));
}

#[test]
fn locate_miss_on_blank_line() {
    let tokens = vec![token("h.rs", 1, 0, 2), token("h.rs", 3, 0, 2)];
    assert!(span_for_line(&tokens, 2).is_none());
    assert!(span_for_line(&tokens, 4).is_none());
    assert!(span_for_line(&Vec::new(), 1).is_none());
}

#[test]
fn locate_single_token() {
    let tokens = vec![token("h.rs", 1, 0, 2), token("h.rs", 3, 4, 9)];
    let ls = span_for_line(&tokens, 3).unwrap();
    assert_eq!((ls.first, ls.last), (1, 1));
    assert_eq!(ls.span.start, LineColumn { line: 3, column: 4 });
    assert_eq!(ls.span.end, LineColumn { line: 3, column: 9 });
}

#[test]
fn locate_stops_at_join_failure() {
    let tokens = vec![
        token("h.rs", 5, 0, 2),
        token("h.rs", 5, 3, 6),
        token("other.rs", 5, 8, 9),
        token("h.rs", 5, 10, 12),
    ];
    let ls = span_for_line(&tokens, 5).unwrap();
    assert_eq!((ls.first, ls.last), (0, 1));
    assert_eq!(ls.span.file, "h.rs");
    assert_eq!(ls.span.end, LineColumn { line: 5, column: 6 });
}

#[test]
fn join_covers_both_spans() {
    let a = token("h.rs", 2, 7, 9);
    let b = token("h.rs", 2, 1, 4);
    let j = a.join(&b).unwrap();
    assert_eq!(j.start, LineColumn { line: 2, column: 1 });
    assert_eq!(j.end, LineColumn { line: 2, column: 9 });
    assert!(a.join(&token("x.rs", 2, 1, 4)).is_none());
}

#[test]
fn repeated_calls_agree() {
    let mut f = failure("ValueError");
    f.frames = vec![frame("host.rs", 2)];
    f.text = Some("boom".to_string());
    let tokens = vec![token("host.rs", 2, 0, 3), token("host.rs", 2, 4, 8)];
    let a = classify(&f, "host.rs");
    let b = classify(&f, "host.rs");
    assert_eq!((a.message, a.line), (b.message, b.line));
    let x = span_for_line(&tokens, 2).unwrap();
    let y = span_for_line(&tokens, 2).unwrap();
    assert_eq!((x.first, x.last, x.span.start, x.span.end), (y.first, y.last, y.span.start, y.span.end));
}
