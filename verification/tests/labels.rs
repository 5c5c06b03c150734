use greycat_zed::label::{label_for_completion, CodeLabel, CodeLabelSpan, Completion, CompletionKind, SpanRange};

fn completion(label: &str, detail: Option<&str>, kind: Option<CompletionKind>) -> Completion {
    Completion { label: label.to_string(), detail: detail.map(|d| d.to_string()), kind }
}

fn range(start: u32, end: u32) -> SpanRange {
    SpanRange { start, end }
}

#[test]
fn function_label_wraps_signature() {
    let l = label_for_completion(completion("foo", Some("(a: int): bool"), Some(CompletionKind::Function))).unwrap();
    assert_eq!(
        l,
        CodeLabel {
            code: "fn foo(a: int): bool".to_string(),
            spans: vec![CodeLabelSpan::CodeRange(range(3, 6)), CodeLabelSpan::CodeRange(range(6, 20))],
            filter_range: range(0, 3),
        }
    );
}

#[test]
fn method_label_wraps_signature() {
    let l = label_for_completion(completion("len", Some("(): int"), Some(CompletionKind::Method))).unwrap();
    assert_eq!(l.code, "fn len(): int");
    assert_eq!(l.spans, vec![CodeLabelSpan::CodeRange(range(3, 6)), CodeLabelSpan::CodeRange(range(6, 13))]);
    assert_eq!(l.filter_range, range(0, 3));
}

#[test]
fn function_without_argument_list_keeps_plain_rendering() {
    assert_eq!(label_for_completion(completion("foo", Some(": int"), Some(CompletionKind::Function))), None);
    assert_eq!(label_for_completion(completion("foo", None, Some(CompletionKind::Method))), None);
    assert_eq!(label_for_completion(completion("foo", Some(""), Some(CompletionKind::Function))), None);
}

#[test]
fn offsets_count_utf8_bytes() {
    let l = label_for_completion(completion("h\u{e9}llo", Some("()"), Some(CompletionKind::Function))).unwrap();
    assert_eq!(l.code, "fn h\u{e9}llo()");
    assert_eq!(l.spans, vec![CodeLabelSpan::CodeRange(range(3, 9)), CodeLabelSpan::CodeRange(range(9, 11))]);
    assert_eq!(l.filter_range, range(0, 6));
    assert_eq!(&l.code[3..9], "h\u{e9}llo");
}

#[test]
fn type_label_shows_module_dimmed() {
    let l = label_for_completion(completion("Foo", Some("runtime"), Some(CompletionKind::Class))).unwrap();
    assert_eq!(
        l,
        CodeLabel {
            code: "type Foo {}".to_string(),
            spans: vec![
                CodeLabelSpan::CodeRange(range(5, 8)),
                CodeLabelSpan::Literal { text: "  ".to_string(), highlight_name: None },
                CodeLabelSpan::Literal { text: "runtime".to_string(), highlight_name: Some("comment".to_string()) },
            ],
            filter_range: range(0, 3),
        }
    );
}

#[test]
fn enum_label_without_module() {
    let l = label_for_completion(completion("Color", None, Some(CompletionKind::Enum))).unwrap();
    assert_eq!(l.code, "enum Color {}");
    assert_eq!(l.spans, vec![CodeLabelSpan::CodeRange(range(5, 10))]);
    assert_eq!(l.filter_range, range(0, 5));
    let empty = label_for_completion(completion("Color", Some(""), Some(CompletionKind::Enum))).unwrap();
    assert_eq!(empty.spans, vec![CodeLabelSpan::CodeRange(range(5, 10))]);
}

#[test]
fn field_label_shows_name_and_type() {
    let l = label_for_completion(completion("x", Some(": int"), Some(CompletionKind::Field))).unwrap();
    assert_eq!(l.code, "type _ { x: int; }");
    assert_eq!(l.spans, vec![CodeLabelSpan::CodeRange(range(9, 10)), CodeLabelSpan::CodeRange(range(10, 15))]);
    assert_eq!(l.filter_range, range(0, 1));
}

#[test]
fn constant_label_is_static_attribute() {
    let l = label_for_completion(completion("MAX", Some(": int"), Some(CompletionKind::Constant))).unwrap();
    assert_eq!(l.code, "type _ { static MAX: int; }");
    assert_eq!(l.spans, vec![CodeLabelSpan::CodeRange(range(16, 19)), CodeLabelSpan::CodeRange(range(19, 24))]);
    assert_eq!(&l.code[16..19], "MAX");
    assert_eq!(&l.code[19..24], ": int");
    assert_eq!(l.filter_range, range(0, 3));
}

#[test]
fn field_without_type_keeps_plain_rendering() {
    assert_eq!(label_for_completion(completion("x", Some("int"), Some(CompletionKind::Field))), None);
    assert_eq!(label_for_completion(completion("x", None, Some(CompletionKind::Constant))), None);
}

#[test]
fn other_kinds_keep_plain_rendering() {
    assert_eq!(label_for_completion(completion("x", Some(": int"), Some(CompletionKind::Variable))), None);
    assert_eq!(label_for_completion(completion("x", Some("(a)"), None)), None);
    assert_eq!(label_for_completion(completion("x", Some("(a)"), Some(CompletionKind::Other(7)))), None);
}
