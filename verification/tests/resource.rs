use fluent_bundle::FluentResource;
use fluent_syntax::ast;

#[test]
fn simple_message_parses_cleanly() {
    let source = "hello-world = Hello World!";
    let resource = FluentResource::try_new(source.to_string())
        .expect("a well-formed resource parses without diagnostics");
    assert_eq!(resource.source(), source);
    assert_eq!(resource.entry_count(), 1);
    assert_eq!(resource.entries().len(), 1);
    let expected = ast::Entry::Message(ast::Message {
        id: ast::Identifier {
            name: "hello-world".to_string(),
        },
        value: Some(ast::Pattern {
            elements: vec![ast::PatternElement::TextElement {
                value: "Hello World!".to_string(),
            }],
        }),
        attributes: vec![],
        comment: None,
    });
    assert_eq!(resource.get_entry(0), Some(&expected));
}

#[test]
fn placeable_message_parses_cleanly() {
    let source = "hello-world = Hello, { $user }!";
    let resource = FluentResource::try_new(source.to_string())
        .expect("a well-formed resource parses without diagnostics");
    assert_eq!(resource.entry_count(), 1);
    assert!(resource.get_entry(0).is_some());
    assert!(resource.get_entry(1).is_none());
    assert!(matches!(resource.get_entry(0), Some(ast::Entry::Message(_))));
}

#[test]
fn empty_input_yields_empty_resource() {
    let resource = FluentResource::try_new(String::new())
        .expect("empty input parses without diagnostics");
    assert_eq!(resource.source(), "");
    assert_eq!(resource.entry_count(), 0);
    assert!(resource.entries().is_empty());
    assert!(resource.get_entry(0).is_none());
}

#[test]
fn malformed_input_keeps_well_formed_entries() {
    let source = "valid-key = Valid Value\n\nbroken entry without equals\n";
    let (resource, errors) = match FluentResource::try_new(source.to_string()) {
        Ok(_) => panic!("malformed input must be reported through diagnostics"),
        Err(pair) => pair,
    };
    assert!(!errors.is_empty());
    assert!(errors[0].slice.is_some());
    assert!(matches!(resource.get_entry(0), Some(ast::Entry::Message(message)) if message.id.name == "valid-key"));
    assert!(matches!(resource.get_entry(1), Some(ast::Entry::Junk { .. })));
}

#[test]
fn source_round_trips_even_when_malformed() {
    let source = "ok-key = fine\n=== not an entry ===\n";
    let (resource, _errors) = match FluentResource::try_new(source.to_string()) {
        Ok(_) => panic!("malformed input must be reported through diagnostics"),
        Err(pair) => pair,
    };
    assert_eq!(resource.source(), source);
}

#[test]
fn entries_and_get_entry_agree() {
    let source = "first = A\nsecond = B\nthird = C\n";
    let resource = FluentResource::try_new(source.to_string())
        .expect("a well-formed resource parses without diagnostics");
    let entries = resource.entries();
    assert_eq!(entries.len(), resource.entry_count());
    assert_eq!(resource.entry_count(), 3);
    for (idx, entry) in entries.iter().enumerate() {
        assert_eq!(resource.get_entry(idx), Some(*entry));
    }
}

#[test]
fn out_of_bounds_index_is_absent() {
    let source = "first = A\nsecond = B\n";
    let resource = FluentResource::try_new(source.to_string())
        .expect("a well-formed resource parses without diagnostics");
    assert_eq!(resource.entry_count(), 2);
    assert!(resource.get_entry(2).is_none());
    assert!(resource.get_entry(usize::MAX).is_none());
}

#[test]
fn repeated_reads_yield_equal_results() {
    let source = "greeting = Hello\nfarewell = Goodbye\n";
    let resource = FluentResource::try_new(source.to_string())
        .expect("a well-formed resource parses without diagnostics");
    assert_eq!(resource.source(), resource.source());
    assert_eq!(resource.entries(), resource.entries());
    assert_eq!(resource.get_entry(0), resource.get_entry(0));
    assert_eq!(resource.entry_count(), resource.entry_count());
}

#[test]
fn escape_scan_break_is_detected() {
    // A string literal's unicode escape cut short by a non-ASCII character
    // is the one input shape construction excludes.
    assert!(fluent_bundle::parse::contains_escape_scan_break(
        "key = { \"\\u\u{e9}\" }"
    ));
    // Three hex digits out of four, then a non-ASCII character: still cut short.
    assert!(fluent_bundle::parse::contains_escape_scan_break(
        "k = { \"\\u12f\u{e9}\" }"
    ));
    // Five hex digits out of the six a `\U` escape owes.
    assert!(fluent_bundle::parse::contains_escape_scan_break(
        "k = { \"\\U12345\u{e9}\" }"
    ));
    // A complete four-digit escape is harmless, whatever follows it.
    assert!(!fluent_bundle::parse::contains_escape_scan_break(
        "k = { \"\\u12f3\u{e9}\" }"
    ));
    // Runs cut short by an ASCII character or by the end of the text are
    // harmless too: the parser reports those through a diagnostic.
    assert!(!fluent_bundle::parse::contains_escape_scan_break(
        "k = { \"\\uXY\" }"
    ));
    assert!(!fluent_bundle::parse::contains_escape_scan_break("k = \\u"));
    assert!(!fluent_bundle::parse::contains_escape_scan_break(
        "hello-world = Hello World!"
    ));
}

#[test]
fn incomplete_escape_before_ascii_is_a_diagnostic() {
    // The shape the checker clears really is survivable: the parser turns
    // it into a diagnostic instead.
    let source = "k = { \"\\uXY\" }";
    assert!(!fluent_bundle::parse::contains_escape_scan_break(source));
    let (resource, errors) = match FluentResource::try_new(source.to_string()) {
        Ok(_) => panic!("an incomplete escape must be reported through diagnostics"),
        Err(pair) => pair,
    };
    assert!(!errors.is_empty());
    assert_eq!(resource.source(), source);
}

#[test]
fn comments_are_stripped_in_runtime_mode() {
    let source = "# a standalone comment\nkey = value\n";
    let resource = FluentResource::try_new(source.to_string())
        .expect("a well-formed resource parses without diagnostics");
    assert_eq!(resource.entry_count(), 1);
    assert!(matches!(resource.get_entry(0), Some(ast::Entry::Message(_))));
    assert_eq!(resource.source(), source);
}
