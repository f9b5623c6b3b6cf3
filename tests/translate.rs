use bind_lsp::translate::{
    translate, translate_diagnostics, DiagnosticRecord, Position, Range, Severity, LINE_END,
};

fn record(line: u32, message: &str) -> DiagnosticRecord {
    DiagnosticRecord { line, message: message.to_string() }
}

#[test]
fn translate_reads_one_diagnostic_line() {
    let r = translate("named.conf:3: unknown option 'foo'");
    assert_eq!(r, vec![record(3, " unknown option 'foo'")]);
}

#[test]
fn translate_skips_lines_with_fewer_than_three_fields() {
    assert!(translate("").is_empty());
    assert!(translate("\n\n").is_empty());
    assert!(translate("loading configuration").is_empty());
    assert!(translate("zone example.com/IN: loaded serial 1").is_empty());
}

#[test]
fn translate_skips_lines_without_a_positive_line_number() {
    assert!(translate("file:abc:message").is_empty());
    assert!(translate("file::message").is_empty());
    assert!(translate("file:0:message").is_empty());
    assert!(translate("file:-3:message").is_empty());
    assert!(translate("file: 3:message").is_empty());
    assert!(translate("file:+:message").is_empty());
    assert!(translate("file:4294967296:message").is_empty());
}

#[test]
fn translate_reads_line_numbers_as_u32_does() {
    assert_eq!(translate("f:+7:m"), vec![record(7, "m")]);
    assert_eq!(translate("f:007:m"), vec![record(7, "m")]);
    assert_eq!(translate("f:4294967295:m"), vec![record(4294967295, "m")]);
}

#[test]
fn translate_keeps_further_colons_in_the_message() {
    assert_eq!(translate("f:2:a:b: c"), vec![record(2, "a:b: c")]);
    assert_eq!(translate("f:2:"), vec![record(2, "")]);
}

#[test]
fn translate_keeps_the_order_of_lines() {
    let text = "named.conf:5: first\nnoise\nnamed.conf:2: second\n\nx:9:third\n";
    assert_eq!(
        translate(text),
        vec![record(5, " first"), record(2, " second"), record(9, "third")]
    );
}

#[test]
fn translate_handles_non_ascii_text() {
    assert_eq!(translate("fé:4:ünïcode ✓\nß"), vec![record(4, "ünïcode ✓")]);
}

#[test]
fn translate_twice_gives_the_same_records() {
    let text = "named.conf:3: unknown option 'foo'\nnamed.conf:8: missing ';'\n";
    let first = translate(text);
    let second = translate(text);
    assert_eq!(first, second);
    assert_eq!(first.len(), 2);
}

#[test]
fn to_diagnostic_spans_the_zero_based_line() {
    let d = record(3, " bad").to_diagnostic();
    assert_eq!(
        d.range,
        Range {
            start: Position { line: 2, character: 0 },
            end: Position { line: 2, character: u32::MAX },
        }
    );
    assert_eq!(d.severity, Severity::Error);
    assert_eq!(d.message, " bad");
    assert_eq!(LINE_END, u32::MAX);
}

#[test]
fn to_diagnostic_of_the_first_line_starts_at_zero() {
    let d = record(1, "m").to_diagnostic();
    assert_eq!(d.range.start, Position { line: 0, character: 0 });
}

#[test]
fn zone_error_line_maps_to_the_line_before() {
    let captured = "zone example.com/IN: loading from master file failed\n\
                    example.com.db:14: mail.example.com: CNAME and other data\n";
    let ds = translate_diagnostics(captured);
    assert_eq!(ds.len(), 1);
    assert_eq!(ds[0].range.start, Position { line: 13, character: 0 });
    assert_eq!(ds[0].range.end, Position { line: 13, character: u32::MAX });
    assert_eq!(ds[0].message, " mail.example.com: CNAME and other data");
    assert_eq!(ds[0].severity, Severity::Error);
}

#[test]
fn empty_text_gives_no_diagnostics() {
    assert!(translate_diagnostics("").is_empty());
}
