use bind_lsp::buffer::IscBuffer;
use bind_lsp::parser::{IscParser, ParserError, ISC_R_SUCCESS};
use bind_lsp::sink::DiagnosticSink;
use bind_lsp::translate::translate;
use bind_lsp::zone::{
    zone_settings, ZoneAction, ZoneCheck, ZoneError, ZoneOption, ZoneOutcome, ZonePhase,
    ZONE_CLASS,
};

#[test]
fn parser_creation_follows_the_result_code() {
    let p = IscParser::new(7u32, ISC_R_SUCCESS).unwrap();
    assert_eq!(*p.as_ref(), 7);
    assert!(matches!(IscParser::new(7u32, 1), Err(ParserError::Creation)));
}

#[test]
fn parse_result_binds_the_object_to_its_parser() {
    let p = IscParser::new("parser", ISC_R_SUCCESS).unwrap();
    let o = p.parse_result(ISC_R_SUCCESS, 42u64).unwrap();
    assert_eq!(*o.cfg_obj(), 42);
    assert_eq!(*o.parser().as_ref(), "parser");
    assert!(matches!(p.parse_result(3, 42u64), Err(ParserError::Parse)));
}

#[test]
fn check_passes_only_on_success() {
    let p = IscParser::new((), ISC_R_SUCCESS).unwrap();
    let o = p.parse_result(ISC_R_SUCCESS, ()).unwrap();
    assert!(o.check(ISC_R_SUCCESS));
    assert!(!o.check(25));
}

#[test]
fn test_parser() {
    let mut log = DiagnosticSink::new(1024);
    let parser = IscParser::new(1usize, ISC_R_SUCCESS).unwrap();
    let buffer = IscBuffer::from_str("options\n{\nrecursion yes;\n};\n");
    assert_eq!(buffer.used(), buffer.capacity());
    let obj = parser.parse_result(ISC_R_SUCCESS, 2usize).unwrap();
    assert!(obj.check(ISC_R_SUCCESS));
    let text = log.drain();
    assert_eq!(text, "");
    assert!(translate(&text).is_empty());
}

fn run(check: &mut ZoneCheck, results: &[bool]) -> Vec<ZoneAction> {
    let mut actions = vec![check.step(true)];
    for ok in results {
        actions.push(check.step(*ok));
    }
    actions
}

#[test]
fn test_dns_zone_check() {
    let zonename = IscBuffer::from_str("example.com");
    assert_eq!(zonename.used(), 11);
    let mut check = ZoneCheck::new();
    assert_eq!(check.phase(), ZonePhase::Created);
    let actions = run(&mut check, &[true, true, true, true, true, true, true]);
    assert_eq!(
        actions,
        vec![
            ZoneAction::SetPrimaryType,
            ZoneAction::ParseOrigin,
            ZoneAction::SetOrigin,
            ZoneAction::Configure,
            ZoneAction::SetStream,
            ZoneAction::Load,
            ZoneAction::Report(ZoneOutcome::Loaded),
            ZoneAction::Idle,
        ]
    );
    assert_eq!(check.phase(), ZonePhase::Finished);
}

#[test]
fn zone_check_reports_a_failed_load() {
    let mut check = ZoneCheck::new();
    let actions = run(&mut check, &[true, true, true, true, true, false]);
    assert_eq!(actions[5], ZoneAction::Load);
    assert_eq!(actions[6], ZoneAction::Report(ZoneOutcome::LoadFailed));
}

#[test]
fn zone_check_stops_on_a_bad_origin() {
    let mut check = ZoneCheck::new();
    let actions = run(&mut check, &[true, false, true]);
    assert_eq!(
        actions,
        vec![
            ZoneAction::SetPrimaryType,
            ZoneAction::ParseOrigin,
            ZoneAction::Report(ZoneOutcome::Rejected(ZoneError::InvalidOrigin)),
            ZoneAction::Idle,
        ]
    );
}

#[test]
fn zone_check_stops_when_origin_or_stream_is_refused() {
    let mut check = ZoneCheck::new();
    let actions = run(&mut check, &[true, true, false]);
    assert_eq!(actions[3], ZoneAction::Report(ZoneOutcome::Rejected(ZoneError::OriginRejected)));
    let mut check = ZoneCheck::new();
    let actions = run(&mut check, &[true, true, true, true, false]);
    assert_eq!(actions[5], ZoneAction::Report(ZoneOutcome::Rejected(ZoneError::StreamRejected)));
}

#[test]
fn zone_check_loads_once() {
    let mut check = ZoneCheck::new();
    let actions = run(&mut check, &[true; 20]);
    assert_eq!(actions.iter().filter(|a| **a == ZoneAction::Load).count(), 1);
}

#[test]
fn zone_settings_are_fixed() {
    let s = zone_settings();
    assert_eq!(s.db_type, "qpzone");
    assert_eq!(s.class, ZONE_CLASS);
    assert_eq!(s.class, 1);
    assert_eq!(s.max_ttl, 0);
    assert_eq!(s.options.len(), 13);
    assert_eq!(s.options[0], ZoneOption::CheckNs);
    assert_eq!(s.options[6], ZoneOption::CheckIntegrity);
    assert_eq!(s.options[12], ZoneOption::NoMerge);
}
