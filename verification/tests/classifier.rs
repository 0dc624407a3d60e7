use stcat::classify::{classify, BoundarySymbol, BoundaryTable, ClassificationError};
use stcat::severity::Severity;
use stcat::symbols::{SymbolEntry, SymbolKind};

fn sym(name: &str, value: u64, shndx: u16, kind: SymbolKind) -> SymbolEntry {
    SymbolEntry { name: Some(String::from(name)), value, shndx, kind }
}

fn sentinel(name: &str, value: u64, shndx: u16) -> SymbolEntry {
    sym(name, value, shndx, SymbolKind::Other)
}

/// The symbol set used throughout: boundaries at 100/200/300/400 in
/// section 1, one message per tier.
fn base_symbols() -> Vec<SymbolEntry> {
    vec![
        sentinel("__stlog_warning_start__", 100, 1),
        sentinel("__stlog_info_start__", 200, 1),
        sentinel("__stlog_debug_start__", 300, 1),
        sentinel("__stlog_trace_start__", 400, 1),
        sym("boot", 50, 1, SymbolKind::Object),
        sym("low batt", 150, 1, SymbolKind::Object),
        sym("heartbeat", 250, 1, SymbolKind::Object),
        sym("tick", 350, 1, SymbolKind::Object),
        sym("verbose dump", 450, 1, SymbolKind::Object),
    ]
}

#[test]
fn round_trip_known_symbol_set() {
    let table = classify(&base_symbols()).unwrap();
    assert_eq!(table.len(), 5);
    let expected = [
        (50u64, Severity::Error, "boot"),
        (150, Severity::Warning, "low batt"),
        (250, Severity::Info, "heartbeat"),
        (350, Severity::Debug, "tick"),
        (450, Severity::Trace, "verbose dump"),
    ];
    for (address, severity, content) in expected {
        let m = table.get(address).unwrap();
        assert_eq!(m.severity, severity);
        assert_eq!(m.content, content);
    }
}

#[test]
fn tier_ranges_are_half_open() {
    let b = BoundaryTable { warning_start: 100, info_start: 200, debug_start: 300, trace_start: 400 };
    assert_eq!(b.classify_tier(0), Severity::Error);
    assert_eq!(b.classify_tier(99), Severity::Error);
    assert_eq!(b.classify_tier(100), Severity::Warning);
    assert_eq!(b.classify_tier(199), Severity::Warning);
    assert_eq!(b.classify_tier(200), Severity::Info);
    assert_eq!(b.classify_tier(299), Severity::Info);
    assert_eq!(b.classify_tier(300), Severity::Debug);
    assert_eq!(b.classify_tier(399), Severity::Debug);
    assert_eq!(b.classify_tier(400), Severity::Trace);
    assert_eq!(b.classify_tier(u64::MAX), Severity::Trace);
}

#[test]
fn equal_boundaries_collapse_a_tier() {
    // warning_start == info_start: the Warning tier has zero width, and no
    // address classifies as Warning; nothing panics.
    let b = BoundaryTable { warning_start: 200, info_start: 200, debug_start: 300, trace_start: 400 };
    assert_eq!(b.classify_tier(150), Severity::Error);
    assert_eq!(b.classify_tier(200), Severity::Info);
    assert_eq!(b.classify_tier(250), Severity::Info);
}

#[test]
fn missing_info_symbol_is_reported_by_name() {
    let entries: Vec<SymbolEntry> = base_symbols()
        .into_iter()
        .filter(|e| e.name.as_deref() != Some("__stlog_info_start__"))
        .collect();
    let err = classify(&entries).unwrap_err();
    assert_eq!(err, ClassificationError::MissingSymbol(BoundarySymbol::InfoStart));
    assert_eq!(
        BoundarySymbol::InfoStart.symbol_name(),
        "__stlog_info_start__"
    );
}

#[test]
fn missing_warning_symbol_is_reported_first() {
    // Without the warning sentinel nothing else matters: the section cannot
    // even be identified.
    let entries: Vec<SymbolEntry> = base_symbols()
        .into_iter()
        .filter(|e| e.name.as_deref() != Some("__stlog_warning_start__"))
        .collect();
    let err = classify(&entries).unwrap_err();
    assert_eq!(err, ClassificationError::MissingSymbol(BoundarySymbol::WarningStart));
}

#[test]
fn missing_debug_and_trace_symbols_are_reported() {
    let entries: Vec<SymbolEntry> = base_symbols()
        .into_iter()
        .filter(|e| e.name.as_deref() != Some("__stlog_debug_start__"))
        .collect();
    assert_eq!(
        classify(&entries).unwrap_err(),
        ClassificationError::MissingSymbol(BoundarySymbol::DebugStart)
    );
    let entries: Vec<SymbolEntry> = base_symbols()
        .into_iter()
        .filter(|e| e.name.as_deref() != Some("__stlog_trace_start__"))
        .collect();
    assert_eq!(
        classify(&entries).unwrap_err(),
        ClassificationError::MissingSymbol(BoundarySymbol::TraceStart)
    );
}

#[test]
fn classification_is_deterministic() {
    let entries = base_symbols();
    let t1 = classify(&entries).unwrap();
    let t2 = classify(&entries).unwrap();
    assert_eq!(t1.len(), t2.len());
    for address in [50u64, 150, 250, 350, 450, 999] {
        match (t1.get(address), t2.get(address)) {
            (Some(m1), Some(m2)) => {
                assert_eq!(m1.severity, m2.severity);
                assert_eq!(m1.content, m2.content);
            }
            (None, None) => {}
            _ => panic!("tables disagree at {}", address),
        }
    }
}

#[test]
fn non_object_entries_are_never_messages() {
    // A function symbol in the stlog section whose name matches no
    // sentinel is silently ignored, whatever its address.
    let mut entries = base_symbols();
    entries.push(sym("helper_routine", 260, 1, SymbolKind::Function));
    entries.push(sym("another_label", 50, 1, SymbolKind::Other));
    let table = classify(&entries).unwrap();
    assert_eq!(table.len(), 5);
    assert!(table.get(260).is_none());
    assert_eq!(table.get(50).unwrap().content, "boot");
}

#[test]
fn other_sections_are_ignored() {
    // Colliding names in an unrelated section change nothing: neither the
    // object at 999 nor the bogus info sentinel in section 2 counts.
    let mut entries = base_symbols();
    entries.push(sym("intruder", 999, 2, SymbolKind::Object));
    entries.push(sentinel("__stlog_info_start__", 7, 2));
    let table = classify(&entries).unwrap();
    assert_eq!(table.len(), 5);
    assert!(table.get(999).is_none());
    assert_eq!(table.get(250).unwrap().severity, Severity::Info);
}

#[test]
fn sentinel_in_wrong_section_does_not_satisfy_requirement() {
    // The info sentinel exists only in section 2, the stlog section is 1:
    // classification must fail for exactly that symbol.
    let mut entries: Vec<SymbolEntry> = base_symbols()
        .into_iter()
        .filter(|e| e.name.as_deref() != Some("__stlog_info_start__"))
        .collect();
    entries.push(sentinel("__stlog_info_start__", 200, 2));
    assert_eq!(
        classify(&entries).unwrap_err(),
        ClassificationError::MissingSymbol(BoundarySymbol::InfoStart)
    );
}

#[test]
fn duplicate_address_last_write_wins() {
    let mut entries = base_symbols();
    entries.push(sym("boot v2", 50, 1, SymbolKind::Object));
    let table = classify(&entries).unwrap();
    assert_eq!(table.len(), 5);
    assert_eq!(table.get(50).unwrap().content, "boot v2");
}

#[test]
fn unreadable_message_name_is_fatal() {
    let mut entries = base_symbols();
    entries.push(SymbolEntry { name: None, value: 260, shndx: 1, kind: SymbolKind::Object });
    assert_eq!(
        classify(&entries).unwrap_err(),
        ClassificationError::UnreadableName(260)
    );
}

#[test]
fn unreadable_sentinel_name_is_tolerated() {
    // A nameless non-object entry is never inspected, so it hurts nothing.
    let mut entries = base_symbols();
    entries.push(SymbolEntry { name: None, value: 123, shndx: 1, kind: SymbolKind::Function });
    let table = classify(&entries).unwrap();
    assert_eq!(table.len(), 5);
}

#[test]
fn object_with_sentinel_name_is_a_message() {
    // Kind decides before name: a data object named like a sentinel is a
    // message, and here it also leaves the real info boundary missing.
    let mut entries: Vec<SymbolEntry> = base_symbols()
        .into_iter()
        .filter(|e| e.name.as_deref() != Some("__stlog_info_start__"))
        .collect();
    entries.push(sym("__stlog_info_start__", 200, 1, SymbolKind::Object));
    assert_eq!(
        classify(&entries).unwrap_err(),
        ClassificationError::MissingSymbol(BoundarySymbol::InfoStart)
    );
}
