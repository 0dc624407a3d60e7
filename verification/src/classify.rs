use vstd::prelude::*;
use crate::severity::Severity;
use crate::symbols::{SymbolEntry, SymbolKind};
use crate::table::{DecodedMessage, MessageTable};
use crate::text;

verus! {

/// The four sentinel symbols that delimit the severity tiers.
///
/// Each one's value is the first address of its tier; everything below the
/// warning sentinel is `Error`, everything at or above the trace sentinel is
/// `Trace`.
#[derive(Clone, Copy, Debug, PartialEq, Eq, Structural)]
pub enum BoundarySymbol {
    WarningStart,
    InfoStart,
    DebugStart,
    TraceStart,
}

impl BoundarySymbol {
    /// Exact name of the sentinel in the binary's symbol table.
    pub open spec fn spec_symbol_name(self) -> Seq<char> {
        match self {
            BoundarySymbol::WarningStart => "__stlog_warning_start__"@,
            BoundarySymbol::InfoStart => "__stlog_info_start__"@,
            BoundarySymbol::DebugStart => "__stlog_debug_start__"@,
            BoundarySymbol::TraceStart => "__stlog_trace_start__"@,
        }
    }

    /// Runtime counterpart of [`BoundarySymbol::spec_symbol_name`].
    pub fn symbol_name(&self) -> (r: &'static str)
        ensures
            r@ == self.spec_symbol_name(),
    {
        match self {
            BoundarySymbol::WarningStart => "__stlog_warning_start__",
            BoundarySymbol::InfoStart => "__stlog_info_start__",
            BoundarySymbol::DebugStart => "__stlog_debug_start__",
            BoundarySymbol::TraceStart => "__stlog_trace_start__",
        }
    }
}

/// Why classification of a symbol table failed.
#[derive(Clone, Copy, Debug, PartialEq, Eq, Structural)]
pub enum ClassificationError {
    /// A required sentinel symbol was not found; the payload says which.
    MissingSymbol(BoundarySymbol),
    /// A message symbol's name could not be resolved against the string
    /// table; the payload is the message's address.
    UnreadableName(u64),
}

/// Start addresses of the four delimited tiers. Everything below
/// `warning_start` is the implicit `Error` tier.
#[derive(Clone, Copy, Debug, PartialEq, Eq, Structural)]
pub struct BoundaryTable {
    pub warning_start: u64,
    pub info_start: u64,
    pub debug_start: u64,
    pub trace_start: u64,
}

impl BoundaryTable {
    /// The layout convention the firmware-side encoder promises: boundary
    /// addresses are monotonically non-decreasing. Equal neighbours are
    /// legal and collapse the tier between them to zero width.
    pub open spec fn wf(self) -> bool {
        self.warning_start <= self.info_start <= self.debug_start <= self.trace_start
    }

    /// Severity tier of address `a`: the first of the five half-open ranges
    /// `[0, warning_start)`, `[warning_start, info_start)`,
    /// `[info_start, debug_start)`, `[debug_start, trace_start)`,
    /// `[trace_start, +inf)` that contains it. The ranges always cover every
    /// address, so every message classifies into a tier; for well-formed
    /// boundaries they are also disjoint (see [`lemma_tiers_partition`]).
    pub open spec fn spec_tier(self, a: u64) -> Severity {
        if a < self.warning_start {
            Severity::Error
        } else if a < self.info_start {
            Severity::Warning
        } else if a < self.debug_start {
            Severity::Info
        } else if a < self.trace_start {
            Severity::Debug
        } else {
            Severity::Trace
        }
    }

    /// Membership of address `a` in the half-open range belonging to
    /// severity `s`.
    pub open spec fn in_tier(self, a: u64, s: Severity) -> bool {
        match s {
            Severity::Error => a < self.warning_start,
            Severity::Warning => self.warning_start <= a < self.info_start,
            Severity::Info => self.info_start <= a < self.debug_start,
            Severity::Debug => self.debug_start <= a < self.trace_start,
            Severity::Trace => self.trace_start <= a,
        }
    }

    /// Runtime counterpart of [`BoundaryTable::spec_tier`].
    pub fn classify_tier(&self, address: u64) -> (s: Severity)
        ensures
            s == self.spec_tier(address),
    {
        if address < self.warning_start {
            Severity::Error
        } else if address < self.info_start {
            Severity::Warning
        } else if address < self.debug_start {
            Severity::Info
        } else if address < self.trace_start {
            Severity::Debug
        } else {
            Severity::Trace
        }
    }
}

/// For well-formed boundaries the five severity ranges partition the whole
/// address space: every address lies in the range of the severity that
/// [`BoundaryTable::spec_tier`] assigns it, and in no other.
pub proof fn lemma_tiers_partition(b: BoundaryTable, a: u64)
    requires
        b.wf(),
    ensures
        b.in_tier(a, b.spec_tier(a)),
        forall|s: Severity| b.in_tier(a, s) ==> s == b.spec_tier(a),
{
}

/// Whether `e` is the entry the first scan looks for: one named
/// `__stlog_warning_start__`, in any section and of any kind.
pub open spec fn is_warning_sentinel(e: SymbolEntry) -> bool {
    e.has_name(BoundarySymbol::WarningStart.spec_symbol_name())
}

/// Value and section index of the first entry named
/// `__stlog_warning_start__`, if any. Its section is the one that holds all
/// the stlog symbols; entries of other sections are ignored from then on.
pub open spec fn find_warning(entries: Seq<SymbolEntry>) -> Option<(u64, u16)>
    decreases entries.len(),
{
    if entries.len() == 0 {
        None
    } else if is_warning_sentinel(entries[0]) {
        Some((entries[0].value, entries[0].shndx))
    } else {
        find_warning(entries.drop_first())
    }
}

/// Whether `e` is a message symbol of the stlog section `shndx`: a data
/// object in that section. Its name is the log text, its value the ID.
pub open spec fn is_message(e: SymbolEntry, shndx: u16) -> bool {
    e.shndx == shndx && e.kind == SymbolKind::Object
}

/// Whether `e` supplies the boundary `which` for section `shndx`: an entry
/// of that section that is not a data object and whose name is exactly the
/// sentinel's. Data objects never count as sentinels, whatever their name.
pub open spec fn is_boundary(e: SymbolEntry, shndx: u16, which: BoundarySymbol) -> bool {
    e.shndx == shndx && e.kind != SymbolKind::Object && e.has_name(which.spec_symbol_name())
}

/// Value of the last entry that supplies boundary `which`, if any. When a
/// sentinel name occurs more than once in the section, the last occurrence
/// wins.
pub open spec fn last_boundary(entries: Seq<SymbolEntry>, shndx: u16, which: BoundarySymbol) -> Option<u64>
    decreases entries.len(),
{
    if entries.len() == 0 {
        None
    } else if is_boundary(entries.last(), shndx, which) {
        Some(entries.last().value)
    } else {
        last_boundary(entries.drop_last(), shndx, which)
    }
}

/// The message symbols of section `shndx`, in symbol-table order.
pub open spec fn section_messages(entries: Seq<SymbolEntry>, shndx: u16) -> Seq<SymbolEntry>
    decreases entries.len(),
{
    if entries.len() == 0 {
        Seq::empty()
    } else {
        let prefix = section_messages(entries.drop_last(), shndx);
        if is_message(entries.last(), shndx) {
            prefix.push(entries.last())
        } else {
            prefix
        }
    }
}

/// Boundary table of `entries`: the warning sentinel fixes the section, the
/// other three sentinels are read from that section. The first sentinel
/// that cannot be found — in the order warning, info, debug, trace — is the
/// one the error names.
pub open spec fn spec_boundaries(entries: Seq<SymbolEntry>) -> Result<(BoundaryTable, u16), ClassificationError> {
    match find_warning(entries) {
        None => Err(ClassificationError::MissingSymbol(BoundarySymbol::WarningStart)),
        Some((w, shndx)) => match last_boundary(entries, shndx, BoundarySymbol::InfoStart) {
            None => Err(ClassificationError::MissingSymbol(BoundarySymbol::InfoStart)),
            Some(i) => match last_boundary(entries, shndx, BoundarySymbol::DebugStart) {
                None => Err(ClassificationError::MissingSymbol(BoundarySymbol::DebugStart)),
                Some(d) => match last_boundary(entries, shndx, BoundarySymbol::TraceStart) {
                    None => Err(ClassificationError::MissingSymbol(BoundarySymbol::TraceStart)),
                    Some(t) => Ok((
                        BoundaryTable {
                            warning_start: w,
                            info_start: i,
                            debug_start: d,
                            trace_start: t,
                        },
                        shndx,
                    )),
                },
            },
        },
    }
}

/// Table built from the message symbols `msgs` under boundaries `b`: each
/// message is bound to its tier and its name, in order, so that on a
/// duplicate address the later message wins. The first message whose name
/// did not resolve makes the whole build fail.
pub open spec fn spec_table(msgs: Seq<SymbolEntry>, b: BoundaryTable) -> Result<
    Map<u64, (Severity, Seq<char>)>,
    ClassificationError,
>
    decreases msgs.len(),
{
    if msgs.len() == 0 {
        Ok(Map::empty())
    } else {
        match spec_table(msgs.drop_last(), b) {
            Err(e) => Err(e),
            Ok(m) => {
                let last = msgs.last();
                match last.name {
                    None => Err(ClassificationError::UnreadableName(last.value)),
                    Some(n) => Ok(m.insert(last.value, (b.spec_tier(last.value), n@))),
                }
            },
        }
    }
}

/// Everything [`classify`] returns, as one function of the symbol entries:
/// find the boundaries, then build the table from the section's message
/// symbols.
pub open spec fn spec_classify(entries: Seq<SymbolEntry>) -> Result<
    Map<u64, (Severity, Seq<char>)>,
    ClassificationError,
> {
    match spec_boundaries(entries) {
        Err(e) => Err(e),
        Ok((b, shndx)) => spec_table(section_messages(entries, shndx), b),
    }
}

/// Classification has no hidden state: its result is a pure function of
/// the symbol entries, so classifying the same entries twice yields the
/// same table, or the same error.
pub proof fn lemma_classify_deterministic(
    entries: Seq<SymbolEntry>,
    r1: Result<Map<u64, (Severity, Seq<char>)>, ClassificationError>,
    r2: Result<Map<u64, (Severity, Seq<char>)>, ClassificationError>,
)
    requires
        r1 == spec_classify(entries),
        r2 == spec_classify(entries),
    ensures
        r1 == r2,
{
}

/// When no entry supplies a boundary, the search for it comes back empty.
proof fn lemma_no_boundary_found(entries: Seq<SymbolEntry>, shndx: u16, which: BoundarySymbol)
    requires
        forall|j: int| 0 <= j < entries.len() ==> !is_boundary(entries[j], shndx, which),
    ensures
        last_boundary(entries, shndx, which) is None,
    decreases entries.len(),
{
    if entries.len() > 0 {
        let pre = entries.drop_last();
        assert(entries.last() == entries[entries.len() - 1]);
        assert forall|j: int| 0 <= j < pre.len() implies !is_boundary(pre[j], shndx, which) by {
            assert(pre[j] == entries[j]);
        }
        lemma_no_boundary_found(pre, shndx, which);
    }
}

/// A missing info sentinel is always reported as exactly that: when the
/// warning sentinel is found but its section supplies no info boundary,
/// classification fails with `MissingSymbol(InfoStart)`, whichever other
/// sentinels and messages are present.
pub proof fn lemma_missing_info_symbol(entries: Seq<SymbolEntry>, w: u64, shndx: u16)
    requires
        find_warning(entries) == Some((w, shndx)),
        forall|j: int| 0 <= j < entries.len() ==> !is_boundary(entries[j], shndx, BoundarySymbol::InfoStart),
    ensures
        spec_classify(entries) == Err::<Map<u64, (Severity, Seq<char>)>, ClassificationError>(
            ClassificationError::MissingSymbol(BoundarySymbol::InfoStart),
        ),
{
    lemma_no_boundary_found(entries, shndx, BoundarySymbol::InfoStart);
}

/// An entry that classification ignores: not a data object, so never a
/// message, and not named like any sentinel, so never a boundary.
pub open spec fn is_ignored(e: SymbolEntry) -> bool {
    &&& e.kind != SymbolKind::Object
    &&& !e.has_name(BoundarySymbol::WarningStart.spec_symbol_name())
    &&& !e.has_name(BoundarySymbol::InfoStart.spec_symbol_name())
    &&& !e.has_name(BoundarySymbol::DebugStart.spec_symbol_name())
    &&& !e.has_name(BoundarySymbol::TraceStart.spec_symbol_name())
}

/// Removing an entry that is not the warning sentinel leaves the first
/// warning sentinel as it was.
proof fn lemma_find_warning_remove(entries: Seq<SymbolEntry>, k: int)
    requires
        0 <= k < entries.len(),
        !is_warning_sentinel(entries[k]),
    ensures
        find_warning(entries.remove(k)) == find_warning(entries),
    decreases entries.len(),
{
    if k == 0 {
        assert(entries.remove(0) =~= entries.drop_first());
    } else {
        lemma_find_warning_remove(entries.drop_first(), k - 1);
        assert(entries.remove(k).drop_first() =~= entries.drop_first().remove(k - 1));
        assert(entries.remove(k)[0] == entries[0]);
    }
}

/// Removing an entry that does not supply a boundary leaves that boundary
/// as it was.
proof fn lemma_last_boundary_remove(
    entries: Seq<SymbolEntry>,
    k: int,
    shndx: u16,
    which: BoundarySymbol,
)
    requires
        0 <= k < entries.len(),
        !is_boundary(entries[k], shndx, which),
    ensures
        last_boundary(entries.remove(k), shndx, which) == last_boundary(entries, shndx, which),
    decreases entries.len(),
{
    if k == entries.len() - 1 {
        assert(entries.remove(k) =~= entries.drop_last());
    } else {
        lemma_last_boundary_remove(entries.drop_last(), k, shndx, which);
        assert(entries.remove(k).drop_last() =~= entries.drop_last().remove(k));
        assert(entries.remove(k).last() == entries.last());
    }
}

/// Removing an entry that is not a message leaves the message symbols of
/// the section as they were.
proof fn lemma_section_messages_remove(entries: Seq<SymbolEntry>, k: int, shndx: u16)
    requires
        0 <= k < entries.len(),
        !is_message(entries[k], shndx),
    ensures
        section_messages(entries.remove(k), shndx) == section_messages(entries, shndx),
    decreases entries.len(),
{
    if k == entries.len() - 1 {
        assert(entries.remove(k) =~= entries.drop_last());
    } else {
        lemma_section_messages_remove(entries.drop_last(), k, shndx);
        assert(entries.remove(k).drop_last() =~= entries.drop_last().remove(k));
        assert(entries.remove(k).last() == entries.last());
    }
}

/// Entries that are neither messages nor sentinels are silently ignored:
/// removing one changes nothing about what classification returns — not
/// the table, and not the error either.
pub proof fn lemma_ignored_entry_irrelevant(entries: Seq<SymbolEntry>, k: int)
    requires
        0 <= k < entries.len(),
        is_ignored(entries[k]),
    ensures
        spec_classify(entries.remove(k)) == spec_classify(entries),
{
    lemma_find_warning_remove(entries, k);
    match find_warning(entries) {
        None => {},
        Some((w, shndx)) => {
            lemma_last_boundary_remove(entries, k, shndx, BoundarySymbol::InfoStart);
            lemma_last_boundary_remove(entries, k, shndx, BoundarySymbol::DebugStart);
            lemma_last_boundary_remove(entries, k, shndx, BoundarySymbol::TraceStart);
            lemma_section_messages_remove(entries, k, shndx);
        },
    }
}

/// Whether the entry's name resolved and is exactly `name`.
fn entry_has_name(e: &SymbolEntry, name: &str) -> (r: bool)
    ensures
        r == e.has_name(name@),
{
    match &e.name {
        Some(n) => text::str_eq(n.as_str(), name),
        None => false,
    }
}

/// First scan: the value and section index of the first entry named
/// `__stlog_warning_start__`.
fn find_warning_sentinel(entries: &Vec<SymbolEntry>) -> (r: Option<(u64, u16)>)
    ensures
        r == find_warning(entries@),
{
    let n = entries.len();
    let mut i: usize = 0;
    proof {
        assert(entries@.skip(0) =~= entries@);
    }
    while i < n
        invariant
            i <= n,
            n == entries@.len(),
            find_warning(entries@) == find_warning(entries@.skip(i as int)),
        decreases n - i,
    {
        let e = &entries[i];
        proof {
            assert(entries@.skip(i as int)[0] == entries@[i as int]);
        }
        if entry_has_name(e, BoundarySymbol::WarningStart.symbol_name()) {
            return Some((e.value, e.shndx));
        }
        proof {
            assert(entries@.skip(i as int).drop_first() =~= entries@.skip(i as int + 1));
        }
        i += 1;
    }
    proof {
        assert(entries@.skip(n as int) =~= Seq::<SymbolEntry>::empty());
    }
    None
}

/// Second scan: the info, debug and trace boundaries of section `shndx`,
/// each the value of the last entry that supplies it.
fn find_section_boundaries(entries: &Vec<SymbolEntry>, shndx: u16) -> (r: (
    Option<u64>,
    Option<u64>,
    Option<u64>,
))
    ensures
        r.0 == last_boundary(entries@, shndx, BoundarySymbol::InfoStart),
        r.1 == last_boundary(entries@, shndx, BoundarySymbol::DebugStart),
        r.2 == last_boundary(entries@, shndx, BoundarySymbol::TraceStart),
{
    let n = entries.len();
    let mut i: usize = 0;
    let mut info: Option<u64> = None;
    let mut debug: Option<u64> = None;
    let mut trace: Option<u64> = None;
    while i < n
        invariant
            i <= n,
            n == entries@.len(),
            info == last_boundary(entries@.take(i as int), shndx, BoundarySymbol::InfoStart),
            debug == last_boundary(entries@.take(i as int), shndx, BoundarySymbol::DebugStart),
            trace == last_boundary(entries@.take(i as int), shndx, BoundarySymbol::TraceStart),
        decreases n - i,
    {
        let e = &entries[i];
        proof {
            assert(entries@.take(i as int + 1).drop_last() =~= entries@.take(i as int));
            assert(entries@.take(i as int + 1).last() == entries@[i as int]);
        }
        if e.shndx == shndx && e.kind != SymbolKind::Object {
            if entry_has_name(e, BoundarySymbol::InfoStart.symbol_name()) {
                info = Some(e.value);
            }
            if entry_has_name(e, BoundarySymbol::DebugStart.symbol_name()) {
                debug = Some(e.value);
            }
            if entry_has_name(e, BoundarySymbol::TraceStart.symbol_name()) {
                trace = Some(e.value);
            }
        }
        i += 1;
    }
    proof {
        assert(entries@.take(n as int) =~= entries@);
    }
    (info, debug, trace)
}

/// `section_messages` distributes over concatenation.
proof fn lemma_section_messages_append(s1: Seq<SymbolEntry>, s2: Seq<SymbolEntry>, shndx: u16)
    ensures
        section_messages(s1 + s2, shndx) == section_messages(s1, shndx) + section_messages(s2, shndx),
    decreases s2.len(),
{
    if s2.len() == 0 {
        assert(s1 + s2 =~= s1);
        assert(section_messages(s1, shndx) + section_messages(s2, shndx) =~= section_messages(
            s1,
            shndx,
        ));
    } else {
        lemma_section_messages_append(s1, s2.drop_last(), shndx);
        assert((s1 + s2).drop_last() =~= s1 + s2.drop_last());
        assert((s1 + s2).last() == s2.last());
        if is_message(s2.last(), shndx) {
            assert(section_messages(s1, shndx) + section_messages(s2, shndx) =~= (section_messages(
                s1,
                shndx,
            ) + section_messages(s2.drop_last(), shndx)).push(s2.last()));
        }
    }
}

/// A failed table build stays failed, with the same error, when more
/// messages follow.
proof fn lemma_spec_table_err_extends(
    msgs: Seq<SymbolEntry>,
    more: Seq<SymbolEntry>,
    b: BoundaryTable,
    e: ClassificationError,
)
    requires
        spec_table(msgs, b) == Err::<Map<u64, (Severity, Seq<char>)>, ClassificationError>(e),
    ensures
        spec_table(msgs + more, b) == Err::<Map<u64, (Severity, Seq<char>)>, ClassificationError>(e),
    decreases more.len(),
{
    if more.len() == 0 {
        assert(msgs + more =~= msgs);
    } else {
        lemma_spec_table_err_extends(msgs, more.drop_last(), b, e);
        assert((msgs + more).drop_last() =~= msgs + more.drop_last());
    }
}

/// Classify the symbol table `entries`.
///
/// On success the returned table binds every message symbol of the stlog
/// section — every data object of the section that holds the
/// `__stlog_warning_start__` sentinel — to the severity tier of its address
/// and to its name; on a duplicate address the later symbol wins. It fails
/// with `MissingSymbol` naming the first sentinel (in the order warning,
/// info, debug, trace) that is not in the table, and with `UnreadableName`
/// carrying the address of the first message symbol whose name did not
/// resolve. [`spec_classify`] states the result exactly; classification is
/// a pure function of the entries.
pub fn classify(entries: &Vec<SymbolEntry>) -> (r: Result<MessageTable, ClassificationError>)
    ensures
        match r {
            Ok(t) => spec_classify(entries@) matches Ok(m) && t@ == m,
            Err(e) => spec_classify(entries@) == Err::<
                Map<u64, (Severity, Seq<char>)>,
                ClassificationError,
            >(e),
        },
{
    let (warning_start, shndx) = match find_warning_sentinel(entries) {
        Some(ws) => ws,
        None => {
            return Err(ClassificationError::MissingSymbol(BoundarySymbol::WarningStart));
        },
    };
    let (info_o, debug_o, trace_o) = find_section_boundaries(entries, shndx);
    let info_start = match info_o {
        Some(v) => v,
        None => {
            return Err(ClassificationError::MissingSymbol(BoundarySymbol::InfoStart));
        },
    };
    let debug_start = match debug_o {
        Some(v) => v,
        None => {
            return Err(ClassificationError::MissingSymbol(BoundarySymbol::DebugStart));
        },
    };
    let trace_start = match trace_o {
        Some(v) => v,
        None => {
            return Err(ClassificationError::MissingSymbol(BoundarySymbol::TraceStart));
        },
    };
    let b = BoundaryTable { warning_start, info_start, debug_start, trace_start };
    let ghost all = entries@;
    proof {
        assert(spec_boundaries(all) == Ok::<(BoundaryTable, u16), ClassificationError>((b, shndx)));
    }
    let n = entries.len();
    let mut i: usize = 0;
    let mut table = MessageTable::new();
    while i < n
        invariant
            i <= n,
            n == all.len(),
            all == entries@,
            spec_boundaries(all) == Ok::<(BoundaryTable, u16), ClassificationError>((b, shndx)),
            spec_table(section_messages(all.take(i as int), shndx), b) matches Ok(m) && table@ == m,
        decreases n - i,
    {
        let e = &entries[i];
        proof {
            assert(all.take(i as int + 1).drop_last() =~= all.take(i as int));
            assert(all.take(i as int + 1).last() == all[i as int]);
        }
        if e.shndx == shndx && e.kind == SymbolKind::Object {
            proof {
                let ghost msgs_i = section_messages(all.take(i as int), shndx);
                assert(section_messages(all.take(i as int + 1), shndx) == msgs_i.push(
                    all[i as int],
                ));
                assert(msgs_i.push(all[i as int]).drop_last() =~= msgs_i);
                assert(msgs_i.push(all[i as int]).last() == all[i as int]);
            }
            let severity = b.classify_tier(e.value);
            match &e.name {
                None => {
                    proof {
                        let ghost err = ClassificationError::UnreadableName(e.value);
                        assert(spec_table(section_messages(all.take(i as int + 1), shndx), b)
                            == Err::<Map<u64, (Severity, Seq<char>)>, ClassificationError>(err));
                        assert(all =~= all.take(i as int + 1) + all.skip(i as int + 1));
                        lemma_section_messages_append(
                            all.take(i as int + 1),
                            all.skip(i as int + 1),
                            shndx,
                        );
                        lemma_spec_table_err_extends(
                            section_messages(all.take(i as int + 1), shndx),
                            section_messages(all.skip(i as int + 1), shndx),
                            b,
                            err,
                        );
                    }
                    return Err(ClassificationError::UnreadableName(e.value));
                },
                Some(nm) => {
                    let content = nm.clone();
                    table.insert(e.value, DecodedMessage { severity, content });
                },
            }
        }
        i += 1;
    }
    proof {
        assert(all.take(n as int) =~= all);
    }
    Ok(table)
}

} // verus!
