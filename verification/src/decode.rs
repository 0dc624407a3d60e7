use vstd::prelude::*;
use crate::severity::Severity;
use crate::table::{DecodedMessage, MessageTable};

verus! {

/// What the decoder did with one raw message ID.
#[derive(Debug)]
pub enum ByteOutcome {
    /// The ID resolved and its severity passes the filter; the payload is
    /// the message to emit.
    Emitted(DecodedMessage),
    /// The ID resolved but its severity is more verbose than the filter:
    /// nothing is emitted, and that is not an error.
    Suppressed,
    /// No message has this ID; the payload is the ID, to be reported on a
    /// diagnostic channel separate from the decoded output. A single
    /// unknown ID never aborts decoding of the bytes after it.
    Unknown(u64),
}

/// Resolve one raw ID against `table` under the minimum-severity filter
/// `filter`.
///
/// A resolved message is emitted exactly when it is no more verbose than
/// the filter: `Error` messages always pass, `Trace` messages pass only
/// under a `Trace` filter.
pub fn decode_byte(table: &MessageTable, id: u64, filter: Severity) -> (r: ByteOutcome)
    ensures
        table@.contains_key(id) && table@[id].0.verbosity() <= filter.verbosity() ==> (
        r matches ByteOutcome::Emitted(m) && m@ == table@[id]),
        table@.contains_key(id) && table@[id].0.verbosity() > filter.verbosity() ==> r
            is Suppressed,
        !table@.contains_key(id) ==> r == ByteOutcome::Unknown(id),
{
    match table.get(id) {
        Some(m) => {
            if m.severity.passes_filter(filter) {
                ByteOutcome::Emitted(
                    DecodedMessage { severity: m.severity, content: m.content.clone() },
                )
            } else {
                ByteOutcome::Suppressed
            }
        },
        None => ByteOutcome::Unknown(id),
    }
}

/// The severity-and-text pairs of `ms`.
pub open spec fn views_of(ms: Seq<DecodedMessage>) -> Seq<(Severity, Seq<char>)> {
    ms.map_values(|m: DecodedMessage| m@)
}

/// The messages a stream decode of `input` emits, in arrival order: one
/// pair per byte that resolves in `t` to a message no more verbose than
/// `filter`.
pub open spec fn spec_emitted(
    t: Map<u64, (Severity, Seq<char>)>,
    input: Seq<u8>,
    filter: Severity,
) -> Seq<(Severity, Seq<char>)>
    decreases input.len(),
{
    if input.len() == 0 {
        Seq::empty()
    } else {
        let prefix = spec_emitted(t, input.drop_last(), filter);
        let id = input.last() as u64;
        if t.contains_key(id) && t[id].0.verbosity() <= filter.verbosity() {
            prefix.push(t[id])
        } else {
            prefix
        }
    }
}

/// The IDs a stream decode of `input` reports as unknown, in arrival order:
/// one per byte with no binding in `t`, however often it repeats.
pub open spec fn spec_unknown_ids(t: Map<u64, (Severity, Seq<char>)>, input: Seq<u8>) -> Seq<u64>
    decreases input.len(),
{
    if input.len() == 0 {
        Seq::empty()
    } else {
        let prefix = spec_unknown_ids(t, input.drop_last());
        let id = input.last() as u64;
        if t.contains_key(id) {
            prefix
        } else {
            prefix.push(id)
        }
    }
}

/// Decode a whole byte stream in one pass.
///
/// Returns the emitted messages and the unknown IDs, each in arrival
/// order. Filtered-out messages leave no trace; unknown IDs are reported
/// without stopping the stream.
pub fn decode_stream(table: &MessageTable, input: &Vec<u8>, filter: Severity) -> (r: (
    Vec<DecodedMessage>,
    Vec<u64>,
))
    ensures
        views_of(r.0@) == spec_emitted(table@, input@, filter),
        r.1@ == spec_unknown_ids(table@, input@),
{
    let mut emitted: Vec<DecodedMessage> = Vec::new();
    let mut unknown: Vec<u64> = Vec::new();
    let n = input.len();
    let mut i: usize = 0;
    proof {
        assert(views_of(emitted@) =~= spec_emitted(table@, input@.take(0), filter));
    }
    while i < n
        invariant
            i <= n,
            n == input@.len(),
            views_of(emitted@) == spec_emitted(table@, input@.take(i as int), filter),
            unknown@ == spec_unknown_ids(table@, input@.take(i as int)),
        decreases n - i,
    {
        proof {
            assert(input@.take(i as int + 1).drop_last() =~= input@.take(i as int));
            assert(input@.take(i as int + 1).last() == input@[i as int]);
        }
        let id = input[i] as u64;
        match decode_byte(table, id, filter) {
            ByteOutcome::Emitted(m) => {
                emitted.push(m);
                proof {
                    assert(views_of(emitted@) =~= spec_emitted(
                        table@,
                        input@.take(i as int + 1),
                        filter,
                    ));
                }
            },
            ByteOutcome::Suppressed => {},
            ByteOutcome::Unknown(u) => {
                unknown.push(u);
            },
        }
        i += 1;
    }
    proof {
        assert(input@.take(n as int) =~= input@);
    }
    (emitted, unknown)
}

/// Render one emitted message as a line of the form `<LEVEL> <content>`,
/// with the level's upper-case name.
pub fn render_line(m: &DecodedMessage) -> (r: String)
    ensures
        r@ == m.severity.spec_label() + " "@ + m.content@,
{
    let mut line = String::from_str(m.severity.label());
    line.append(" ");
    line.append(m.content.as_str());
    line
}

/// Timestamp hook for rendering sinks that want no timestamp at all: it
/// writes nothing to the sink and always succeeds.
pub fn no_timestamp(sink: &mut Vec<u8>) -> (r: Result<(), ()>)
    ensures
        final(sink)@ == old(sink)@,
        r is Ok,
{
    Ok(())
}

} // verus!
