use vstd::prelude::*;

verus! {

/// Kind of a symbol-table entry, as far as classification cares: data
/// objects are message symbols, everything else can only be a sentinel.
#[derive(Clone, Copy, Debug, PartialEq, Eq, Structural)]
pub enum SymbolKind {
    /// A data object: in the stlog section, a message whose name is the log
    /// text and whose address is the message ID.
    Object,
    /// A function symbol.
    Function,
    /// Any other kind of symbol.
    Other,
}

/// One entry of a binary's symbol table, reduced to the fields that
/// classification reads.
///
/// `name` is `None` when the entry's name could not be resolved against the
/// binary's string table. Such an entry matches no sentinel; the classifier
/// fails on it only if it must read its name, that is, only if the entry is
/// a message symbol of the stlog section.
#[derive(Debug)]
pub struct SymbolEntry {
    /// The symbol's name, if it resolved.
    pub name: Option<String>,
    /// The symbol's value: an address, and for a message its ID.
    pub value: u64,
    /// Index of the section the symbol belongs to.
    pub shndx: u16,
    /// The symbol's kind.
    pub kind: SymbolKind,
}

impl SymbolEntry {
    /// Whether the entry's name resolved and is exactly `name`.
    pub open spec fn has_name(self, name: Seq<char>) -> bool {
        self.name matches Some(n) && n@ == name
    }
}

} // verus!
