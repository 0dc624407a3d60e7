use vstd::prelude::*;
use std::collections::HashMap;
use crate::severity::Severity;

verus! {

broadcast use vstd::std_specs::hash::group_hash_axioms;

/// A message recovered from the symbol table: the severity tier its address
/// fell into, and its text, which is the symbol's name.
#[derive(Debug)]
pub struct DecodedMessage {
    /// Severity tier of the message.
    pub severity: Severity,
    /// The log text.
    pub content: String,
}

impl View for DecodedMessage {
    type V = (Severity, Seq<char>);

    open spec fn view(&self) -> (Severity, Seq<char>) {
        (self.severity, self.content@)
    }
}

/// Map from message address (the ID a target emits) to decoded message.
///
/// Built once by the classifier, then only queried; its abstract value is a
/// map from address to severity-and-text pair.
#[derive(Debug)]
pub struct MessageTable {
    map: HashMap<u64, DecodedMessage>,
}

impl View for MessageTable {
    type V = Map<u64, (Severity, Seq<char>)>;

    closed spec fn view(&self) -> Map<u64, (Severity, Seq<char>)> {
        self.map@.map_values(|m: DecodedMessage| m@)
    }
}

impl MessageTable {
    /// The empty table.
    pub fn new() -> (t: MessageTable)
        ensures
            t@ == Map::<u64, (Severity, Seq<char>)>::empty(),
    {
        let t = MessageTable { map: HashMap::new() };
        proof {
            assert(t@ =~= Map::<u64, (Severity, Seq<char>)>::empty());
        }
        t
    }

    /// Bind `address` to `message`, replacing any earlier binding.
    pub fn insert(&mut self, address: u64, message: DecodedMessage)
        ensures
            final(self)@ == old(self)@.insert(address, message@),
    {
        self.map.insert(address, message);
        proof {
            assert(self@ =~= old(self)@.insert(address, message@));
        }
    }

    /// Look `address` up.
    pub fn get(&self, address: u64) -> (r: Option<&DecodedMessage>)
        ensures
            match r {
                Some(m) => self@.contains_key(address) && m@ == self@[address],
                None => !self@.contains_key(address),
            },
    {
        self.map.get(&address)
    }

    /// Number of messages in the table.
    pub fn len(&self) -> (n: usize)
        ensures
            n == self@.len(),
    {
        proof {
            assert(self@.dom() =~= self.map@.dom());
        }
        self.map.len()
    }
}

} // verus!
