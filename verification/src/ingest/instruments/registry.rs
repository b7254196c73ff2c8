//! The instrument registry: the metadata of every `(exchange, symbol)`.

use crate::ingest::instruments::spec::InstrumentSpec;
use crate::text::str_eq;
use vstd::prelude::*;
use vstd::string::*;

verus! {

/// One entry of the registry.
#[derive(Debug, Clone, PartialEq, Eq)]
pub struct InstrumentEntry {
    pub exchange: String,
    pub symbol: String,
    pub spec: InstrumentSpec,
}

/// The index of the first entry from `from` on for the pair.
pub open spec fn find_instrument(
    entries: Seq<InstrumentEntry>,
    exchange: Seq<char>,
    symbol: Seq<char>,
    from: int,
) -> Option<int>
    decreases entries.len() - from,
{
    if from < 0 || from >= entries.len() {
        None
    } else if entries[from].exchange@ == exchange && entries[from].symbol@ == symbol {
        Some(from)
    } else {
        find_instrument(entries, exchange, symbol, from + 1)
    }
}

#[derive(Debug, Clone, PartialEq, Eq)]
pub struct InstrumentRegistry {
    pub entries: Vec<InstrumentEntry>,
}

impl InstrumentRegistry {
    /// Every instrument is well formed.
    pub open spec fn wf(&self) -> bool {
        forall|i: int| 0 <= i < self.entries@.len() ==> (#[trigger] self.entries@[i]).spec.wf()
    }

    pub fn new() -> (r: InstrumentRegistry)
        ensures
            r.entries@.len() == 0,
            r.wf(),
    {
        InstrumentRegistry { entries: Vec::new() }
    }

    /// Adds an instrument; one that is not well formed is refused and
    /// handed back.
    pub fn insert(&mut self, exchange: String, symbol: String, spec: InstrumentSpec) -> (r: Option<
        InstrumentSpec,
    >)
        ensures
            spec.wf() ==> r is None && final(self).entries@ == old(self).entries@.push(
                InstrumentEntry { exchange, symbol, spec },
            ),
            !spec.wf() ==> r == Some(spec) && final(self).entries@ == old(self).entries@,
            old(self).wf() ==> final(self).wf(),
    {
        if !spec.is_valid() {
            return Some(spec);
        }
        self.entries.push(InstrumentEntry { exchange, symbol, spec });
        None
    }

    /// The instrument of the pair: the first entry for it.
    pub fn get(&self, exchange: &str, symbol: &str) -> (r: Option<&InstrumentSpec>)
        ensures
            match find_instrument(self.entries@, exchange@, symbol@, 0) {
                Some(i) => r == Some(&self.entries@[i].spec),
                None => r is None,
            },
            self.wf() ==> (r matches Some(s) ==> s.wf()),
    {
        let mut i: usize = 0;
        while i < self.entries.len()
            invariant
                i <= self.entries@.len(),
                find_instrument(self.entries@, exchange@, symbol@, 0) == find_instrument(
                    self.entries@,
                    exchange@,
                    symbol@,
                    i as int,
                ),
            decreases self.entries@.len() - i,
        {
            let e = &self.entries[i];
            if str_eq(e.exchange.as_str(), exchange) && str_eq(e.symbol.as_str(), symbol) {
                return Some(&e.spec);
            }
            i = i + 1;
        }
        None
    }
}

} // verus!
