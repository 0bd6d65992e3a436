//! Owned wrapper around one decoded symbol record.
//!
//! A symbol record belongs to a collection and forms a singly-linked
//! sequence with its successors. This wrapper holds the record's position
//! (its collection's id and its index in list order), fetches the decoded
//! text from the engine, and wraps the raw successor reference into a new
//! owned value. Traversal is valid only while the owning collection is
//! alive; the record itself is never mutated through this wrapper. The
//! stand-in engine keeps each record alive exactly as long as its
//! collection, so wrapping a record takes no reference of its own: the
//! collection's count, managed by the handle, is the one that governs the
//! memory.

use vstd::prelude::*;

use crate::engine::{Engine, EngineModel, RawSymbol};

verus! {

/// An owned view of one decoded symbol record.
#[derive(Clone, Copy)]
pub struct Symbol {
    set: usize,
    index: usize,
}

impl Symbol {
    /// The id of the collection this record belongs to.
    pub closed spec fn set_id(self) -> int {
        self.set as int
    }

    /// The record's position in its collection's linked list.
    pub closed spec fn pos(self) -> int {
        self.index as int
    }

    /// The symbol designates a record the engine knows.
    pub open spec fn wf(self, m: EngineModel) -> bool {
        m.valid_collection(self.set_id()) && 0 <= self.pos() < m.data_of(self.set_id()).len()
    }

    /// The decoded text of this record.
    pub open spec fn spec_data(self, m: EngineModel) -> Seq<char> {
        m.data_of(self.set_id())[self.pos()]
    }

    /// Wraps a raw symbol reference into an owned value. A null reference
    /// yields absence, never a degenerate symbol.
    pub fn from_raw(raw: RawSymbol) -> (r: Option<Symbol>)
        ensures
            raw is Null <==> r is None,
            raw matches RawSymbol::Ptr(set, index) ==> r matches Some(s) && s.set_id() == set
                && s.pos() == index,
    {
        match raw {
            RawSymbol::Null => None,
            RawSymbol::Ptr(set, index) => Some(Symbol { set, index }),
        }
    }

    /// The decoded text, fetched from the engine.
    pub fn data(&self, eng: &Engine) -> (d: String)
        requires
            self.wf(eng@),
        ensures
            d@ == self.spec_data(eng@),
    {
        eng.symbol_data(self.set, self.index)
    }

    /// The successor record in the collection's linked list, wrapped as an
    /// owned value; absence once the end of the list is reached.
    pub fn next(&self, eng: &Engine) -> (r: Option<Symbol>)
        requires
            self.wf(eng@),
        ensures
            self.pos() + 1 < eng@.data_of(self.set_id()).len() ==> (r matches Some(s) && s.wf(
                eng@,
            ) && s.set_id() == self.set_id() && s.pos() == self.pos() + 1),
            self.pos() + 1 >= eng@.data_of(self.set_id()).len() ==> r is None,
    {
        Symbol::from_raw(eng.symbol_next(self.set, self.index))
    }
}

} // verus!
