//! Reference-counted ownership of one symbol collection, and lazy,
//! restartable iteration over its records.
//!
//! A [`SymbolSet`] owns one logical reference on a collection held by the
//! engine: wrapping a raw reference takes one reference, duplication takes
//! one more, and release gives exactly one back, so the native memory is
//! freed exactly once even under aliasing. A [`SymbolIter`] walks the
//! collection's linked list of records forward, holding at most one owned
//! [`Symbol`] at a time and handing the held record out as it advances.

use vstd::prelude::*;

use crate::engine::{acquire, release_one, Engine, EngineModel, RawSymbolSet};
use crate::symbol::Symbol;

verus! {

/// Owner of one logical reference on a collection of decoded symbols.
pub struct SymbolSet {
    set: usize,
}

impl SymbolSet {
    /// The id of the wrapped collection.
    pub closed spec fn set_id(self) -> int {
        self.set as int
    }

    /// A live handle designates a collection the engine knows, on which at
    /// least one reference is held by the handle's lineage.
    pub open spec fn wf(self, m: EngineModel) -> bool {
        m.valid_collection(self.set_id()) && m.refs_of(self.set_id()) >= 1
    }

    /// The decoded texts of the collection's records, in linked-list order.
    pub open spec fn spec_data(self, m: EngineModel) -> Seq<Seq<char>> {
        m.data_of(self.set_id())
    }

    /// Wraps a raw collection reference into an owned handle, taking one
    /// reference on success. A null reference yields absence, not an error,
    /// and leaves the engine untouched.
    pub fn from_raw(raw: RawSymbolSet, eng: &mut Engine) -> (r: Option<SymbolSet>)
        requires
            raw matches RawSymbolSet::Ptr(id) ==> old(eng)@.valid_collection(id as int) && old(
                eng,
            )@.refs_of(id as int) < u64::MAX && old(eng)@.increments < u64::MAX,
        ensures
            raw is Null ==> r is None && final(eng)@ == old(eng)@,
            raw matches RawSymbolSet::Ptr(id) ==> (r matches Some(h) && h.set_id() == id
                && final(eng)@ =~~= acquire(old(eng)@, id as int) && h.wf(final(eng)@)),
            old(eng)@.wf() ==> final(eng)@.wf(),
    {
        match raw {
            RawSymbolSet::Null => None,
            RawSymbolSet::Ptr(id) => {
                let symbol_set = SymbolSet { set: id };
                symbol_set.set_ref(eng, 1);
                Some(symbol_set)
            },
        }
    }

    /// Adjusts the engine's reference count for the wrapped collection.
    fn set_ref(&self, eng: &mut Engine, refs: i32)
        requires
            old(eng)@.valid_collection(self.set_id()),
            refs == 1i32 || refs == -1i32,
            refs == 1i32 ==> old(eng)@.refs_of(self.set_id()) < u64::MAX && old(eng)@.increments
                < u64::MAX,
            refs == -1i32 ==> old(eng)@.refs_of(self.set_id()) >= 1 && old(eng)@.decrements
                < u64::MAX,
        ensures
            refs == 1i32 ==> final(eng)@ =~~= acquire(old(eng)@, self.set_id()),
            refs == -1i32 ==> final(eng)@ =~~= release_one(old(eng)@, self.set_id()),
            old(eng)@.wf() ==> final(eng)@.wf(),
    {
        eng.collection_ref(self.set, refs)
    }

    /// The number of symbol records in the collection; zero for an empty
    /// collection, never an error.
    pub fn size(&self, eng: &Engine) -> (n: i32)
        requires
            self.wf(eng@),
            eng@.wf(),
        ensures
            n == self.spec_data(eng@).len(),
    {
        eng.collection_size(self.set)
    }

    /// The first symbol record of the collection, wrapped as an owned
    /// value; absence when the collection is empty. The handle's own
    /// reference count is not touched.
    pub fn first_symbol(&self, eng: &Engine) -> (r: Option<Symbol>)
        requires
            self.wf(eng@),
        ensures
            self.spec_data(eng@).len() == 0 ==> r is None,
            self.spec_data(eng@).len() > 0 ==> (r matches Some(s) && s.wf(eng@) && s.set_id()
                == self.set_id() && s.pos() == 0),
    {
        Symbol::from_raw(eng.collection_first(self.set))
    }

    /// Like [`Self::first_symbol`], but asks the engine for the unfiltered
    /// head of the list, bypassing any result filtering the engine would
    /// otherwise apply.
    pub fn first_symbol_unfiltered(&self, eng: &Engine) -> (r: Option<Symbol>)
        requires
            self.wf(eng@),
        ensures
            self.spec_data(eng@).len() == 0 ==> r is None,
            self.spec_data(eng@).len() > 0 ==> (r matches Some(s) && s.wf(eng@) && s.set_id()
                == self.set_id() && s.pos() == 0),
    {
        Symbol::from_raw(eng.collection_first_unfiltered(self.set))
    }

    /// A fresh iterator positioned at the start of the collection's
    /// sequence. Every call yields an independent full traversal.
    pub fn iter(&self, eng: &Engine) -> (it: SymbolIter)
        requires
            self.wf(eng@),
        ensures
            it.wf(eng@),
            it.remaining(eng@) =~~= self.spec_data(eng@),
    {
        SymbolIter::from(self.first_symbol(eng))
    }

    /// Duplicates the handle: the copy aliases the same collection and
    /// takes one more reference. The two values have independent lifetimes;
    /// releasing one does not invalidate the other.
    pub fn duplicate(&self, eng: &mut Engine) -> (r: SymbolSet)
        requires
            self.wf(old(eng)@),
            old(eng)@.refs_of(self.set_id()) < u64::MAX,
            old(eng)@.increments < u64::MAX,
        ensures
            r.set_id() == self.set_id(),
            final(eng)@ =~~= acquire(old(eng)@, self.set_id()),
            r.wf(final(eng)@),
            self.wf(final(eng)@),
            old(eng)@.wf() ==> final(eng)@.wf(),
    {
        let symbol_set = SymbolSet { set: self.set };
        symbol_set.set_ref(eng, 1);
        symbol_set
    }

    /// Releases this handle's reference: the engine's count for the
    /// collection drops by exactly one. Must be called exactly once per
    /// handle value; skipping it leaks the external reference.
    pub fn release(self, eng: &mut Engine)
        requires
            self.wf(old(eng)@),
            old(eng)@.decrements < u64::MAX,
        ensures
            final(eng)@ =~~= release_one(old(eng)@, self.set_id()),
            old(eng)@.wf() ==> final(eng)@.wf(),
    {
        self.set_ref(eng, -1);
    }
}

/// Forward iterator over a collection's linked list of symbol records.
///
/// The iterator holds at most one owned [`Symbol`] at a time: each call of
/// [`Self::next`] swaps the held record for its successor and yields the
/// record held before the swap. Once exhausted it stays exhausted.
pub struct SymbolIter {
    symbol: Option<Symbol>,
}

impl SymbolIter {
    /// The record the iterator currently holds; absence once exhausted.
    pub closed spec fn current(self) -> Option<Symbol> {
        self.symbol
    }

    /// Whatever record is held designates one the engine knows.
    pub open spec fn wf(self, m: EngineModel) -> bool {
        self.current() matches Some(s) ==> s.wf(m)
    }

    /// The decoded texts still to be yielded, in list order.
    pub open spec fn remaining(self, m: EngineModel) -> Seq<Seq<char>> {
        match self.current() {
            None => Seq::empty(),
            Some(s) => m.data_of(s.set_id()).skip(s.pos()),
        }
    }

    /// An iterator that starts at the given record; absence starts it
    /// exhausted.
    pub fn from(symbol: Option<Symbol>) -> (it: SymbolIter)
        ensures
            it.current() == symbol,
    {
        SymbolIter { symbol }
    }

    /// Yields the record held at the time of the call and advances the
    /// internal slot to that record's successor. Once the iterator is
    /// exhausted, this and every subsequent call yield absence.
    pub fn next(&mut self, eng: &Engine) -> (r: Option<Symbol>)
        requires
            old(self).wf(eng@),
        ensures
            final(self).wf(eng@),
            r == old(self).current(),
            old(self).remaining(eng@).len() == 0 ==> (r is None && final(self).remaining(eng@)
                =~~= old(self).remaining(eng@)),
            old(self).remaining(eng@).len() > 0 ==> (r matches Some(s) && s.wf(eng@)
                && s.spec_data(eng@) == old(self).remaining(eng@)[0]
                && final(self).remaining(eng@) =~~= old(self).remaining(eng@).skip(1)),
    {
        let next = match &self.symbol {
            Some(symbol) => symbol.next(eng),
            None => None,
        };
        let prev = self.symbol;
        self.symbol = next;
        prev
    }

    /// Drains the iterator: yields the decoded text of every record still
    /// to come, in list order, leaving the iterator exhausted.
    pub fn collect_data(&mut self, eng: &Engine) -> (v: Vec<String>)
        requires
            old(self).wf(eng@),
        ensures
            final(self).wf(eng@),
            final(self).remaining(eng@).len() == 0,
            v@.map_values(|s: String| s@) =~~= old(self).remaining(eng@),
    {
        let ghost orig = *self;
        let mut out: Vec<String> = Vec::new();
        loop
            invariant
                self.wf(eng@),
                out@.map_values(|s: String| s@) + self.remaining(eng@) =~~= orig.remaining(eng@),
            ensures
                self.wf(eng@),
                self.remaining(eng@).len() == 0,
                out@.map_values(|s: String| s@) + self.remaining(eng@) =~~= orig.remaining(eng@),
            decreases self.remaining(eng@).len(),
        {
            match self.next(eng) {
                Some(symbol) => {
                    let data = symbol.data(eng);
                    proof {
                        assert(out@.push(data).map_values(|s: String| s@) =~~= out@.map_values(
                            |s: String| s@,
                        ).push(data@));
                    }
                    out.push(data);
                },
                None => {
                    break ;
                },
            }
        }
        proof {
            assert(out@.map_values(|s: String| s@) =~~= out@.map_values(|s: String| s@)
                + self.remaining(eng@));
        }
        out
    }
}

/// Restartability: a fresh iterator always stands at the full sequence of
/// its collection's decoded texts, so any two iterators freshly started on
/// the same handle against the same engine state traverse identical data in
/// identical order.
pub proof fn lemma_iter_restartable(
    h: SymbolSet,
    m: EngineModel,
    it1: SymbolIter,
    it2: SymbolIter,
)
    requires
        h.wf(m),
        it1.remaining(m) == h.spec_data(m),
        it2.remaining(m) == h.spec_data(m),
    ensures
        it1.remaining(m) == it2.remaining(m),
{
}

/// Size consistency: the values a full drain of a fresh iterator yields are
/// exactly the collection's data, so their number equals what `size`
/// reports.
pub proof fn lemma_size_consistency(
    h: SymbolSet,
    m: EngineModel,
    it: SymbolIter,
    drained: Seq<Seq<char>>,
)
    requires
        h.wf(m),
        it.remaining(m) == h.spec_data(m),
        drained == it.remaining(m),
    ensures
        drained.len() == h.spec_data(m).len(),
{
}

} // verus!
