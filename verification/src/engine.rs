//! Instrumented stand-in for the external scanning engine.
//!
//! The real engine maintains, for every collection of decoded symbols, a
//! manual reference count and an intrusive singly-linked list of symbol
//! records. This module models that state as plain data: each collection
//! holds its current reference count and the decoded text of its records in
//! list order. The engine also counts every reference increment and
//! decrement it is asked to perform, so that the balance of the wrapper's
//! acquire/release discipline can be observed.

use vstd::prelude::*;

verus! {

/// Mathematical model of one collection: its current external reference
/// count and the decoded text of each symbol record, in linked-list order.
#[verifier::ext_equal]
pub ghost struct CollectionModel {
    pub refs: nat,
    pub data: Seq<Seq<char>>,
}

/// Mathematical model of the whole engine: every collection it knows, plus
/// the instrumentation counters for reference increments and decrements.
#[verifier::ext_equal]
pub ghost struct EngineModel {
    pub collections: Seq<CollectionModel>,
    pub increments: nat,
    pub decrements: nat,
}

impl EngineModel {
    /// The raw id `i` designates a collection the engine knows.
    pub open spec fn valid_collection(self, i: int) -> bool {
        0 <= i < self.collections.len()
    }

    /// Current reference count of collection `i`.
    pub open spec fn refs_of(self, i: int) -> nat {
        self.collections[i].refs
    }

    /// Decoded texts of collection `i`, in linked-list order.
    pub open spec fn data_of(self, i: int) -> Seq<Seq<char>> {
        self.collections[i].data
    }

    /// Every collection is small enough for its size to be reported as `i32`.
    pub open spec fn wf(self) -> bool {
        forall|i: int|
            0 <= i < self.collections.len() ==> (#[trigger] self.collections[i]).data.len()
                <= i32::MAX
    }
}

/// The engine state after taking one reference on collection `i`: that
/// count rises by one and one increment call is recorded.
pub open spec fn acquire(m: EngineModel, i: int) -> EngineModel {
    EngineModel {
        collections: m.collections.update(
            i,
            CollectionModel { refs: m.collections[i].refs + 1, data: m.collections[i].data },
        ),
        increments: m.increments + 1,
        decrements: m.decrements,
    }
}

/// The engine state after giving back one reference on collection `i`: that
/// count drops by one and one decrement call is recorded.
pub open spec fn release_one(m: EngineModel, i: int) -> EngineModel {
    EngineModel {
        collections: m.collections.update(
            i,
            CollectionModel {
                refs: (m.collections[i].refs - 1) as nat,
                data: m.collections[i].data,
            },
        ),
        increments: m.increments,
        decrements: m.decrements + 1,
    }
}

/// A raw reference to a collection, as the engine hands it out: null when
/// the engine has nothing to report, otherwise the opaque id of a
/// collection.
#[derive(Clone, Copy, PartialEq, Eq, Structural)]
pub enum RawSymbolSet {
    Null,
    Ptr(usize),
}

/// A raw reference to one symbol record: null, or the id of the collection
/// the record belongs to together with the record's position in that
/// collection's linked list.
#[derive(Clone, Copy, PartialEq, Eq, Structural)]
pub enum RawSymbol {
    Null,
    Ptr(usize, usize),
}

/// One collection as the stand-in engine stores it.
struct CollectionState {
    /// Current external reference count.
    refs: u64,
    /// Decoded text of each symbol record, in linked-list order.
    symbols: Vec<String>,
}

impl View for CollectionState {
    type V = CollectionModel;

    closed spec fn view(&self) -> CollectionModel {
        CollectionModel {
            refs: self.refs as nat,
            data: self.symbols@.map_values(|s: String| s@),
        }
    }
}

/// The instrumented stand-in engine.
pub struct Engine {
    collections: Vec<CollectionState>,
    increments: u64,
    decrements: u64,
}

impl View for Engine {
    type V = EngineModel;

    closed spec fn view(&self) -> EngineModel {
        EngineModel {
            collections: self.collections@.map_values(|c: CollectionState| c@),
            increments: self.increments as nat,
            decrements: self.decrements as nat,
        }
    }
}

impl Engine {
    /// An engine that knows no collections yet and has recorded no
    /// reference-count calls.
    pub fn new() -> (e: Engine)
        ensures
            e@.collections =~= Seq::<CollectionModel>::empty(),
            e@.increments == 0,
            e@.decrements == 0,
            e@.wf(),
    {
        Engine { collections: Vec::new(), increments: 0, decrements: 0 }
    }

    /// Registers a freshly decoded collection with the given symbol texts
    /// and hands out its raw reference. The engine itself holds no reference
    /// on it: every owner must take its own.
    pub fn add_collection(&mut self, symbols: Vec<String>) -> (raw: RawSymbolSet)
        requires
            symbols@.len() <= i32::MAX,
        ensures
            final(self)@.collections =~~= old(self)@.collections.push(
                CollectionModel { refs: 0, data: symbols@.map_values(|s: String| s@) },
            ),
            final(self)@.increments == old(self)@.increments,
            final(self)@.decrements == old(self)@.decrements,
            raw matches RawSymbolSet::Ptr(id) && id == old(self)@.collections.len(),
            old(self)@.wf() ==> final(self)@.wf(),
    {
        let id: usize = self.collections.len();
        self.collections.push(CollectionState { refs: 0, symbols });
        proof {
            assert(self@.collections =~~= old(self)@.collections.push(
                CollectionModel { refs: 0, data: symbols@.map_values(|s: String| s@) },
            ));
        }
        RawSymbolSet::Ptr(id)
    }

    /// Adjusts the reference count of collection `set` by `delta`, exactly
    /// as the wrapper's acquire/release discipline demands: `+1` for every
    /// successful wrap or duplication, `-1` for every release.
    pub fn collection_ref(&mut self, set: usize, delta: i32)
        requires
            old(self)@.valid_collection(set as int),
            delta == 1i32 || delta == -1i32,
            delta == 1i32 ==> old(self)@.refs_of(set as int) < u64::MAX && old(
                self,
            )@.increments < u64::MAX,
            delta == -1i32 ==> old(self)@.refs_of(set as int) >= 1 && old(self)@.decrements
                < u64::MAX,
        ensures
            delta == 1i32 ==> final(self)@ =~~= acquire(old(self)@, set as int),
            delta == -1i32 ==> final(self)@ =~~= release_one(old(self)@, set as int),
            old(self)@.wf() ==> final(self)@.wf(),
    {
        let c = &mut self.collections[set];
        if delta == 1 {
            c.refs = c.refs + 1;
            self.increments = self.increments + 1;
        } else {
            c.refs = c.refs - 1;
            self.decrements = self.decrements + 1;
        }
        proof {
            assert(self@.collections =~~= if delta == 1i32 {
                acquire(old(self)@, set as int).collections
            } else {
                release_one(old(self)@, set as int).collections
            });
        }
    }

    /// The number of symbol records in collection `set`.
    pub fn collection_size(&self, set: usize) -> (n: i32)
        requires
            self@.valid_collection(set as int),
            self@.wf(),
        ensures
            n == self@.data_of(set as int).len(),
    {
        self.collections[set].symbols.len() as i32
    }

    /// The head of collection `set`'s linked list of symbol records, or
    /// null when the collection is empty.
    pub fn collection_first(&self, set: usize) -> (raw: RawSymbol)
        requires
            self@.valid_collection(set as int),
        ensures
            self@.data_of(set as int).len() == 0 ==> raw is Null,
            self@.data_of(set as int).len() > 0 ==> raw == RawSymbol::Ptr(set, 0usize),
    {
        if self.collections[set].symbols.len() == 0 {
            RawSymbol::Null
        } else {
            RawSymbol::Ptr(set, 0)
        }
    }

    /// The unfiltered head of collection `set`'s linked list. This stand-in
    /// engine applies no result filtering, so the unfiltered head coincides
    /// with the filtered one.
    pub fn collection_first_unfiltered(&self, set: usize) -> (raw: RawSymbol)
        requires
            self@.valid_collection(set as int),
        ensures
            self@.data_of(set as int).len() == 0 ==> raw is Null,
            self@.data_of(set as int).len() > 0 ==> raw == RawSymbol::Ptr(set, 0usize),
    {
        self.collection_first(set)
    }

    /// The successor of the record at `index` in collection `set`, or null
    /// when that record is the last one.
    pub fn symbol_next(&self, set: usize, index: usize) -> (raw: RawSymbol)
        requires
            self@.valid_collection(set as int),
            index < self@.data_of(set as int).len(),
        ensures
            index + 1 < self@.data_of(set as int).len() ==> (raw matches RawSymbol::Ptr(s, i)
                && s == set && i == index + 1),
            index + 1 >= self@.data_of(set as int).len() ==> raw is Null,
    {
        if index < self.collections[set].symbols.len() - 1 {
            RawSymbol::Ptr(set, index + 1)
        } else {
            RawSymbol::Null
        }
    }

    /// The decoded text of the record at `index` in collection `set`.
    pub fn symbol_data(&self, set: usize, index: usize) -> (data: String)
        requires
            self@.valid_collection(set as int),
            index < self@.data_of(set as int).len(),
        ensures
            data@ == self@.data_of(set as int)[index as int],
    {
        self.collections[set].symbols[index].clone()
    }

    /// How many reference increments the engine has performed so far.
    pub fn increments(&self) -> (n: u64)
        ensures
            n == self@.increments,
    {
        self.increments
    }

    /// How many reference decrements the engine has performed so far.
    pub fn decrements(&self) -> (n: u64)
        ensures
            n == self@.decrements,
    {
        self.decrements
    }

    /// The current reference count of collection `set`.
    pub fn collection_refs(&self, set: usize) -> (n: u64)
        requires
            self@.valid_collection(set as int),
        ensures
            n == self@.refs_of(set as int),
    {
        self.collections[set].refs
    }
}

/// The engine state after `n` references have been taken on collection `i`,
/// one at a time.
pub open spec fn acquire_n(m: EngineModel, i: int, n: nat) -> EngineModel
    decreases n,
{
    if n == 0 {
        m
    } else {
        acquire(acquire_n(m, i, (n - 1) as nat), i)
    }
}

/// The engine state after `n` references have been given back on collection
/// `i`, one at a time.
pub open spec fn release_n(m: EngineModel, i: int, n: nat) -> EngineModel
    decreases n,
{
    if n == 0 {
        m
    } else {
        release_one(release_n(m, i, (n - 1) as nat), i)
    }
}

/// Taking `n` references on collection `i` raises exactly that count by `n`,
/// records `n` increments, and changes nothing else.
pub proof fn lemma_acquire_n(m: EngineModel, i: int, n: nat)
    requires
        m.valid_collection(i),
    ensures
        acquire_n(m, i, n).collections.len() == m.collections.len(),
        acquire_n(m, i, n).collections[i].refs == m.collections[i].refs + n,
        acquire_n(m, i, n).collections[i].data == m.collections[i].data,
        forall|j: int|
            0 <= j < m.collections.len() && j != i ==> acquire_n(m, i, n).collections[j]
                == m.collections[j],
        acquire_n(m, i, n).increments == m.increments + n,
        acquire_n(m, i, n).decrements == m.decrements,
    decreases n,
{
    if n > 0 {
        lemma_acquire_n(m, i, (n - 1) as nat);
    }
}

/// Giving back `n` of at least `n` held references on collection `i` lowers
/// exactly that count by `n`, records `n` decrements, and changes nothing
/// else.
pub proof fn lemma_release_n(m: EngineModel, i: int, n: nat)
    requires
        m.valid_collection(i),
        m.collections[i].refs >= n,
    ensures
        release_n(m, i, n).collections.len() == m.collections.len(),
        release_n(m, i, n).collections[i].refs == m.collections[i].refs - n,
        release_n(m, i, n).collections[i].data == m.collections[i].data,
        forall|j: int|
            0 <= j < m.collections.len() && j != i ==> release_n(m, i, n).collections[j]
                == m.collections[j],
        release_n(m, i, n).increments == m.increments,
        release_n(m, i, n).decrements == m.decrements + n,
    decreases n,
{
    if n > 0 {
        lemma_release_n(m, i, (n - 1) as nat);
    }
}

/// Reference-count balance: wrapping a raw collection takes one reference
/// and each of `n` duplications takes one more; releasing every one of the
/// `n + 1` resulting values gives all of them back. The engine's
/// collections return exactly to their prior state, and the instrumentation
/// shows `n + 1` increment calls matched by `n + 1` decrement calls.
pub proof fn lemma_reference_count_balance(m: EngineModel, i: int, n: nat)
    requires
        m.valid_collection(i),
    ensures
        release_n(acquire_n(m, i, n + 1), i, n + 1).collections =~~= m.collections,
        release_n(acquire_n(m, i, n + 1), i, n + 1).increments == m.increments + n + 1,
        release_n(acquire_n(m, i, n + 1), i, n + 1).decrements == m.decrements + n + 1,
{
    lemma_acquire_n(m, i, n + 1);
    lemma_release_n(acquire_n(m, i, n + 1), i, n + 1);
    assert forall|j: int| 0 <= j < m.collections.len() implies release_n(
        acquire_n(m, i, n + 1),
        i,
        n + 1,
    ).collections[j] =~~= m.collections[j] by {};
}

} // verus!
