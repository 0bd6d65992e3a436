//! Safe ownership layer over a reference-counted symbol collection.
//!
//! A scanning engine hands out raw, possibly-null references to collections
//! of decoded symbols. This crate wraps such a reference in an owned
//! [`symbolset::SymbolSet`] value that takes one reference on construction
//! and on duplication and gives one back on release, and exposes the
//! collection's singly-linked list of symbol records as a restartable
//! forward iterator. The engine itself is modelled by the instrumented
//! stand-in in [`engine`], against which the reference-count discipline and
//! the iteration protocol are specified and proved.

pub mod engine;
pub mod symbol;
pub mod symbolset;
