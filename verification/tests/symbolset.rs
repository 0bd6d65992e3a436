use symbolset::engine::{Engine, RawSymbol, RawSymbolSet};
use symbolset::symbol::Symbol;
use symbolset::symbolset::SymbolSet;

/// Engine with one collection holding the two greeting symbols, and the
/// handle wrapping that collection.
fn create_symbol_set(eng: &mut Engine) -> SymbolSet {
    let symbols = vec!["Hello World".to_owned(), "Hallo Welt".to_owned()];
    let raw = eng.add_collection(symbols);
    SymbolSet::from_raw(raw, eng).unwrap()
}

#[test]
fn test_size() {
    let mut eng = Engine::new();
    let set = create_symbol_set(&mut eng);
    assert_eq!(set.size(&eng), 2);
}

#[test]
fn test_first_symbol() {
    let mut eng = Engine::new();
    let set = create_symbol_set(&mut eng);
    assert_eq!(set.first_symbol(&eng).unwrap().data(&eng), "Hello World");
}

#[test]
fn test_iter() {
    let mut eng = Engine::new();
    let symbols = create_symbol_set(&mut eng);
    let mut iter = symbols.iter(&eng);
    assert_eq!(iter.next(&eng).unwrap().data(&eng), "Hello World");
    assert_eq!(iter.next(&eng).unwrap().data(&eng), "Hallo Welt");
    assert!(iter.next(&eng).is_none());
}

#[test]
fn test_first_symbol_unfiltered() {
    let mut eng = Engine::new();
    let set = create_symbol_set(&mut eng);
    assert_eq!(
        set.first_symbol_unfiltered(&eng).unwrap().data(&eng),
        "Hello World"
    );
}

#[test]
fn test_null_handle_absence() {
    let mut eng = Engine::new();
    assert!(SymbolSet::from_raw(RawSymbolSet::Null, &mut eng).is_none());
    assert_eq!(eng.increments(), 0);
    assert_eq!(eng.decrements(), 0);
}

#[test]
fn test_null_symbol_absence() {
    assert!(Symbol::from_raw(RawSymbol::Null).is_none());
}

#[test]
fn test_reference_count_balance() {
    let mut eng = Engine::new();
    let raw = eng.add_collection(vec!["QR".to_owned()]);
    let original = SymbolSet::from_raw(raw, &mut eng).unwrap();
    let first_copy = original.duplicate(&mut eng);
    let second_copy = original.duplicate(&mut eng);
    let third_copy = original.duplicate(&mut eng);
    assert_eq!(eng.collection_refs(0), 4);
    assert_eq!(eng.increments(), 4);
    original.release(&mut eng);
    first_copy.release(&mut eng);
    second_copy.release(&mut eng);
    third_copy.release(&mut eng);
    assert_eq!(eng.collection_refs(0), 0);
    assert_eq!(eng.increments(), 4);
    assert_eq!(eng.decrements(), 4);
}

#[test]
fn test_iter_restartable() {
    let mut eng = Engine::new();
    let set = create_symbol_set(&mut eng);
    let first_pass = set.iter(&eng).collect_data(&eng);
    let second_pass = set.iter(&eng).collect_data(&eng);
    assert_eq!(first_pass, vec!["Hello World", "Hallo Welt"]);
    assert_eq!(first_pass, second_pass);
}

#[test]
fn test_exhaustion_idempotent() {
    let mut eng = Engine::new();
    let set = create_symbol_set(&mut eng);
    let mut iter = set.iter(&eng);
    assert!(iter.next(&eng).is_some());
    assert!(iter.next(&eng).is_some());
    assert!(iter.next(&eng).is_none());
    assert!(iter.next(&eng).is_none());
    assert!(iter.next(&eng).is_none());
}

#[test]
fn test_size_matches_drain() {
    let mut eng = Engine::new();
    let set = create_symbol_set(&mut eng);
    let drained = set.iter(&eng).collect_data(&eng);
    assert_eq!(drained.len(), set.size(&eng) as usize);
}

#[test]
fn test_empty_collection() {
    let mut eng = Engine::new();
    let raw = eng.add_collection(Vec::new());
    let set = SymbolSet::from_raw(raw, &mut eng).unwrap();
    assert_eq!(set.size(&eng), 0);
    assert!(set.first_symbol(&eng).is_none());
    assert!(set.iter(&eng).next(&eng).is_none());
    assert_eq!(set.iter(&eng).collect_data(&eng).len(), 0);
}

#[test]
fn test_duplicate_survives_release() {
    let mut eng = Engine::new();
    let original = create_symbol_set(&mut eng);
    let copy = original.duplicate(&mut eng);
    original.release(&mut eng);
    assert_eq!(copy.size(&eng), 2);
    let drained = copy.iter(&eng).collect_data(&eng);
    assert_eq!(drained, vec!["Hello World", "Hallo Welt"]);
    copy.release(&mut eng);
}
