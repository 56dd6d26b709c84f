use chalk_parse::intern::Interner;

#[test]
fn same_text_interns_to_the_same_symbol() {
    let mut interner = Interner::new();
    let a = interner.intern("Foo");
    let b = interner.intern("Foo");
    assert_eq!(a, b);
}

#[test]
fn distinct_text_interns_to_distinct_symbols() {
    let mut interner = Interner::new();
    let a = interner.intern("Foo");
    let b = interner.intern("Bar");
    assert_ne!(a, b);
}

#[test]
fn a_symbol_stays_valid_as_the_table_grows() {
    let mut interner = Interner::new();
    let a = interner.intern("alpha");
    let _ = interner.intern("beta");
    let _ = interner.intern("gamma");
    let again = interner.intern("alpha");
    assert_eq!(a, again);
}

#[test]
fn empty_and_spaced_names_are_distinct() {
    let mut interner = Interner::new();
    let empty = interner.intern("");
    let space = interner.intern(" ");
    assert_ne!(empty, space);
    assert_eq!(empty, interner.intern(""));
}
