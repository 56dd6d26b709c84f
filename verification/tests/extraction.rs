use chalk_parse::ast::{Field, Identifier, Item, Program, Span, StructDefn, Ty};
use chalk_parse::error::ExtractError;
use chalk_parse::extract::{extract_analyzed, extract_program};
use chalk_parse::host::{HostDecl, HostDeclKind, HostMember, HostSpan, HostTy, HostTyKind};
use chalk_parse::intern::Interner;

fn host_ty(lo: u32, hi: u32) -> HostTy {
    HostTy { span: HostSpan { lo, hi }, kind: HostTyKind::Path }
}

fn member(name: &str, lo: u32, hi: u32, ty: HostTy) -> HostMember {
    HostMember { name: name.to_string(), span: HostSpan { lo, hi }, ty }
}

fn record(name: &str, lo: u32, hi: u32, members: Vec<HostMember>) -> HostDecl {
    HostDecl { name: name.to_string(), span: HostSpan { lo, hi }, kind: HostDeclKind::Record { members } }
}

fn sentinel_of(interner: &mut Interner) -> Item {
    let sym = interner.intern("UnknownType");
    Item::StructDefn(StructDefn {
        name: Identifier { sym, span: Span { lo: 0, hi: 0 } },
        fields: Vec::new(),
        parameter_kinds: Vec::new(),
        where_clauses: Vec::new(),
    })
}

#[test]
fn empty_input_yields_only_the_sentinel() {
    let mut interner = Interner::new();
    let prog = extract_program(&Vec::new(), &mut interner);
    assert_eq!(prog.items.len(), 1);
    let expected = sentinel_of(&mut interner);
    assert_eq!(prog.items[0], expected);
}

#[test]
fn record_round_trip() {
    // struct Foo { bar: SomeType, baz: SomeType }
    let decls = vec![record(
        "Foo",
        7,
        10,
        vec![
            member("bar", 13, 16, host_ty(18, 26)),
            member("baz", 28, 31, host_ty(33, 41)),
        ],
    )];
    let mut interner = Interner::new();
    let prog = extract_program(&decls, &mut interner);
    assert_eq!(prog.items.len(), 2);

    let unknown = interner.intern("UnknownType");
    let foo = interner.intern("Foo");
    let bar = interner.intern("bar");
    let baz = interner.intern("baz");
    let placeholder = Ty::Id {
        name: Identifier { sym: unknown, span: Span { lo: 0, hi: 0 } },
    };
    let expected = Item::StructDefn(StructDefn {
        name: Identifier { sym: foo, span: Span { lo: 7, hi: 10 } },
        fields: vec![
            Field { name: Identifier { sym: bar, span: Span { lo: 13, hi: 16 } }, ty: placeholder },
            Field { name: Identifier { sym: baz, span: Span { lo: 28, hi: 31 } }, ty: placeholder },
        ],
        parameter_kinds: Vec::new(),
        where_clauses: Vec::new(),
    });
    assert_eq!(prog.items[1], expected);

    // the sentinel still stands first
    let expected_sentinel = sentinel_of(&mut interner);
    assert_eq!(prog.items[0], expected_sentinel);
}

#[test]
fn unit_like_record_yields_empty_field_list() {
    let decls = vec![record("Unit", 7, 11, Vec::new())];
    let mut interner = Interner::new();
    let prog = extract_program(&decls, &mut interner);
    assert_eq!(prog.items.len(), 2);
    match &prog.items[1] {
        Item::StructDefn(defn) => {
            assert!(defn.fields.is_empty());
            assert!(defn.parameter_kinds.is_empty());
            assert!(defn.where_clauses.is_empty());
            let unit = interner.intern("Unit");
            assert_eq!(defn.name.sym, unit);
        }
    }
}

#[test]
fn tuple_like_record_keeps_member_order() {
    // struct Pair(SomeType, OtherType); members reported as 0 and 1
    let decls = vec![record(
        "Pair",
        7,
        11,
        vec![
            member("0", 13, 14, host_ty(13, 21)),
            member("1", 23, 24, host_ty(23, 32)),
        ],
    )];
    let mut interner = Interner::new();
    let prog = extract_program(&decls, &mut interner);
    match &prog.items[1] {
        Item::StructDefn(defn) => {
            assert_eq!(defn.fields.len(), 2);
            let zero = interner.intern("0");
            let one = interner.intern("1");
            assert_eq!(defn.fields[0].name.sym, zero);
            assert_eq!(defn.fields[1].name.sym, one);
        }
    }
}

#[test]
fn interface_only_input_yields_only_the_sentinel() {
    let decls = vec![HostDecl {
        name: "Clone".to_string(),
        span: HostSpan { lo: 0, hi: 11 },
        kind: HostDeclKind::Interface,
    }];
    let mut interner = Interner::new();
    let prog = extract_program(&decls, &mut interner);
    assert_eq!(prog.items.len(), 1);
}

#[test]
fn implementation_and_other_kinds_are_silently_absent() {
    let decls = vec![
        HostDecl {
            name: "impl0".to_string(),
            span: HostSpan { lo: 0, hi: 9 },
            kind: HostDeclKind::Implementation,
        },
        HostDecl {
            name: "main".to_string(),
            span: HostSpan { lo: 11, hi: 20 },
            kind: HostDeclKind::Other,
        },
        record("Kept", 22, 26, Vec::new()),
    ];
    let mut interner = Interner::new();
    let prog = extract_program(&decls, &mut interner);
    assert_eq!(prog.items.len(), 2);
    match &prog.items[1] {
        Item::StructDefn(defn) => {
            let kept = interner.intern("Kept");
            assert_eq!(defn.name.sym, kept);
        }
    }
}

#[test]
fn two_records_in_declaration_order() {
    let decls = vec![
        record("First", 7, 12, Vec::new()),
        record("Second", 30, 36, Vec::new()),
    ];
    let mut interner = Interner::new();
    let prog = extract_program(&decls, &mut interner);
    assert_eq!(prog.items.len(), 3);
    let first = interner.intern("First");
    let second = interner.intern("Second");
    match (&prog.items[1], &prog.items[2]) {
        (Item::StructDefn(a), Item::StructDefn(b)) => {
            assert_eq!(a.name.sym, first);
            assert_eq!(b.name.sym, second);
        }
    }
}

#[test]
fn rerun_on_same_input_is_structurally_equal() {
    let decls = vec![record(
        "Foo",
        7,
        10,
        vec![member("bar", 13, 16, host_ty(18, 26))],
    )];
    let mut interner = Interner::new();
    let first: Program = extract_program(&decls, &mut interner);
    let second: Program = extract_program(&decls, &mut interner);
    assert_eq!(first, second);
}

#[test]
fn a_reported_compilation_error_aborts_with_no_program() {
    let mut interner = Interner::new();
    let r = extract_analyzed(Err("expected one of `!` or `::`".to_string()), &mut interner);
    assert_eq!(r, Err(ExtractError::CompilationFailed));
}

#[test]
fn a_successful_analysis_extracts_its_program() {
    let decls = vec![record("Foo", 7, 10, Vec::new())];
    let mut direct_interner = Interner::new();
    let direct = extract_program(&decls, &mut direct_interner);
    let mut interner = Interner::new();
    let through_outcome = extract_analyzed(Ok(decls), &mut interner);
    assert_eq!(through_outcome, Ok(direct));
}

#[test]
fn produced_spans_stay_within_the_input() {
    let input_len: usize = 50;
    let decls = vec![record(
        "Foo",
        7,
        10,
        vec![member("bar", 13, 16, host_ty(18, 26))],
    )];
    let mut interner = Interner::new();
    let prog = extract_program(&decls, &mut interner);
    for item in &prog.items {
        match item {
            Item::StructDefn(defn) => {
                assert!(defn.name.span.lo <= defn.name.span.hi);
                assert!(defn.name.span.hi <= input_len);
                for field in &defn.fields {
                    assert!(field.name.span.lo <= field.name.span.hi);
                    assert!(field.name.span.hi <= input_len);
                }
            }
        }
    }
    // the sentinel's span is exactly {0, 0}
    match &prog.items[0] {
        Item::StructDefn(defn) => {
            assert_eq!(defn.name.span, Span { lo: 0, hi: 0 });
        }
    }
}

#[test]
fn placeholder_type_carries_a_zero_span() {
    let decls = vec![record(
        "Foo",
        7,
        10,
        vec![member("bar", 13, 16, HostTy {
            span: HostSpan { lo: 18, hi: 26 },
            kind: HostTyKind::TypeRelative,
        })],
    )];
    let mut interner = Interner::new();
    let prog = extract_program(&decls, &mut interner);
    match &prog.items[1] {
        Item::StructDefn(defn) => match defn.fields[0].ty {
            Ty::Id { name } => {
                let unknown = interner.intern("UnknownType");
                assert_eq!(name.sym, unknown);
                assert_eq!(name.span, Span { lo: 0, hi: 0 });
            }
        },
    }
}
