//! The extraction pipeline: a single pass over the host compiler's analyzed
//! item tree that projects each recognized declaration into a target item.
//!
//! The spec functions in this module state the whole pass mathematically:
//! what each span, identifier, field and item is, and how the interner table
//! grows, declaration by declaration.  The executable functions carry exact
//! contracts against those spec functions, so the produced program is pinned
//! down for every input.  Unsupported constructs never fail the pass: an
//! unsupported type form projects to the placeholder type, an unsupported
//! declaration kind yields no item at all.

use vstd::prelude::*;

use crate::ast::{
    Field, Identifier, Item, ItemV, Program, Span, StructDefn, StructDefnV, Symbol, Ty,
};
use crate::error::ExtractError;
use crate::host::{
    HostDecl, HostDeclKind, HostDeclKindV, HostDeclV, HostMember, HostMemberV, HostSpan, HostTy,
    HostTyKind,
};
use crate::intern::{
    extends, intern_table, lemma_extends_trans, lemma_find_props, lemma_find_stable,
    lemma_intern_extends, lemma_intern_self, spec_find, Interner, Table,
};

verus! {

/// The reserved name carried by the placeholder type and the sentinel item.
pub open spec fn unknown_type_name() -> Seq<char> {
    "UnknownType"@
}

/// The span carried by every placeholder: exactly `{0, 0}`.
pub open spec fn zero_span() -> Span {
    Span { lo: 0, hi: 0 }
}

/// Span conversion: a direct, lossless carry-over of the host compiler's
/// byte offsets, with no rounding and no unit change.
pub open spec fn spec_span_from(s: HostSpan) -> Span {
    Span { lo: s.lo as usize, hi: s.hi as usize }
}

/// The identifier canonicalized from `name` against `table`: the symbol that
/// interning hands back, with the span where the name was written.
pub open spec fn spec_identifier(table: Table, name: Seq<char>, sp: Span) -> Identifier {
    Identifier { sym: Symbol { index: spec_find(table, name) as usize }, span: sp }
}

/// The placeholder type against `table`: a reference named `UnknownType`
/// with a zero span.
pub open spec fn spec_unknown_ty(table: Table) -> Ty {
    Ty::Id { name: spec_identifier(table, unknown_type_name(), zero_span()) }
}

/// The sentinel item against `table`: a record named `UnknownType` with a
/// zero span, no fields, no parameters and no constraints.
pub open spec fn spec_sentinel(table: Table) -> ItemV {
    ItemV::StructDefn(StructDefnV {
        name: spec_identifier(table, unknown_type_name(), zero_span()),
        fields: Seq::empty(),
        parameter_kinds: Seq::empty(),
        where_clauses: Seq::empty(),
    })
}

/// Projecting one declared member: its name is interned first, then its
/// declared type is projected (today always to the placeholder, which
/// interns the reserved name).  Hands back the field and the table
/// afterwards.
pub open spec fn spec_field(table: Table, m: HostMemberV) -> (Field, Table) {
    let name = spec_identifier(table, m.name, spec_span_from(m.span));
    let t1 = intern_table(table, m.name);
    let ty = spec_unknown_ty(t1);
    let t2 = intern_table(t1, unknown_type_name());
    (Field { name, ty }, t2)
}

/// Projecting a member list in declaration order.
pub open spec fn spec_fields(table: Table, ms: Seq<HostMemberV>) -> (Seq<Field>, Table)
    decreases ms.len(),
{
    if ms.len() == 0 {
        (Seq::<Field>::empty(), table)
    } else {
        let (f, t1) = spec_field(table, ms[0]);
        let (rest, t2) = spec_fields(t1, ms.subrange(1, ms.len() as int));
        (seq![f] + rest, t2)
    }
}

/// The item built for one structured-record declaration: the members first,
/// then the record's own name, in the order the visitor interns them.
/// Parameter kinds and constraints are emitted empty: their extraction is
/// deferred.
pub open spec fn spec_record(table: Table, d: HostDeclV, members: Seq<HostMemberV>) -> (
    ItemV,
    Table,
) {
    let (fs, t1) = spec_fields(table, members);
    let name = spec_identifier(t1, d.name, spec_span_from(d.span));
    let t2 = intern_table(t1, d.name);
    (
        ItemV::StructDefn(
            StructDefnV {
                name,
                fields: fs,
                parameter_kinds: Seq::empty(),
                where_clauses: Seq::empty(),
            },
        ),
        t2,
    )
}

/// Visiting one declaration: a structured record yields exactly one item;
/// an interface, an implementation and every other kind yield none and are
/// silently passed over.
pub open spec fn spec_visit(table: Table, d: HostDeclV) -> (Seq<ItemV>, Table) {
    match d.kind {
        HostDeclKindV::Record { members } => {
            let (item, t1) = spec_record(table, d, members);
            (seq![item], t1)
        },
        _ => (Seq::<ItemV>::empty(), table),
    }
}

/// Visiting every declaration, in the order the host compiler reports them.
pub open spec fn spec_visit_all(table: Table, ds: Seq<HostDeclV>) -> (Seq<ItemV>, Table)
    decreases ds.len(),
{
    if ds.len() == 0 {
        (Seq::<ItemV>::empty(), table)
    } else {
        let (first, t1) = spec_visit(table, ds[0]);
        let (rest, t2) = spec_visit_all(t1, ds.subrange(1, ds.len() as int));
        (first + rest, t2)
    }
}

/// One whole extraction run: the sentinel item first, then every reported
/// declaration in order.
pub open spec fn spec_extract(table: Table, ds: Seq<HostDeclV>) -> (Seq<ItemV>, Table) {
    let sent = spec_sentinel(table);
    let t1 = intern_table(table, unknown_type_name());
    let (items, t2) = spec_visit_all(t1, ds);
    (seq![sent] + items, t2)
}

/// The mathematical value of a declaration list.
pub open spec fn decls_view(ds: Seq<HostDecl>) -> Seq<HostDeclV> {
    ds.map_values(|d: HostDecl| d@)
}

/// Projecting a member list one member further at the end.
pub proof fn lemma_fields_snoc(table: Table, ms: Seq<HostMemberV>, m: HostMemberV)
    ensures
        spec_fields(table, ms.push(m)).0 == spec_fields(table, ms).0.push(
            spec_field(spec_fields(table, ms).1, m).0,
        ),
        spec_fields(table, ms.push(m)).1 == spec_field(spec_fields(table, ms).1, m).1,
    decreases ms.len(),
{
    if ms.len() == 0 {
        reveal_with_fuel(spec_fields, 2);
        assert(ms.push(m)[0] == m);
        assert(ms.push(m).subrange(1, 1) =~= Seq::<HostMemberV>::empty());
        assert(spec_fields(table, ms.push(m)).0 =~= spec_fields(table, ms).0.push(
            spec_field(spec_fields(table, ms).1, m).0,
        ));
    } else {
        let tl = ms.subrange(1, ms.len() as int);
        let t1 = spec_field(table, ms[0]).1;
        lemma_fields_snoc(t1, tl, m);
        assert(ms.push(m)[0] == ms[0]);
        assert(ms.push(m).subrange(1, ms.push(m).len() as int) =~= tl.push(m));
        assert(spec_fields(table, ms.push(m)).0 =~= spec_fields(table, ms).0.push(
            spec_field(spec_fields(table, ms).1, m).0,
        ));
    }
}

/// Visiting one declaration further at the end.
pub proof fn lemma_visit_all_snoc(table: Table, ds: Seq<HostDeclV>, d: HostDeclV)
    ensures
        spec_visit_all(table, ds.push(d)).0 == spec_visit_all(table, ds).0 + spec_visit(
            spec_visit_all(table, ds).1,
            d,
        ).0,
        spec_visit_all(table, ds.push(d)).1 == spec_visit(spec_visit_all(table, ds).1, d).1,
    decreases ds.len(),
{
    if ds.len() == 0 {
        reveal_with_fuel(spec_visit_all, 2);
        assert(ds.push(d)[0] == d);
        assert(ds.push(d).subrange(1, 1) =~= Seq::<HostDeclV>::empty());
        assert(spec_visit_all(table, ds.push(d)).0 =~= spec_visit_all(table, ds).0 + spec_visit(
            spec_visit_all(table, ds).1,
            d,
        ).0);
    } else {
        let tl = ds.subrange(1, ds.len() as int);
        let t1 = spec_visit(table, ds[0]).1;
        lemma_visit_all_snoc(t1, tl, d);
        assert(ds.push(d)[0] == ds[0]);
        assert(ds.push(d).subrange(1, ds.push(d).len() as int) =~= tl.push(d));
        assert(spec_visit_all(table, ds.push(d)).0 =~= spec_visit_all(table, ds).0 + spec_visit(
            spec_visit_all(table, ds).1,
            d,
        ).0);
    }
}

/// The traversal-scoped, single-writer, append-only collection of produced
/// items.  It is drained exactly once at the end of a run, which leaves it
/// empty and fit for an unrelated later run.
pub struct Accumulator {
    items: Vec<Item>,
}

impl View for Accumulator {
    type V = Seq<ItemV>;

    closed spec fn view(&self) -> Seq<ItemV> {
        self.items@.map_values(|i: Item| i@)
    }
}

impl Accumulator {
    /// An empty accumulator, ready for one extraction run.
    pub fn new() -> (r: Accumulator)
        ensures
            r@ == Seq::<ItemV>::empty(),
    {
        Accumulator { items: Vec::new() }
    }

    /// Append one produced item at the end.
    pub fn push(&mut self, item: Item)
        ensures
            final(self)@ == old(self)@.push(item@),
    {
        let ghost itemv = item@;
        self.items.push(item);
        proof {
            assert(self@ =~~= old(self)@.push(itemv));
        }
    }

    /// Drain the accumulator: its contents move out as the finished program
    /// and the accumulator is left empty.
    pub fn drain(&mut self) -> (p: Program)
        ensures
            p@ == old(self)@,
            final(self)@ == Seq::<ItemV>::empty(),
    {
        let mut out: Vec<Item> = Vec::new();
        out.append(&mut self.items);
        proof {
            assert(out@ =~= old(self).items@);
            assert(self@ =~~= Seq::<ItemV>::empty());
        }
        Program { items: out }
    }
}

/// Span conversion from the host compiler's offsets to the target form.
pub fn span_from_host(s: HostSpan) -> (r: Span)
    ensures
        r == spec_span_from(s),
{
    Span { lo: s.lo as usize, hi: s.hi as usize }
}

/// Canonicalize a textual name and the span where it was written into an
/// identifier, interning the name.
pub fn identifier_from(name: &str, sp: HostSpan, interner: &mut Interner) -> (id: Identifier)
    ensures
        id == spec_identifier(old(interner)@, name@, spec_span_from(sp)),
        final(interner)@ == intern_table(old(interner)@, name@),
{
    let sym = interner.intern(name);
    Identifier { sym, span: span_from_host(sp) }
}

/// The placeholder type, filled in for every host type form that is not yet
/// projected.  It interns the reserved name, so it is indistinguishable from
/// a genuine reference to a type of that name.
pub fn unknown_type(interner: &mut Interner) -> (ty: Ty)
    ensures
        ty == spec_unknown_ty(old(interner)@),
        final(interner)@ == intern_table(old(interner)@, unknown_type_name()),
{
    let sym = interner.intern("UnknownType");
    Ty::Id { name: Identifier { sym, span: Span { lo: 0, hi: 0 } } }
}

/// The sentinel item seeded at the head of every produced program.
pub fn unknown_type_item(interner: &mut Interner) -> (item: Item)
    ensures
        item@ == spec_sentinel(old(interner)@),
        final(interner)@ == intern_table(old(interner)@, unknown_type_name()),
{
    let sym = interner.intern("UnknownType");
    let defn = StructDefn {
        name: Identifier { sym, span: Span { lo: 0, hi: 0 } },
        fields: Vec::new(),
        parameter_kinds: Vec::new(),
        where_clauses: Vec::new(),
    };
    proof {
        assert(ItemV::StructDefn(defn@) =~~= spec_sentinel(old(interner)@));
    }
    Item::StructDefn(defn)
}

/// The type projector: a host type-reference node to a target type
/// expression.  Every form currently falls through to the placeholder, so an
/// unsupported type never aborts extraction of the surrounding declaration.
pub fn project_ty(t: &HostTy, interner: &mut Interner) -> (ty: Ty)
    ensures
        ty == spec_unknown_ty(old(interner)@),
        final(interner)@ == intern_table(old(interner)@, unknown_type_name()),
{
    match t.kind {
        HostTyKind::Path => unknown_type(interner),
        HostTyKind::TypeRelative => unknown_type(interner),
        HostTyKind::Other => unknown_type(interner),
    }
}

/// Build one field from a declared member: its name, then its declared type.
pub fn field_from_member(m: &HostMember, interner: &mut Interner) -> (f: Field)
    ensures
        f == spec_field(old(interner)@, m@).0,
        final(interner)@ == spec_field(old(interner)@, m@).1,
{
    let name = identifier_from(m.name.as_str(), m.span, interner);
    let ty = project_ty(&m.ty, interner);
    Field { name, ty }
}

/// The item-extraction visitor, one top-level declaration at a time: a
/// structured record appends exactly one item to the accumulator; an
/// interface, an implementation and every other kind append nothing.
pub fn visit_decl(d: &HostDecl, interner: &mut Interner, acc: &mut Accumulator)
    ensures
        final(acc)@ == old(acc)@ + spec_visit(old(interner)@, d@).0,
        final(interner)@ == spec_visit(old(interner)@, d@).1,
{
    match &d.kind {
        HostDeclKind::Record { members } => {
            let ghost t0 = interner@;
            let ghost mv = members@.map_values(|m: HostMember| m@);
            let mut fields: Vec<Field> = Vec::new();
            let mut i: usize = 0;
            while i < members.len()
                invariant
                    i <= members.len(),
                    mv == members@.map_values(|m: HostMember| m@),
                    fields@ == spec_fields(t0, mv.take(i as int)).0,
                    interner@ == spec_fields(t0, mv.take(i as int)).1,
                decreases members.len() - i,
            {
                let f = field_from_member(&members[i], interner);
                fields.push(f);
                proof {
                    lemma_fields_snoc(t0, mv.take(i as int), mv[i as int]);
                    assert(mv.take(i as int + 1) =~= mv.take(i as int).push(mv[i as int]));
                }
                i += 1;
            }
            proof {
                assert(mv.take(members@.len() as int) =~= mv);
            }
            let name = identifier_from(d.name.as_str(), d.span, interner);
            let item = Item::StructDefn(
                StructDefn {
                    name,
                    fields,
                    parameter_kinds: Vec::new(),
                    where_clauses: Vec::new(),
                },
            );
            proof {
                assert(item@ =~~= spec_record(t0, d@, mv).0);
                assert(old(acc)@.push(item@) =~= old(acc)@ + spec_visit(t0, d@).0);
            }
            acc.push(item);
        },
        HostDeclKind::Interface => {
            proof {
                assert(old(acc)@ + spec_visit(old(interner)@, d@).0 =~= old(acc)@);
            }
        },
        HostDeclKind::Implementation => {
            proof {
                assert(old(acc)@ + spec_visit(old(interner)@, d@).0 =~= old(acc)@);
            }
        },
        HostDeclKind::Other => {
            proof {
                assert(old(acc)@ + spec_visit(old(interner)@, d@).0 =~= old(acc)@);
            }
        },
    }
}

/// The extraction orchestrator over an analyzed item tree: seed the sentinel
/// item, run the visitor across every reported declaration once, and drain
/// the accumulator into the finished program.
pub fn extract_program(decls: &Vec<HostDecl>, interner: &mut Interner) -> (prog: Program)
    ensures
        prog@ == spec_extract(old(interner)@, decls_view(decls@)).0,
        final(interner)@ == spec_extract(old(interner)@, decls_view(decls@)).1,
{
    let ghost t0 = interner@;
    let ghost dv = decls_view(decls@);
    let mut acc = Accumulator::new();
    let sent = unknown_type_item(interner);
    let ghost sentv = sent@;
    acc.push(sent);
    let ghost t1 = interner@;
    let mut i: usize = 0;
    while i < decls.len()
        invariant
            i <= decls.len(),
            dv == decls_view(decls@),
            sentv == spec_sentinel(t0),
            t1 == intern_table(t0, unknown_type_name()),
            acc@ == seq![sentv] + spec_visit_all(t1, dv.take(i as int)).0,
            interner@ == spec_visit_all(t1, dv.take(i as int)).1,
        decreases decls.len() - i,
    {
        visit_decl(&decls[i], interner, &mut acc);
        proof {
            lemma_visit_all_snoc(t1, dv.take(i as int), dv[i as int]);
            assert(dv.take(i as int + 1) =~= dv.take(i as int).push(dv[i as int]));
            assert(decls@[i as int]@ == dv[i as int]);
            assert(seq![sentv] + (spec_visit_all(t1, dv.take(i as int)).0 + spec_visit(
                spec_visit_all(t1, dv.take(i as int)).1,
                dv[i as int],
            ).0) =~= (seq![sentv] + spec_visit_all(t1, dv.take(i as int)).0) + spec_visit(
                spec_visit_all(t1, dv.take(i as int)).1,
                dv[i as int],
            ).0);
        }
        i += 1;
    }
    proof {
        assert(dv.take(decls@.len() as int) =~= dv);
    }
    acc.drain()
}

/// One run over the host compiler's outcome: a fully analyzed item tree
/// yields its extracted program; a reported compilation error — the second
/// fatal condition — aborts with no partial program and leaves the interner
/// as it was.
pub fn extract_analyzed(analyzed: Result<Vec<HostDecl>, String>, interner: &mut Interner) -> (r:
    Result<Program, ExtractError>)
    ensures
        analyzed matches Ok(decls) ==> r matches Ok(prog) && prog@ == spec_extract(
            old(interner)@,
            decls_view(decls@),
        ).0 && final(interner)@ == spec_extract(old(interner)@, decls_view(decls@)).1,
        analyzed matches Err(_) ==> r == Err::<Program, ExtractError>(
            ExtractError::CompilationFailed,
        ) && final(interner)@ == old(interner)@,
{
    match analyzed {
        Ok(decls) => Ok(extract_program(&decls, interner)),
        Err(_) => Err(ExtractError::CompilationFailed),
    }
}

/// Projecting one member only appends to the table.
pub proof fn lemma_field_extends(table: Table, m: HostMemberV)
    ensures
        extends(table, spec_field(table, m).1),
{
    let t1 = intern_table(table, m.name);
    lemma_intern_extends(table, m.name);
    lemma_intern_extends(t1, unknown_type_name());
    lemma_extends_trans(table, t1, spec_field(table, m).1);
}

/// Projecting a member list only appends to the table.
pub proof fn lemma_fields_extends(table: Table, ms: Seq<HostMemberV>)
    ensures
        extends(table, spec_fields(table, ms).1),
    decreases ms.len(),
{
    if ms.len() == 0 {
    } else {
        let t1 = spec_field(table, ms[0]).1;
        let tl = ms.subrange(1, ms.len() as int);
        lemma_field_extends(table, ms[0]);
        lemma_fields_extends(t1, tl);
        lemma_extends_trans(table, t1, spec_fields(t1, tl).1);
    }
}

/// Visiting one declaration only appends to the table.
pub proof fn lemma_visit_extends(table: Table, d: HostDeclV)
    ensures
        extends(table, spec_visit(table, d).1),
{
    match d.kind {
        HostDeclKindV::Record { members } => {
            let t1 = spec_fields(table, members).1;
            lemma_fields_extends(table, members);
            lemma_intern_extends(t1, d.name);
            lemma_extends_trans(table, t1, intern_table(t1, d.name));
        },
        _ => {},
    }
}

/// Visiting a declaration list only appends to the table.
pub proof fn lemma_visit_all_extends(table: Table, ds: Seq<HostDeclV>)
    ensures
        extends(table, spec_visit_all(table, ds).1),
    decreases ds.len(),
{
    if ds.len() == 0 {
    } else {
        let t1 = spec_visit(table, ds[0]).1;
        let tl = ds.subrange(1, ds.len() as int);
        lemma_visit_extends(table, ds[0]);
        lemma_visit_all_extends(t1, tl);
        lemma_extends_trans(table, t1, spec_visit_all(t1, tl).1);
    }
}

/// Sentinel invariant: whatever the input declares, the produced program has
/// at least one item, and its first item is the sentinel — a record carrying
/// the reserved name `UnknownType` in the final table, with a zero span, no
/// fields, no parameters and no constraints.
pub proof fn lemma_sentinel_invariant(table: Table, ds: Seq<HostDeclV>)
    requires
        table.len() <= usize::MAX,
    ensures
        spec_extract(table, ds).0.len() >= 1,
        spec_extract(table, ds).0[0] == spec_sentinel(table),
        ({
            let (items, tf) = spec_extract(table, ds);
            items[0] matches ItemV::StructDefn(s) && {
                &&& s.fields.len() == 0
                &&& s.parameter_kinds.len() == 0
                &&& s.where_clauses.len() == 0
                &&& s.name.span == zero_span()
                &&& s.name.sym.index < tf.len()
                &&& tf[s.name.sym.index as int] == unknown_type_name()
            }
        }),
{
    let t1 = intern_table(table, unknown_type_name());
    let tf = spec_extract(table, ds).1;
    lemma_find_props(table, unknown_type_name());
    lemma_intern_self(table, unknown_type_name());
    lemma_visit_all_extends(t1, ds);
    assert(t1[spec_find(table, unknown_type_name())] == unknown_type_name());
    assert(tf[spec_find(table, unknown_type_name())] == unknown_type_name());
}

/// A source span that lies within an input file of `len` bytes.
pub open spec fn host_span_in(s: HostSpan, len: nat) -> bool {
    s.lo <= s.hi && s.hi <= len
}

/// A produced span that lies within an input file of `len` bytes.
pub open spec fn span_in(s: Span, len: nat) -> bool {
    s.lo <= s.hi && s.hi <= len
}

/// Every span of a reported declaration lies within the input file.
pub open spec fn decl_spans_in(d: HostDeclV, len: nat) -> bool {
    &&& host_span_in(d.span, len)
    &&& (d.kind matches HostDeclKindV::Record { members } ==> forall|i: int|
        0 <= i < members.len() ==> host_span_in(#[trigger] members[i].span, len))
}

/// Every span of a produced field lies within the input file.
pub open spec fn field_spans_in(f: Field, len: nat) -> bool {
    &&& span_in(f.name.span, len)
    &&& (f.ty matches Ty::Id { name } ==> span_in(name.span, len))
}

/// Every span of a produced item lies within the input file.
pub open spec fn item_spans_in(it: ItemV, len: nat) -> bool {
    it matches ItemV::StructDefn(s) ==> {
        &&& span_in(s.name.span, len)
        &&& forall|i: int| 0 <= i < s.fields.len() ==> field_spans_in(#[trigger] s.fields[i], len)
    }
}

/// Span monotonicity for one member list.
proof fn lemma_fields_spans_in(table: Table, ms: Seq<HostMemberV>, len: nat)
    requires
        forall|i: int| 0 <= i < ms.len() ==> host_span_in(#[trigger] ms[i].span, len),
    ensures
        forall|i: int|
            0 <= i < spec_fields(table, ms).0.len() ==> field_spans_in(
                #[trigger] spec_fields(table, ms).0[i],
                len,
            ),
    decreases ms.len(),
{
    if ms.len() == 0 {
    } else {
        let (f, t1) = spec_field(table, ms[0]);
        let tl = ms.subrange(1, ms.len() as int);
        lemma_fields_spans_in(t1, tl, len);
        assert(field_spans_in(f, len));
        assert forall|i: int|
            0 <= i < spec_fields(table, ms).0.len() implies field_spans_in(
            #[trigger] spec_fields(table, ms).0[i],
            len,
        ) by {
            if i > 0 {
                assert(spec_fields(table, ms).0[i] == spec_fields(t1, tl).0[i - 1]);
            }
        }
    }
}

/// Span monotonicity: when every reported span lies within the input file's
/// byte length, then so does every identifier and field span of every
/// produced item, and the sentinel's span is exactly `{0, 0}`.
pub proof fn lemma_span_monotonic(table: Table, ds: Seq<HostDeclV>, len: nat)
    requires
        forall|i: int| 0 <= i < ds.len() ==> decl_spans_in(#[trigger] ds[i], len),
    ensures
        forall|i: int|
            0 <= i < spec_extract(table, ds).0.len() ==> item_spans_in(
                #[trigger] spec_extract(table, ds).0[i],
                len,
            ),
        spec_extract(table, ds).0[0] matches ItemV::StructDefn(s) && s.name.span == zero_span(),
{
    let t1 = intern_table(table, unknown_type_name());
    lemma_visit_all_spans_in(t1, ds, len);
    assert(item_spans_in(spec_sentinel(table), len));
    assert forall|i: int|
        0 <= i < spec_extract(table, ds).0.len() implies item_spans_in(
        #[trigger] spec_extract(table, ds).0[i],
        len,
    ) by {
        if i > 0 {
            assert(spec_extract(table, ds).0[i] == spec_visit_all(t1, ds).0[i - 1]);
        }
    }
}

/// Span monotonicity for a declaration list.
proof fn lemma_visit_all_spans_in(table: Table, ds: Seq<HostDeclV>, len: nat)
    requires
        forall|i: int| 0 <= i < ds.len() ==> decl_spans_in(#[trigger] ds[i], len),
    ensures
        forall|i: int|
            0 <= i < spec_visit_all(table, ds).0.len() ==> item_spans_in(
                #[trigger] spec_visit_all(table, ds).0[i],
                len,
            ),
    decreases ds.len(),
{
    if ds.len() == 0 {
    } else {
        let d = ds[0];
        let (first, t1) = spec_visit(table, d);
        let tl = ds.subrange(1, ds.len() as int);
        lemma_visit_all_spans_in(t1, tl, len);
        assert(decl_spans_in(d, len));
        match d.kind {
            HostDeclKindV::Record { members } => {
                lemma_fields_spans_in(table, members, len);
                assert(item_spans_in(spec_record(table, d, members).0, len));
            },
            _ => {},
        }
        assert forall|i: int|
            0 <= i < spec_visit_all(table, ds).0.len() implies item_spans_in(
            #[trigger] spec_visit_all(table, ds).0[i],
            len,
        ) by {
            if i >= first.len() {
                assert(spec_visit_all(table, ds).0[i] == spec_visit_all(t1, tl).0[
                    i - first.len()]);
            }
        }
    }
}

/// Whether a declaration is a structured record — the one kind that yields
/// an item today.
pub open spec fn is_record_decl(d: HostDeclV) -> bool {
    d.kind is Record
}

/// A unit-like record — one declared with no members — still yields its
/// record item, carrying an empty field sequence rather than being omitted.
pub proof fn lemma_unit_record_empty_fields(table: Table, d: HostDeclV)
    requires
        d.kind matches HostDeclKindV::Record { members } && members.len() == 0,
    ensures
        spec_visit(table, d).0.len() == 1,
        spec_visit(table, d).0[0] matches ItemV::StructDefn(s) && s.fields.len() == 0,
{
}

/// Visiting declarations none of which is a record yields nothing and leaves
/// the table untouched.
proof fn lemma_visit_all_no_records(table: Table, ds: Seq<HostDeclV>)
    requires
        forall|i: int| 0 <= i < ds.len() ==> !is_record_decl(#[trigger] ds[i]),
    ensures
        spec_visit_all(table, ds).0 == Seq::<ItemV>::empty(),
        spec_visit_all(table, ds).1 == table,
    decreases ds.len(),
{
    if ds.len() == 0 {
    } else {
        let tl = ds.subrange(1, ds.len() as int);
        assert(!is_record_decl(ds[0]));
        lemma_visit_all_no_records(table, tl);
        assert(spec_visit_all(table, ds).0 =~= Seq::<ItemV>::empty());
    }
}

/// Unsupported declaration kinds are silently absent: when no reported
/// declaration is a structured record, the produced program holds the
/// sentinel and nothing else.
pub proof fn lemma_unsupported_kinds_absent(table: Table, ds: Seq<HostDeclV>)
    requires
        forall|i: int| 0 <= i < ds.len() ==> !is_record_decl(#[trigger] ds[i]),
    ensures
        spec_extract(table, ds).0 == seq![spec_sentinel(table)],
        spec_extract(table, ds).1 == intern_table(table, unknown_type_name()),
{
    let t1 = intern_table(table, unknown_type_name());
    lemma_visit_all_no_records(t1, ds);
    assert(spec_extract(table, ds).0 =~= seq![spec_sentinel(table)]);
}

/// Replaying one member against any table already holding what its
/// projection interned: the same field comes out and the table is unchanged.
proof fn lemma_field_replay(t: Table, u: Table, m: HostMemberV)
    requires
        extends(spec_field(t, m).1, u),
    ensures
        spec_field(u, m).0 == spec_field(t, m).0,
        spec_field(u, m).1 == u,
{
    let t1 = intern_table(t, m.name);
    let t2 = intern_table(t1, unknown_type_name());
    lemma_intern_self(t, m.name);
    lemma_intern_extends(t1, unknown_type_name());
    lemma_extends_trans(t1, t2, u);
    lemma_find_stable(t1, u, m.name);
    lemma_intern_self(t1, unknown_type_name());
    lemma_find_stable(t2, u, unknown_type_name());
}

/// Replaying a member list.
proof fn lemma_fields_replay(t: Table, u: Table, ms: Seq<HostMemberV>)
    requires
        extends(spec_fields(t, ms).1, u),
    ensures
        spec_fields(u, ms).0 == spec_fields(t, ms).0,
        spec_fields(u, ms).1 == u,
    decreases ms.len(),
{
    if ms.len() == 0 {
    } else {
        let t1 = spec_field(t, ms[0]).1;
        let tl = ms.subrange(1, ms.len() as int);
        lemma_fields_extends(t1, tl);
        lemma_extends_trans(t1, spec_fields(t1, tl).1, u);
        lemma_field_replay(t, u, ms[0]);
        lemma_fields_replay(t1, u, tl);
        assert(spec_fields(u, ms).0 =~= spec_fields(t, ms).0);
    }
}

/// Replaying one declaration.
proof fn lemma_visit_replay(t: Table, u: Table, d: HostDeclV)
    requires
        extends(spec_visit(t, d).1, u),
    ensures
        spec_visit(u, d).0 == spec_visit(t, d).0,
        spec_visit(u, d).1 == u,
{
    match d.kind {
        HostDeclKindV::Record { members } => {
            let t1 = spec_fields(t, members).1;
            let t2 = intern_table(t1, d.name);
            lemma_intern_extends(t1, d.name);
            lemma_extends_trans(t1, t2, u);
            lemma_fields_replay(t, u, members);
            lemma_intern_self(t1, d.name);
            lemma_find_stable(t2, u, d.name);
            assert(spec_visit(u, d).0 =~~= spec_visit(t, d).0);
        },
        _ => {},
    }
}

/// Replaying a declaration list.
proof fn lemma_visit_all_replay(t: Table, u: Table, ds: Seq<HostDeclV>)
    requires
        extends(spec_visit_all(t, ds).1, u),
    ensures
        spec_visit_all(u, ds).0 == spec_visit_all(t, ds).0,
        spec_visit_all(u, ds).1 == u,
    decreases ds.len(),
{
    if ds.len() == 0 {
    } else {
        let t1 = spec_visit(t, ds[0]).1;
        let tl = ds.subrange(1, ds.len() as int);
        lemma_visit_all_extends(t1, tl);
        lemma_extends_trans(t1, spec_visit_all(t1, tl).1, u);
        lemma_visit_replay(t, u, ds[0]);
        lemma_visit_all_replay(t1, u, tl);
        assert(spec_visit_all(u, ds).0 =~= spec_visit_all(t, ds).0);
    }
}

/// Idempotent re-run: extracting the same declarations twice, the interner
/// carried from the first run into the second, yields structurally equal
/// item sequences, and the second run adds nothing to the table.
pub proof fn lemma_rerun_idempotent(table: Table, ds: Seq<HostDeclV>)
    ensures
        spec_extract(spec_extract(table, ds).1, ds).0 == spec_extract(table, ds).0,
        spec_extract(spec_extract(table, ds).1, ds).1 == spec_extract(table, ds).1,
{
    let t1 = intern_table(table, unknown_type_name());
    let tf = spec_visit_all(t1, ds).1;
    lemma_intern_self(table, unknown_type_name());
    lemma_visit_all_extends(t1, ds);
    lemma_find_stable(t1, tf, unknown_type_name());
    lemma_visit_all_replay(t1, tf, ds);
    assert(spec_extract(tf, ds).0 =~= spec_extract(table, ds).0);
}

} // verus!
