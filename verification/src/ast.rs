//! The target program representation handed to the downstream solver.
//!
//! Every node is a plain value: a byte-offset span, an interned symbol with
//! the span where it was written, a type expression, a record field, a record
//! declaration, and a program as an ordered sequence of items.

use vstd::prelude::*;

verus! {

/// A byte-offset range `{lo, hi}` into the original source text.
#[derive(Clone, Copy, Debug, PartialEq, Eq, Structural)]
pub struct Span {
    pub lo: usize,
    pub hi: usize,
}

/// An interned symbol: an index into the table of the `Interner` that
/// produced it.  Two identifiers with equal text intern to the same index,
/// so symbol equality is cheap textual equality.
#[derive(Clone, Copy, Debug, PartialEq, Eq, Hash, Structural)]
pub struct Symbol {
    pub index: usize,
}

/// An interned symbol paired with the span where it was written.  The symbol
/// alone carries identity; the span is kept only for diagnostics.
#[derive(Clone, Copy, Debug, PartialEq, Eq, Structural)]
pub struct Identifier {
    pub sym: Symbol,
    pub span: Span,
}

/// A type expression.  The only populated form is a named type reference;
/// every host type form that is not yet projected falls back to a reference
/// named `UnknownType` with a zero span.
#[derive(Clone, Copy, Debug, PartialEq, Eq, Structural)]
pub enum Ty {
    Id { name: Identifier },
}

/// One member of a structured-record declaration.
#[derive(Clone, Copy, Debug, PartialEq, Eq, Structural)]
pub struct Field {
    pub name: Identifier,
    pub ty: Ty,
}

/// A generic-parameter kind.  Parameter extraction is deferred: today every
/// record carries an empty parameter list, and this placeholder variant only
/// reserves the position in the model.
#[derive(Clone, Copy, Debug, PartialEq, Eq, Structural)]
pub enum ParameterKind {
    Unextracted,
}

/// A constraint on a declaration.  Constraint extraction is deferred in the
/// same way as `ParameterKind`.
#[derive(Clone, Copy, Debug, PartialEq, Eq, Structural)]
pub enum WhereClause {
    Unextracted,
}

/// A structured-record declaration: a name and its ordered members, with
/// generic parameters and constraints reserved but not yet extracted.
#[derive(Clone, Debug, PartialEq, Eq)]
pub struct StructDefn {
    pub name: Identifier,
    pub fields: Vec<Field>,
    pub parameter_kinds: Vec<ParameterKind>,
    pub where_clauses: Vec<WhereClause>,
}

/// The mathematical value of a `StructDefn`: the same data with sequences in
/// place of vectors.
#[verifier::ext_equal]
pub struct StructDefnV {
    pub name: Identifier,
    pub fields: Seq<Field>,
    pub parameter_kinds: Seq<ParameterKind>,
    pub where_clauses: Seq<WhereClause>,
}

impl View for StructDefn {
    type V = StructDefnV;

    open spec fn view(&self) -> StructDefnV {
        StructDefnV {
            name: self.name,
            fields: self.fields@,
            parameter_kinds: self.parameter_kinds@,
            where_clauses: self.where_clauses@,
        }
    }
}

/// A top-level item of the produced program.  Structured records are the only
/// populated kind; interface and implementation declarations are visited but
/// not yet projected.
#[derive(Clone, Debug, PartialEq, Eq)]
pub enum Item {
    StructDefn(StructDefn),
}

/// The mathematical value of an `Item`.
#[verifier::ext_equal]
pub enum ItemV {
    StructDefn(StructDefnV),
}

impl View for Item {
    type V = ItemV;

    open spec fn view(&self) -> ItemV {
        match self {
            Item::StructDefn(d) => ItemV::StructDefn(d@),
        }
    }
}

/// The finished output of one extraction run: items in traversal order, with
/// the sentinel placeholder record always first.
#[derive(Clone, Debug, PartialEq, Eq)]
pub struct Program {
    pub items: Vec<Item>,
}

impl View for Program {
    type V = Seq<ItemV>;

    open spec fn view(&self) -> Seq<ItemV> {
        self.items@.map_values(|i: Item| i@)
    }
}

} // verus!
