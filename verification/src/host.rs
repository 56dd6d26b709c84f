//! The slice of the host compiler's analyzed item tree that extraction reads.
//!
//! After full analysis the host compiler can enumerate every top-level
//! declaration of the compiled unit, exposing for each its kind, name and
//! source span, and, for structured records, the ordered member list with
//! each member's name, span and declared type node.  These types hold exactly
//! that slice as plain values; the embedding program fills them in from the
//! host compiler's own representation.

use vstd::prelude::*;

verus! {

/// A byte-offset range as the host compiler reports it.
#[derive(Clone, Copy, Debug, PartialEq, Eq, Structural)]
pub struct HostSpan {
    pub lo: u32,
    pub hi: u32,
}

/// The form of a host type-reference node.  Extraction currently projects
/// every form to the placeholder type; the forms are kept apart so that real
/// projection can land one arm at a time.
#[derive(Clone, Copy, Debug, PartialEq, Eq, Structural)]
pub enum HostTyKind {
    /// A resolved path reference to a declared type.
    Path,
    /// A type-relative (associated) path reference.
    TypeRelative,
    /// Any other type form.
    Other,
}

/// A host type-reference node: its span and its form.
#[derive(Clone, Copy, Debug, PartialEq, Eq, Structural)]
pub struct HostTy {
    pub span: HostSpan,
    pub kind: HostTyKind,
}

/// One declared member of a structured record.
#[derive(Clone, Debug)]
pub struct HostMember {
    pub name: String,
    pub span: HostSpan,
    pub ty: HostTy,
}

/// The mathematical value of a `HostMember`.
#[verifier::ext_equal]
pub struct HostMemberV {
    pub name: Seq<char>,
    pub span: HostSpan,
    pub ty: HostTy,
}

impl View for HostMember {
    type V = HostMemberV;

    open spec fn view(&self) -> HostMemberV {
        HostMemberV { name: self.name@, span: self.span, ty: self.ty }
    }
}

/// The kind of a top-level declaration, with the payload extraction reads.
/// A record's member list covers struct-like, tuple-like and unit-like
/// forms: a unit-like record simply has no members.
#[derive(Clone, Debug)]
pub enum HostDeclKind {
    /// A structured-record declaration with its ordered members.
    Record { members: Vec<HostMember> },
    /// An interface declaration: visited, not yet projected.
    Interface,
    /// An implementation declaration: visited, not yet projected.
    Implementation,
    /// Every other top-level declaration kind.
    Other,
}

/// One top-level declaration as the host compiler reports it.
#[derive(Clone, Debug)]
pub struct HostDecl {
    pub name: String,
    pub span: HostSpan,
    pub kind: HostDeclKind,
}

/// The mathematical value of a `HostDeclKind`.
#[verifier::ext_equal]
pub enum HostDeclKindV {
    Record { members: Seq<HostMemberV> },
    Interface,
    Implementation,
    Other,
}

/// The mathematical value of a `HostDecl`.
#[verifier::ext_equal]
pub struct HostDeclV {
    pub name: Seq<char>,
    pub span: HostSpan,
    pub kind: HostDeclKindV,
}

impl View for HostDeclKind {
    type V = HostDeclKindV;

    open spec fn view(&self) -> HostDeclKindV {
        match self {
            HostDeclKind::Record { members } => HostDeclKindV::Record {
                members: members@.map_values(|m: HostMember| m@),
            },
            HostDeclKind::Interface => HostDeclKindV::Interface,
            HostDeclKind::Implementation => HostDeclKindV::Implementation,
            HostDeclKind::Other => HostDeclKindV::Other,
        }
    }
}

impl View for HostDecl {
    type V = HostDeclV;

    open spec fn view(&self) -> HostDeclV {
        HostDeclV { name: self.name@, span: self.span, kind: self.kind@ }
    }
}

} // verus!
