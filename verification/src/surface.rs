//! The surface language: what the parser produces and the elaborator
//! consumes. A module is a flat list of named items: aliases and struct
//! (record format) definitions.
//!
//! Source spans and doc comments are kept in side tables by the caller;
//! they play no role in elaboration.

use vstd::prelude::*;

use crate::syntax::List;
use crate::syntax::StringId;
use crate::syntax::UIntStyle;

verus! {

/// Surface terms, with holes and unannotated binders still to be
/// elaborated.
#[derive(Debug, PartialEq)]
pub enum Surface {
    /// A name: a local binder, or a primitive.
    Name(StringId),
    /// A hole `?` or named hole `?a`: a fresh metavariable. Two holes
    /// with the same name are the same metavariable.
    Hole(Option<StringId>),
    /// A term annotated with a type.
    Ann(Box<Surface>, Box<Surface>),
    /// A let expression: name, optional type annotation, definition,
    /// body.
    Let(Option<StringId>, Option<Box<Surface>>, Box<Surface>, Box<Surface>),
    /// The type of types.
    Universe,
    /// A function type `fn (x : t) -> u`, or a plain arrow `t -> u` when
    /// the name is absent.
    FunType(Option<StringId>, Box<Surface>, Box<Surface>),
    /// A function literal `fn x => e`.
    FunLit(StringId, Box<Surface>),
    /// An application, by juxtaposition.
    App(Box<Surface>, Box<Surface>),
    /// A record type `{ f : t, .. }`.
    RecordType(List<(StringId, Surface)>),
    /// A record literal `{ f = e, .. }`.
    RecordLit(List<(StringId, Surface)>),
    /// A projection `e.f`.
    Proj(Box<Surface>, StringId),
    /// An array literal `[e, ..]`.
    ArrayLit(List<Surface>),
    /// An unsigned number literal with its printing style.
    NumberLit(u64, UIntStyle),
    /// A boolean literal.
    BoolLit(bool),
    /// A match on constants: scrutinee, number patterns with their
    /// bodies, and an optional default `_ => e`.
    Match(Box<Surface>, List<(u64, Surface)>, Option<Box<Surface>>),
}

/// A module: a sequence of items.
#[derive(Debug, PartialEq)]
pub struct Module {
    pub items: List<Item>,
}

/// A top-level item.
#[derive(Debug, PartialEq)]
pub enum Item {
    /// An alias definition: `name = term;`.
    Alias(Alias),
    /// A struct definition: a record format.
    Struct(StructType),
}

/// An alias definition.
#[derive(Debug, PartialEq)]
pub struct Alias {
    pub name: StringId,
    pub term: Surface,
}

/// A struct type definition: a record format read field by field.
#[derive(Debug, PartialEq)]
pub struct StructType {
    pub name: StringId,
    pub fields: List<TypeField>,
}

/// A field in a struct type definition.
#[derive(Debug, PartialEq)]
pub struct TypeField {
    pub name: StringId,
    pub term: Surface,
}

} // verus!
