//! Diagnostics: severity, message kinds, labels pointing into a source
//! file, and constructors for the diagnostics the toolchain reports.
//!
//! Message text is represented by `MessageCode`, together with the name
//! the message mentions, where it mentions one; rendering the codes to
//! prose is left to the caller.

use vstd::prelude::*;

use crate::syntax::List;
use crate::syntax::StringId;

verus! {

/// How severe a diagnostic is.
#[derive(Debug, Copy, Clone, PartialEq, Eq, Structural)]
pub enum Severity {
    /// An internal invariant was broken; downstream consumers must
    /// refuse the module.
    Bug,
    /// The input is wrong.
    Error,
    Warning,
    Help,
}

/// What a diagnostic says.
#[derive(Debug, Copy, Clone, PartialEq, Eq, Structural)]
pub enum MessageCode {
    /// The input could not be parsed.
    ParseError,
    /// An expression's type does not match the type expected of it.
    TypeMismatch,
    /// A name is not bound.
    UnboundName,
    /// A metavariable was left unsolved at the end of elaboration.
    AmbiguousMeta,
    /// An integer literal does not fit the expected type.
    IntegerOutOfBounds,
    /// A non-format value was used where a format was expected.
    NonFormatTypeAsHostType,
    /// An integer type was left unconstrained.
    UnconstrainedInt,
    /// A function elimination was applied to too many arguments.
    OversaturatedFunElim,
    /// An elimination was applied to a value of the wrong shape.
    UnexpectedElim,
    /// An expression stood where an integer was needed.
    ExpectedInteger,
    /// An expression stood where a type was needed.
    ExpectedType,
    /// An item was referenced before it was bound.
    UnboundItem,
    /// An item name was defined more than once.
    ItemNameReused,
    /// A record's labels are not distinct.
    DuplicateLabel,
    /// A match's constant patterns are not distinct.
    DuplicatePattern,
    /// A literal whose type cannot be inferred stood in inference
    /// position.
    AmbiguousLiteral,
}

/// A source location a diagnostic points at.
#[derive(Debug, Copy, Clone, PartialEq, Eq, Structural)]
pub struct Label {
    /// Whether this is the diagnostic's primary label.
    pub primary: bool,
    pub file_id: usize,
    /// Byte range: start and end offsets.
    pub start: usize,
    pub end: usize,
}

/// A diagnostic: severity, message, the name the message mentions (if
/// any), and one primary label plus zero or more secondary labels.
#[derive(Debug, PartialEq)]
pub struct Diagnostic {
    pub severity: Severity,
    pub code: MessageCode,
    /// The item or variable name the message mentions, if any.
    pub name: Option<StringId>,
    pub labels: List<Label>,
}

/// A diagnostic with a single primary label.
pub open spec fn one_label_spec(
    severity: Severity,
    code: MessageCode,
    name: Option<StringId>,
    file_id: usize,
    start: usize,
    end: usize,
) -> Diagnostic {
    Diagnostic {
        severity,
        code,
        name,
        labels: List::Cons(
            Box::new(Label { primary: true, file_id, start, end }),
            Box::new(List::Nil),
        ),
    }
}

/// A diagnostic with a single primary label.
pub fn one_label(
    severity: Severity,
    code: MessageCode,
    name: Option<StringId>,
    file_id: usize,
    start: usize,
    end: usize,
) -> (r: Diagnostic)
    ensures
        r == one_label_spec(severity, code, name, file_id, start, end),
{
    Diagnostic {
        severity,
        code,
        name,
        labels: List::Cons(
            Box::new(Label { primary: true, file_id, start, end }),
            Box::new(List::Nil),
        ),
    }
}

/// A non-format type was used where a host type was needed.
pub fn non_format_type_as_host_type(severity: Severity, file_id: usize, start: usize, end: usize)
    -> (r: Diagnostic)
    ensures
        r == one_label_spec(severity, MessageCode::NonFormatTypeAsHostType, None, file_id, start, end),
{
    one_label(severity, MessageCode::NonFormatTypeAsHostType, None, file_id, start, end)
}

/// An unconstrained integer type cannot be compiled.
pub fn unconstrained_int(file_id: usize, start: usize, end: usize) -> (r: Diagnostic)
    ensures
        r == one_label_spec(Severity::Error, MessageCode::UnconstrainedInt, None, file_id, start, end),
{
    one_label(Severity::Error, MessageCode::UnconstrainedInt, None, file_id, start, end)
}

/// An item name was defined more than once: a primary label at the
/// redefinition and a secondary label at the original item.
pub fn item_name_reused(
    file_id: usize,
    name: StringId,
    found_start: usize,
    found_end: usize,
    original_start: usize,
    original_end: usize,
) -> (r: Diagnostic)
    ensures
        r == (Diagnostic {
            severity: Severity::Bug,
            code: MessageCode::ItemNameReused,
            name: Some(name),
            labels: List::Cons(
                Box::new(Label { primary: true, file_id, start: found_start, end: found_end }),
                Box::new(
                    List::Cons(
                        Box::new(
                            Label {
                                primary: false,
                                file_id,
                                start: original_start,
                                end: original_end,
                            },
                        ),
                        Box::new(List::Nil),
                    ),
                ),
            ),
        }),
{
    Diagnostic {
        severity: Severity::Bug,
        code: MessageCode::ItemNameReused,
        name: Some(name),
        labels: List::Cons(
            Box::new(Label { primary: true, file_id, start: found_start, end: found_end }),
            Box::new(
                List::Cons(
                    Box::new(
                        Label { primary: false, file_id, start: original_start, end: original_end },
                    ),
                    Box::new(List::Nil),
                ),
            ),
        ),
    }
}

/// A function elimination had too many arguments.
pub fn oversaturated_fun_elim(file_id: usize, start: usize, end: usize) -> (r: Diagnostic)
    ensures
        r == one_label_spec(Severity::Bug, MessageCode::OversaturatedFunElim, None, file_id, start, end),
{
    one_label(Severity::Bug, MessageCode::OversaturatedFunElim, None, file_id, start, end)
}

/// An elimination was applied to a value of the wrong shape.
pub fn unexpected_elim(file_id: usize, start: usize, end: usize) -> (r: Diagnostic)
    ensures
        r == one_label_spec(Severity::Bug, MessageCode::UnexpectedElim, None, file_id, start, end),
{
    one_label(Severity::Bug, MessageCode::UnexpectedElim, None, file_id, start, end)
}

/// An integer did not fit its type.
pub fn integer_out_of_bounds(file_id: usize, start: usize, end: usize) -> (r: Diagnostic)
    ensures
        r == one_label_spec(Severity::Bug, MessageCode::IntegerOutOfBounds, None, file_id, start, end),
{
    one_label(Severity::Bug, MessageCode::IntegerOutOfBounds, None, file_id, start, end)
}

/// An expression stood where an integer was needed.
pub fn expected_integer(file_id: usize, start: usize, end: usize) -> (r: Diagnostic)
    ensures
        r == one_label_spec(Severity::Bug, MessageCode::ExpectedInteger, None, file_id, start, end),
{
    one_label(Severity::Bug, MessageCode::ExpectedInteger, None, file_id, start, end)
}

/// An expression stood where a type was needed.
pub fn expected_type(file_id: usize, start: usize, end: usize) -> (r: Diagnostic)
    ensures
        r == one_label_spec(Severity::Bug, MessageCode::ExpectedType, None, file_id, start, end),
{
    one_label(Severity::Bug, MessageCode::ExpectedType, None, file_id, start, end)
}

/// An item was referenced before it was bound.
pub fn unbound_item(file_id: usize, name: StringId, start: usize, end: usize) -> (r: Diagnostic)
    ensures
        r == one_label_spec(Severity::Bug, MessageCode::UnboundItem, Some(name), file_id, start, end),
{
    one_label(Severity::Bug, MessageCode::UnboundItem, Some(name), file_id, start, end)
}

} // verus!
