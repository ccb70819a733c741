//! Errors of type-annotation compilation.

use vstd::prelude::*;
use vstd::string::StringExecFns;
use crate::span::Span;

verus! {

/// What can go wrong while a type annotation is compiled.
#[derive(Clone, Debug, PartialEq, Eq)]
pub enum TypesError {
    /// The cache slot of an annotation site was visited a second time.
    TypeAlreadySet,
    /// The identifier carries no binding.
    UnresolvedIdentifier,
    /// The identifier is bound to a local variable.
    LocalIdentifier,
    /// The module variable of this name is read before it is assigned.
    ModuleVariableNotSet(String),
    /// The cache slot of an annotation site is empty when its type is consumed.
    TypePayloadNotSet,
    /// `x[a]` where `x` is not the `list` constructor.
    TypeIndexOnNonList,
    /// `x[a, b]` where `x` is not the `dict` constructor.
    TypeIndexOnNonDict,
    /// `x[a, ...]` where `x` is not the `tuple` constructor.
    TypeIndexEllipsisOnNonTuple,
    /// A string value stands where a type is expected.
    StringConstantAsType,
}

impl TypesError {
    /// Internal errors signal a defect in the driver of the compiler, not a
    /// malformed program.
    pub open spec fn spec_is_internal(&self) -> bool {
        *self is TypeAlreadySet || *self is TypePayloadNotSet
    }

    /// Whether this error signals a defect in the driver of the compiler.
    #[verifier::when_used_as_spec(spec_is_internal)]
    pub fn is_internal(&self) -> (r: bool)
        ensures
            r == self.spec_is_internal(),
    {
        match self {
            TypesError::TypeAlreadySet => true,
            TypesError::TypePayloadNotSet => true,
            _ => false,
        }
    }

    /// The text of the diagnostic.
    pub open spec fn spec_message(self) -> Seq<char> {
        match self {
            TypesError::TypeAlreadySet => "Type already initialized (internal error)"@,
            TypesError::UnresolvedIdentifier => "Identifier is not resolved (internal error)"@,
            TypesError::LocalIdentifier =>
                "Identifier is resolve as local variable (internal error)"@,
            TypesError::ModuleVariableNotSet(name) =>
                "Module variable is not set: `"@ + name@ + "`"@,
            TypesError::TypePayloadNotSet => "Type payload not set (internal error)"@,
            TypesError::TypeIndexOnNonList =>
                "[] can only be applied to list function in type expression"@,
            TypesError::TypeIndexOnNonDict =>
                "[,] can only be applied to dict function in type expression"@,
            TypesError::TypeIndexEllipsisOnNonTuple =>
                "[,...] can only be applied to tuple function in type expression"@,
            TypesError::StringConstantAsType => "String constants cannot be used as types"@,
        }
    }

    /// The text of the diagnostic.
    pub fn message(&self) -> (r: String)
        ensures
            r@ == self.spec_message(),
    {
        match self {
            TypesError::TypeAlreadySet => String::from_str(
                "Type already initialized (internal error)",
            ),
            TypesError::UnresolvedIdentifier => String::from_str(
                "Identifier is not resolved (internal error)",
            ),
            TypesError::LocalIdentifier => String::from_str(
                "Identifier is resolve as local variable (internal error)",
            ),
            TypesError::ModuleVariableNotSet(name) => {
                let mut text = String::from_str("Module variable is not set: `");
                text.append(name.as_str());
                text.append("`");
                text
            },
            TypesError::TypePayloadNotSet => String::from_str(
                "Type payload not set (internal error)",
            ),
            TypesError::TypeIndexOnNonList => String::from_str(
                "[] can only be applied to list function in type expression",
            ),
            TypesError::TypeIndexOnNonDict => String::from_str(
                "[,] can only be applied to dict function in type expression",
            ),
            TypesError::TypeIndexEllipsisOnNonTuple => String::from_str(
                "[,...] can only be applied to tuple function in type expression",
            ),
            TypesError::StringConstantAsType => String::from_str(
                "String constants cannot be used as types",
            ),
        }
    }
}

/// A failed operation on a runtime value.
#[derive(Clone, Debug, PartialEq, Eq)]
pub enum ValueError {
    /// The value has no attribute of this name.
    NoAttribute(String),
    /// The value cannot be indexed in this way.
    IndexNotSupported,
    /// The value does not denote a type.
    NotAType,
}

impl ValueError {
    /// The text of the diagnostic.
    pub open spec fn spec_message(self) -> Seq<char> {
        match self {
            ValueError::NoAttribute(name) => "Object has no attribute `"@ + name@ + "`"@,
            ValueError::IndexNotSupported => "Value cannot be indexed in a type expression"@,
            ValueError::NotAType => "Value is not a type"@,
        }
    }

    /// The text of the diagnostic.
    pub fn message(&self) -> (r: String)
        ensures
            r@ == self.spec_message(),
    {
        match self {
            ValueError::NoAttribute(name) => {
                let mut text = String::from_str("Object has no attribute `");
                text.append(name.as_str());
                text.append("`");
                text
            },
            ValueError::IndexNotSupported => String::from_str(
                "Value cannot be indexed in a type expression",
            ),
            ValueError::NotAType => String::from_str("Value is not a type"),
        }
    }
}

/// The cause of a compile error.
#[derive(Clone, Debug, PartialEq, Eq)]
pub enum ErrorKind {
    /// Raised by the compiler of type annotations itself.
    Types(TypesError),
    /// Raised by an operation on a value that the annotation names.
    Value(ValueError),
}

/// A compile error with the place in the source that it is about.
#[derive(Clone, Debug, PartialEq, Eq)]
pub struct CompileError {
    pub kind: ErrorKind,
    pub span: Span,
}

impl CompileError {
    /// The error `error` at `span`.
    pub open spec fn types(error: TypesError, span: Span) -> CompileError {
        CompileError { kind: ErrorKind::Types(error), span }
    }

    /// The failed value operation `error` at `span`.
    pub open spec fn value(error: ValueError, span: Span) -> CompileError {
        CompileError { kind: ErrorKind::Value(error), span }
    }

    /// An error of the compiler of type annotations at `span`.
    pub fn new_types(error: TypesError, span: Span) -> (r: CompileError)
        ensures
            r == CompileError::types(error, span),
    {
        CompileError { kind: ErrorKind::Types(error), span }
    }

    /// An error of a value operation at `span`.
    pub fn new_value(error: ValueError, span: Span) -> (r: CompileError)
        ensures
            r == CompileError::value(error, span),
    {
        CompileError { kind: ErrorKind::Value(error), span }
    }

    /// The text of the diagnostic, without the place.
    pub open spec fn spec_message(self) -> Seq<char> {
        match self.kind {
            ErrorKind::Types(e) => e.spec_message(),
            ErrorKind::Value(e) => e.spec_message(),
        }
    }

    /// The text of the diagnostic, without the place.
    pub fn message(&self) -> (r: String)
        ensures
            r@ == self.spec_message(),
    {
        match &self.kind {
            ErrorKind::Types(e) => e.message(),
            ErrorKind::Value(e) => e.message(),
        }
    }

    /// Whether the error signals a defect in the driver of the compiler
    /// rather than a malformed program.
    pub open spec fn spec_is_internal(&self) -> bool {
        self.kind matches ErrorKind::Types(e) && e.is_internal()
    }

    /// Whether the error signals a defect in the driver of the compiler.
    #[verifier::when_used_as_spec(spec_is_internal)]
    pub fn is_internal(&self) -> (r: bool)
        ensures
            r == self.spec_is_internal(),
    {
        match &self.kind {
            ErrorKind::Types(e) => e.is_internal(),
            ErrorKind::Value(_) => false,
        }
    }
}

} // verus!
