//! Source locations and the semantic errors that call resolution reports.

use vstd::prelude::*;

verus! {

/// The span of source text a diagnostic points at.
#[derive(Clone, Copy, PartialEq, Eq, Structural, Debug)]
pub struct SourceMetadata {
    pub start: usize,
    pub end: usize,
}

/// Every failure of call resolution.  Each variant carries the location of
/// the offending call; all are terminal for the current compilation.
#[derive(Debug)]
pub enum ErrorKind {
    /// A constructor, builtin or user function was called with the wrong
    /// number of arguments.
    WrongFunctionArgs { name: String, expected: usize, got: usize, meta: SourceMetadata },
    /// A single-argument type constructor whose target shape admits no cast.
    BadCast { meta: SourceMetadata },
    /// A texture operation on an expression with no registered sampler
    /// pairing; `name` is the builtin that was called.
    BadSamplerCall { name: String, meta: SourceMetadata },
    /// A call to a name with no registered declaration, or one where no
    /// candidate overload accepts the argument types.
    UnknownFunction { name: String, meta: SourceMetadata },
    /// More than one non-exact overload of `name` accepts the arguments.
    AmbiguousFunction { name: String, meta: SourceMetadata },
    /// A full definition was given for an overload that already has one.
    FunctionAlreadyDefined { meta: SourceMetadata },
    /// A prototype was repeated for an already-declared overload.
    PrototypeAlreadyDefined { meta: SourceMetadata },
    /// Two operands of mutually incompatible scalar kinds where an implicit
    /// conversion between them is required.
    IncompatibleOperands { meta: SourceMetadata },
    /// The type of an expression is not on record where a resolution
    /// decision needs it.
    TypeResolutionFailed { meta: SourceMetadata },
    /// An untyped call-tree node that no lowering rule accepts, such as a
    /// lane selection applied to a non-vector.
    InvalidHir { meta: SourceMetadata },
}

} // verus!
