//! The untyped call-tree nodes that call resolution consumes, and the
//! classification of a call.

use vstd::prelude::*;

use crate::error::SourceMetadata;
use crate::ir::SwizzleComponent;
use crate::types::VectorSize;

verus! {

/// A reference to an already-lowered addressable expression.
#[derive(Clone, Copy, PartialEq, Eq, Structural, Debug)]
pub struct VariableReference {
    /// Handle of the address expression in the function's expression arena.
    pub expr: usize,
    /// Whether reading the node as a value goes through a load.
    pub load: bool,
    pub mutable: bool,
}

/// The shape of one untyped call-tree node.
#[derive(Clone, Copy, Debug)]
pub enum HirExprKind {
    /// An argument that earlier lowering already turned into a typed
    /// expression; used both ways, as a value and as a location.
    Value(usize),
    /// A named variable.
    Variable(VariableReference),
    /// A lane selection over another call-tree node.
    Swizzle { vector: usize, size: VectorSize, pattern: [SwizzleComponent; 4] },
}

/// One untyped call-tree node with its source location.
#[derive(Clone, Copy, Debug)]
pub struct HirExpr {
    pub kind: HirExprKind,
    pub meta: SourceMetadata,
}

/// What a call expression names: a type constructor (by the handle of the
/// target type) or a function (builtin or user-defined) by name.
pub enum FunctionCallKind {
    TypeConstructor(usize),
    Function(String),
}

/// The qualifier of a declared function parameter, deciding whether the
/// matching call argument is passed as a value or as a writable location.
#[derive(Clone, Copy, PartialEq, Eq, Structural, Debug)]
pub enum ParameterQualifier {
    In,
    Out,
    InOut,
    ConstIn,
}

impl ParameterQualifier {
    /// Whether an argument under this qualifier must be an addressable
    /// location (the callee may write through it).
    pub open spec fn spec_is_lhs(self) -> bool {
        match self {
            ParameterQualifier::Out => true,
            ParameterQualifier::InOut => true,
            _ => false,
        }
    }

    #[verifier::when_used_as_spec(spec_is_lhs)]
    pub fn is_lhs(self) -> (r: bool)
        ensures
            r == self.spec_is_lhs(),
    {
        match self {
            ParameterQualifier::Out => true,
            ParameterQualifier::InOut => true,
            _ => false,
        }
    }
}

} // verus!
