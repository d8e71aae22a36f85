//! The typed intermediate representation: expressions, statements,
//! functions, entry points and the module that owns them.
//!
//! Every cross-reference is a handle: an index into the owning arena, a
//! plain `Vec` that is only ever appended to, so handles stay valid once
//! issued.

use vstd::prelude::*;

use crate::types::{Binding, ImageDimension, ScalarKind, StructMember, Type, TypeInner, VectorSize};

verus! {

/// One source lane of a swizzle pattern.
#[derive(Clone, Copy, PartialEq, Eq, Structural, Debug)]
pub enum SwizzleComponent {
    X,
    Y,
    Z,
    W,
}

/// The identity swizzle pattern: lane `i` reads source lane `i`.
pub open spec fn spec_identity_pattern() -> [SwizzleComponent; 4] {
    [SwizzleComponent::X, SwizzleComponent::Y, SwizzleComponent::Z, SwizzleComponent::W]
}

#[verifier::when_used_as_spec(spec_identity_pattern)]
pub fn identity_pattern() -> (r: [SwizzleComponent; 4])
    ensures
        r == spec_identity_pattern(),
{
    [SwizzleComponent::X, SwizzleComponent::Y, SwizzleComponent::Z, SwizzleComponent::W]
}

/// A pointwise mathematical operation of the IR.
#[derive(Clone, Copy, PartialEq, Eq, Structural, Debug)]
pub enum MathFunction {
    Abs,
    Min,
    Max,
    Clamp,
    Cos,
    Cosh,
    Sin,
    Sinh,
    Tan,
    Tanh,
    Acos,
    Asin,
    Atan,
    Atan2,
    Ceil,
    Floor,
    Round,
    Fract,
    Trunc,
    Modf,
    Frexp,
    Ldexp,
    Exp,
    Exp2,
    Log,
    Log2,
    Pow,
    Dot,
    Outer,
    Cross,
    Distance,
    Length,
    Normalize,
    FaceForward,
    Reflect,
    Refract,
    Sign,
    Fma,
    Mix,
    Step,
    SmoothStep,
    Sqrt,
    InverseSqrt,
    Inverse,
    Transpose,
    Determinant,
    CountOneBits,
    ReverseBits,
}

/// A binary operator of the IR; call resolution emits only comparisons and
/// the modulo operation.
#[derive(Clone, Copy, PartialEq, Eq, Structural, Debug)]
pub enum BinaryOperator {
    Equal,
    NotEqual,
    Less,
    LessEqual,
    Greater,
    GreaterEqual,
    Modulo,
}

/// A relational test over a whole value.
#[derive(Clone, Copy, PartialEq, Eq, Structural, Debug)]
pub enum RelationalFunction {
    All,
    Any,
    IsNan,
    IsInf,
}

/// How an image-sample operation selects its mip level.
#[derive(Clone, Copy, PartialEq, Eq, Structural, Debug)]
pub enum SampleLevel {
    Auto,
    Exact(usize),
    Bias(usize),
}

/// An image metadata query.
#[derive(Clone, Copy, PartialEq, Eq, Structural, Debug)]
pub enum ImageQuery {
    Size { level: Option<usize> },
}

/// One typed IR expression.  Handles index the expression arena of the
/// function being lowered.
pub enum Expression {
    /// A fixed-index element access (a matrix column, a vector lane).
    AccessIndex { base: usize, index: u32 },
    /// A reference to one of the function's own parameters.
    FunctionArgument(u32),
    /// The address of a module-level variable.
    GlobalVariable(usize),
    /// The address of a function-local variable.
    LocalVariable(usize),
    /// A read through a pointer.
    Load { pointer: usize },
    /// A scalar repeated across every lane of a vector.
    Splat { size: VectorSize, value: usize },
    /// A lane permutation of a vector.
    Swizzle { size: VectorSize, vector: usize, pattern: [SwizzleComponent; 4] },
    /// A value built positionally from components.
    Compose { ty: usize, components: Vec<usize> },
    /// A scalar kind and width conversion.
    As { expr: usize, kind: ScalarKind, convert: Option<u8> },
    /// A combined image-sample operation.
    ImageSample {
        image: usize,
        sampler: usize,
        coordinate: usize,
        array_index: Option<usize>,
        offset: Option<usize>,
        level: SampleLevel,
        depth_ref: Option<usize>,
    },
    /// A direct texel load with an explicit index.
    ImageLoad { image: usize, coordinate: usize, array_index: Option<usize>, index: Option<usize> },
    /// An image metadata query.
    ImageQuery { image: usize, query: ImageQuery },
    /// A pointwise mathematical operation.
    Math { fun: MathFunction, arg: usize, arg1: Option<usize>, arg2: Option<usize> },
    /// A binary operation.
    Binary { op: BinaryOperator, left: usize, right: usize },
    /// A componentwise choice between two values.
    Select { condition: usize, accept: usize, reject: usize },
    /// A relational test.
    Relational { fun: RelationalFunction, argument: usize },
    /// The result value of a function call statement.
    Call(usize),
}

/// One case of a switch statement.
pub struct SwitchCase {
    pub value: i32,
    pub body: Vec<Statement>,
    pub fall_through: bool,
}

/// One IR statement.  Nested bodies own their statements directly.
pub enum Statement {
    /// Marks the expression-arena range `[start, end)` as evaluated here.
    Emit { start: usize, end: usize },
    Block(Vec<Statement>),
    If { condition: usize, accept: Vec<Statement>, reject: Vec<Statement> },
    Switch { selector: usize, cases: Vec<SwitchCase>, default: Vec<Statement> },
    Loop { body: Vec<Statement>, continuing: Vec<Statement> },
    Store { pointer: usize, value: usize },
    Call { function: usize, arguments: Vec<usize>, result: Option<usize> },
    Return { value: Option<usize> },
}

/// A declared parameter of an IR function.
pub struct FunctionArgument {
    pub name: Option<String>,
    pub ty: usize,
    pub binding: Option<Binding>,
}

/// The result type of a non-void IR function.
#[derive(Clone, Copy, PartialEq, Eq, Structural, Debug)]
pub struct FunctionResult {
    pub ty: usize,
    pub binding: Option<Binding>,
}

/// A function-local variable.
pub struct LocalVariable {
    pub name: Option<String>,
    pub ty: usize,
    pub init: Option<usize>,
}

/// A module-level variable.
pub struct GlobalVariable {
    pub name: Option<String>,
    pub ty: usize,
}

/// A fully lowered IR function.
pub struct Function {
    pub name: Option<String>,
    pub arguments: Vec<FunctionArgument>,
    pub local_variables: Vec<LocalVariable>,
    pub expressions: Vec<Expression>,
    pub body: Vec<Statement>,
    pub result: Option<FunctionResult>,
}

/// The shader stage an entry point runs in.
#[derive(Clone, Copy, PartialEq, Eq, Structural, Debug)]
pub enum ShaderStage {
    Vertex,
    Fragment,
    Compute,
}

/// The fragment-stage early-depth-test marker, with no constraint chosen.
#[derive(Clone, Copy, PartialEq, Eq, Structural, Debug)]
pub struct EarlyDepthTest {
    pub conservative: Option<bool>,
}

/// A synthesized stage entry point.
pub struct EntryPoint {
    pub name: String,
    pub stage: ShaderStage,
    pub early_depth_test: Option<EarlyDepthTest>,
    pub workgroup_size: [u32; 3],
    pub function: Function,
}

/// The module under construction: append-only arenas of types, globals,
/// functions and entry points.  Handles are never invalidated or reused.
pub struct Module {
    pub types: Vec<Type>,
    pub global_variables: Vec<GlobalVariable>,
    pub functions: Vec<Function>,
    pub entry_points: Vec<EntryPoint>,
}

impl Module {
    /// A fresh module with empty arenas.
    pub fn new() -> (r: Module)
        ensures
            r.types@ =~= Seq::<Type>::empty(),
            r.global_variables@ =~= Seq::<GlobalVariable>::empty(),
            r.functions@ =~= Seq::<Function>::empty(),
            r.entry_points@ =~= Seq::<EntryPoint>::empty(),
    {
        Module {
            types: Vec::new(),
            global_variables: Vec::new(),
            functions: Vec::new(),
            entry_points: Vec::new(),
        }
    }
}

/// Whether a statement ends its block: the only statement the lowering of a
/// body may end with is a return.
pub open spec fn is_return(s: Statement) -> bool {
    match s {
        Statement::Return { .. } => true,
        _ => false,
    }
}

/// Appends a value-less return unless the body already ends in a return,
/// so that every registered function body is properly terminated.
pub fn ensure_block_returns(body: &mut Vec<Statement>)
    ensures
        final(body)@ == if old(body)@.len() > 0 && is_return(old(body)@.last()) {
            old(body)@
        } else {
            old(body)@.push(Statement::Return { value: None })
        },
{
    let n = body.len();
    let ends_in_return = if n > 0 {
        match body[n - 1] {
            Statement::Return { .. } => true,
            _ => false,
        }
    } else {
        false
    };
    if !ends_in_return {
        body.push(Statement::Return { value: None });
    }
}

} // verus!
