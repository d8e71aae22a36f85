//! The closed dispatch table of builtin functions: each recognized call
//! name resolves once to an operation tag that fixes the operation and its
//! arity; lowering then goes by the tag alone.

use vstd::prelude::*;
use vstd::string::StringExecFns;

use crate::context::{
    Context, ExprArena, spec_binary_conversion, spec_sampler_get,
};
use crate::error::{ErrorKind, SourceMetadata};
use crate::ir::{
    BinaryOperator, Expression, ImageQuery, MathFunction, RelationalFunction, SampleLevel,
    Statement, spec_identity_pattern,
};
use crate::program::Program;
use crate::types::{
    ImageDimension, ScalarKind, Type, TypeResolution, rt_image_parts, spec_rt_image,
    spec_rt_scalar_kind, rt_scalar_kind,
};

verus! {

/// The operation a recognized builtin call name stands for.
#[derive(Clone, Copy, PartialEq, Eq, Structural, Debug)]
pub enum Builtin {
    /// The pseudo-constructor that pairs a texture with a sampler.
    Sampler2D,
    /// Sampling with automatic or biased level selection.
    Texture,
    /// Sampling at an exact level of detail.
    TextureLod,
    /// An image size query.
    TextureSize,
    /// A direct texel load.
    TexelFetch,
    /// One- or two-argument arctangent.
    Atan,
    /// The two-argument modulo with mutual operand conversion.
    Mod,
    /// Numeric interpolation, or a select when the control is boolean.
    Mix,
    /// A one-argument mathematical operation.
    Math1(MathFunction),
    /// A two-argument mathematical operation.
    Math2(MathFunction),
    /// A three-argument mathematical operation.
    Math3(MathFunction),
    /// An element-wise comparison.
    Compare(BinaryOperator),
    /// A whole-value relational test.
    Relational(RelationalFunction),
}

/// The fixed name-to-tag table of the builtin dispatcher.
pub open spec fn spec_builtin_of(name: Seq<char>) -> Option<Builtin> {
    if name == "sampler2D"@ {
        Some(Builtin::Sampler2D)
    } else if name == "texture"@ {
        Some(Builtin::Texture)
    } else if name == "textureLod"@ {
        Some(Builtin::TextureLod)
    } else if name == "textureSize"@ {
        Some(Builtin::TextureSize)
    } else if name == "texelFetch"@ {
        Some(Builtin::TexelFetch)
    } else if name == "ceil"@ {
        Some(Builtin::Math1(MathFunction::Ceil))
    } else if name == "round"@ {
        Some(Builtin::Math1(MathFunction::Round))
    } else if name == "floor"@ {
        Some(Builtin::Math1(MathFunction::Floor))
    } else if name == "fract"@ {
        Some(Builtin::Math1(MathFunction::Fract))
    } else if name == "trunc"@ {
        Some(Builtin::Math1(MathFunction::Trunc))
    } else if name == "sin"@ {
        Some(Builtin::Math1(MathFunction::Sin))
    } else if name == "abs"@ {
        Some(Builtin::Math1(MathFunction::Abs))
    } else if name == "sqrt"@ {
        Some(Builtin::Math1(MathFunction::Sqrt))
    } else if name == "inversesqrt"@ {
        Some(Builtin::Math1(MathFunction::InverseSqrt))
    } else if name == "exp"@ {
        Some(Builtin::Math1(MathFunction::Exp))
    } else if name == "exp2"@ {
        Some(Builtin::Math1(MathFunction::Exp2))
    } else if name == "sign"@ {
        Some(Builtin::Math1(MathFunction::Sign))
    } else if name == "transpose"@ {
        Some(Builtin::Math1(MathFunction::Transpose))
    } else if name == "inverse"@ {
        Some(Builtin::Math1(MathFunction::Inverse))
    } else if name == "normalize"@ {
        Some(Builtin::Math1(MathFunction::Normalize))
    } else if name == "sinh"@ {
        Some(Builtin::Math1(MathFunction::Sinh))
    } else if name == "cos"@ {
        Some(Builtin::Math1(MathFunction::Cos))
    } else if name == "cosh"@ {
        Some(Builtin::Math1(MathFunction::Cosh))
    } else if name == "tan"@ {
        Some(Builtin::Math1(MathFunction::Tan))
    } else if name == "tanh"@ {
        Some(Builtin::Math1(MathFunction::Tanh))
    } else if name == "acos"@ {
        Some(Builtin::Math1(MathFunction::Acos))
    } else if name == "asin"@ {
        Some(Builtin::Math1(MathFunction::Asin))
    } else if name == "log"@ {
        Some(Builtin::Math1(MathFunction::Log))
    } else if name == "log2"@ {
        Some(Builtin::Math1(MathFunction::Log2))
    } else if name == "length"@ {
        Some(Builtin::Math1(MathFunction::Length))
    } else if name == "determinant"@ {
        Some(Builtin::Math1(MathFunction::Determinant))
    } else if name == "bitCount"@ {
        Some(Builtin::Math1(MathFunction::CountOneBits))
    } else if name == "bitfieldReverse"@ {
        Some(Builtin::Math1(MathFunction::ReverseBits))
    } else if name == "atan"@ {
        Some(Builtin::Atan)
    } else if name == "mod"@ {
        Some(Builtin::Mod)
    } else if name == "pow"@ {
        Some(Builtin::Math2(MathFunction::Pow))
    } else if name == "dot"@ {
        Some(Builtin::Math2(MathFunction::Dot))
    } else if name == "max"@ {
        Some(Builtin::Math2(MathFunction::Max))
    } else if name == "min"@ {
        Some(Builtin::Math2(MathFunction::Min))
    } else if name == "reflect"@ {
        Some(Builtin::Math2(MathFunction::Reflect))
    } else if name == "cross"@ {
        Some(Builtin::Math2(MathFunction::Cross))
    } else if name == "outerProduct"@ {
        Some(Builtin::Math2(MathFunction::Outer))
    } else if name == "distance"@ {
        Some(Builtin::Math2(MathFunction::Distance))
    } else if name == "step"@ {
        Some(Builtin::Math2(MathFunction::Step))
    } else if name == "modf"@ {
        Some(Builtin::Math2(MathFunction::Modf))
    } else if name == "frexp"@ {
        Some(Builtin::Math2(MathFunction::Frexp))
    } else if name == "ldexp"@ {
        Some(Builtin::Math2(MathFunction::Ldexp))
    } else if name == "mix"@ {
        Some(Builtin::Mix)
    } else if name == "clamp"@ {
        Some(Builtin::Math3(MathFunction::Clamp))
    } else if name == "faceforward"@ {
        Some(Builtin::Math3(MathFunction::FaceForward))
    } else if name == "refract"@ {
        Some(Builtin::Math3(MathFunction::Refract))
    } else if name == "fma"@ {
        Some(Builtin::Math3(MathFunction::Fma))
    } else if name == "smoothstep"@ {
        Some(Builtin::Math3(MathFunction::SmoothStep))
    } else if name == "lessThan"@ {
        Some(Builtin::Compare(BinaryOperator::Less))
    } else if name == "greaterThan"@ {
        Some(Builtin::Compare(BinaryOperator::Greater))
    } else if name == "lessThanEqual"@ {
        Some(Builtin::Compare(BinaryOperator::LessEqual))
    } else if name == "greaterThanEqual"@ {
        Some(Builtin::Compare(BinaryOperator::GreaterEqual))
    } else if name == "equal"@ {
        Some(Builtin::Compare(BinaryOperator::Equal))
    } else if name == "notEqual"@ {
        Some(Builtin::Compare(BinaryOperator::NotEqual))
    } else if name == "isinf"@ {
        Some(Builtin::Relational(RelationalFunction::IsInf))
    } else if name == "isnan"@ {
        Some(Builtin::Relational(RelationalFunction::IsNan))
    } else if name == "all"@ {
        Some(Builtin::Relational(RelationalFunction::All))
    } else if name == "any"@ {
        Some(Builtin::Relational(RelationalFunction::Any))
    } else {
        None
    }
}

/// Decides [`spec_builtin_of`] on a call name.
pub fn builtin_from_name(name: &String) -> (r: Option<Builtin>)
    ensures
        r == spec_builtin_of(name@),
{
    if *name == String::from_str("sampler2D") {
        Some(Builtin::Sampler2D)
    } else if *name == String::from_str("texture") {
        Some(Builtin::Texture)
    } else if *name == String::from_str("textureLod") {
        Some(Builtin::TextureLod)
    } else if *name == String::from_str("textureSize") {
        Some(Builtin::TextureSize)
    } else if *name == String::from_str("texelFetch") {
        Some(Builtin::TexelFetch)
    } else if *name == String::from_str("ceil") {
        Some(Builtin::Math1(MathFunction::Ceil))
    } else if *name == String::from_str("round") {
        Some(Builtin::Math1(MathFunction::Round))
    } else if *name == String::from_str("floor") {
        Some(Builtin::Math1(MathFunction::Floor))
    } else if *name == String::from_str("fract") {
        Some(Builtin::Math1(MathFunction::Fract))
    } else if *name == String::from_str("trunc") {
        Some(Builtin::Math1(MathFunction::Trunc))
    } else if *name == String::from_str("sin") {
        Some(Builtin::Math1(MathFunction::Sin))
    } else if *name == String::from_str("abs") {
        Some(Builtin::Math1(MathFunction::Abs))
    } else if *name == String::from_str("sqrt") {
        Some(Builtin::Math1(MathFunction::Sqrt))
    } else if *name == String::from_str("inversesqrt") {
        Some(Builtin::Math1(MathFunction::InverseSqrt))
    } else if *name == String::from_str("exp") {
        Some(Builtin::Math1(MathFunction::Exp))
    } else if *name == String::from_str("exp2") {
        Some(Builtin::Math1(MathFunction::Exp2))
    } else if *name == String::from_str("sign") {
        Some(Builtin::Math1(MathFunction::Sign))
    } else if *name == String::from_str("transpose") {
        Some(Builtin::Math1(MathFunction::Transpose))
    } else if *name == String::from_str("inverse") {
        Some(Builtin::Math1(MathFunction::Inverse))
    } else if *name == String::from_str("normalize") {
        Some(Builtin::Math1(MathFunction::Normalize))
    } else if *name == String::from_str("sinh") {
        Some(Builtin::Math1(MathFunction::Sinh))
    } else if *name == String::from_str("cos") {
        Some(Builtin::Math1(MathFunction::Cos))
    } else if *name == String::from_str("cosh") {
        Some(Builtin::Math1(MathFunction::Cosh))
    } else if *name == String::from_str("tan") {
        Some(Builtin::Math1(MathFunction::Tan))
    } else if *name == String::from_str("tanh") {
        Some(Builtin::Math1(MathFunction::Tanh))
    } else if *name == String::from_str("acos") {
        Some(Builtin::Math1(MathFunction::Acos))
    } else if *name == String::from_str("asin") {
        Some(Builtin::Math1(MathFunction::Asin))
    } else if *name == String::from_str("log") {
        Some(Builtin::Math1(MathFunction::Log))
    } else if *name == String::from_str("log2") {
        Some(Builtin::Math1(MathFunction::Log2))
    } else if *name == String::from_str("length") {
        Some(Builtin::Math1(MathFunction::Length))
    } else if *name == String::from_str("determinant") {
        Some(Builtin::Math1(MathFunction::Determinant))
    } else if *name == String::from_str("bitCount") {
        Some(Builtin::Math1(MathFunction::CountOneBits))
    } else if *name == String::from_str("bitfieldReverse") {
        Some(Builtin::Math1(MathFunction::ReverseBits))
    } else if *name == String::from_str("atan") {
        Some(Builtin::Atan)
    } else if *name == String::from_str("mod") {
        Some(Builtin::Mod)
    } else if *name == String::from_str("pow") {
        Some(Builtin::Math2(MathFunction::Pow))
    } else if *name == String::from_str("dot") {
        Some(Builtin::Math2(MathFunction::Dot))
    } else if *name == String::from_str("max") {
        Some(Builtin::Math2(MathFunction::Max))
    } else if *name == String::from_str("min") {
        Some(Builtin::Math2(MathFunction::Min))
    } else if *name == String::from_str("reflect") {
        Some(Builtin::Math2(MathFunction::Reflect))
    } else if *name == String::from_str("cross") {
        Some(Builtin::Math2(MathFunction::Cross))
    } else if *name == String::from_str("outerProduct") {
        Some(Builtin::Math2(MathFunction::Outer))
    } else if *name == String::from_str("distance") {
        Some(Builtin::Math2(MathFunction::Distance))
    } else if *name == String::from_str("step") {
        Some(Builtin::Math2(MathFunction::Step))
    } else if *name == String::from_str("modf") {
        Some(Builtin::Math2(MathFunction::Modf))
    } else if *name == String::from_str("frexp") {
        Some(Builtin::Math2(MathFunction::Frexp))
    } else if *name == String::from_str("ldexp") {
        Some(Builtin::Math2(MathFunction::Ldexp))
    } else if *name == String::from_str("mix") {
        Some(Builtin::Mix)
    } else if *name == String::from_str("clamp") {
        Some(Builtin::Math3(MathFunction::Clamp))
    } else if *name == String::from_str("faceforward") {
        Some(Builtin::Math3(MathFunction::FaceForward))
    } else if *name == String::from_str("refract") {
        Some(Builtin::Math3(MathFunction::Refract))
    } else if *name == String::from_str("fma") {
        Some(Builtin::Math3(MathFunction::Fma))
    } else if *name == String::from_str("smoothstep") {
        Some(Builtin::Math3(MathFunction::SmoothStep))
    } else if *name == String::from_str("lessThan") {
        Some(Builtin::Compare(BinaryOperator::Less))
    } else if *name == String::from_str("greaterThan") {
        Some(Builtin::Compare(BinaryOperator::Greater))
    } else if *name == String::from_str("lessThanEqual") {
        Some(Builtin::Compare(BinaryOperator::LessEqual))
    } else if *name == String::from_str("greaterThanEqual") {
        Some(Builtin::Compare(BinaryOperator::GreaterEqual))
    } else if *name == String::from_str("equal") {
        Some(Builtin::Compare(BinaryOperator::Equal))
    } else if *name == String::from_str("notEqual") {
        Some(Builtin::Compare(BinaryOperator::NotEqual))
    } else if *name == String::from_str("isinf") {
        Some(Builtin::Relational(RelationalFunction::IsInf))
    } else if *name == String::from_str("isnan") {
        Some(Builtin::Relational(RelationalFunction::IsNan))
    } else if *name == String::from_str("all") {
        Some(Builtin::Relational(RelationalFunction::All))
    } else if *name == String::from_str("any") {
        Some(Builtin::Relational(RelationalFunction::Any))
    } else {
        None
    }
}

/// The outcome of lowering one builtin call: the expression arena and the
/// sampler pairings afterwards, and the produced handle or error.
pub struct BuiltinOut {
    pub arena: ExprArena,
    pub samplers: Seq<(usize, usize)>,
    pub result: Result<Option<int>, ErrorKind>,
}

/// Whether an executable call-lowering result agrees with the spec-level
/// one.
pub open spec fn call_result_matches(
    s: Result<Option<int>, ErrorKind>,
    r: Result<Option<usize>, ErrorKind>,
) -> bool {
    match (s, r) {
        (Ok(Some(h)), Ok(p)) => p is Some && p.unwrap() == h,
        (Ok(None), Ok(p)) => p is None,
        (Err(e1), Err(e2)) => e1 == e2,
        _ => false,
    }
}

/// What lowering one builtin call does: the arity check, the sampler-map
/// reads and writes, and the expressions appended, case by case over the
/// operation tag.
pub open spec fn spec_lower_builtin(
    a: ExprArena,
    samplers: Seq<(usize, usize)>,
    types: Seq<Type>,
    tag: Builtin,
    name: String,
    args: Seq<(usize, SourceMetadata)>,
    meta: SourceMetadata,
) -> BuiltinOut {
    match tag {
        Builtin::Sampler2D => if args.len() != 2 {
            BuiltinOut { arena: a, samplers, result: Err(wrong_args(name, 2, args.len(), meta)) }
        } else {
            BuiltinOut {
                arena: a,
                samplers: samplers.push((args[0].0, args[1].0)),
                result: Ok(Some(args[0].0 as int)),
            }
        },
        Builtin::Texture => if args.len() < 2 || args.len() > 3 {
            BuiltinOut { arena: a, samplers, result: Err(wrong_args(name, 2, args.len(), meta)) }
        } else {
            match spec_sampler_get(samplers, args[0].0) {
                Some(sampler) => BuiltinOut {
                    arena: a.push(
                        Expression::ImageSample {
                            image: args[0].0,
                            sampler,
                            coordinate: args[1].0,
                            array_index: None,
                            offset: None,
                            level: if args.len() == 3 {
                                SampleLevel::Bias(args[2].0)
                            } else {
                                SampleLevel::Auto
                            },
                            depth_ref: None,
                        },
                        None,
                    ),
                    samplers,
                    result: Ok(Some(a.exprs.len() as int)),
                },
                None => BuiltinOut {
                    arena: a,
                    samplers,
                    result: Err(ErrorKind::BadSamplerCall { name, meta }),
                },
            }
        },
        Builtin::TextureLod => if args.len() != 3 {
            BuiltinOut { arena: a, samplers, result: Err(wrong_args(name, 3, args.len(), meta)) }
        } else {
            let a1 = a.push(
                Expression::As { expr: args[2].0, kind: ScalarKind::Float, convert: Some(4) },
                Some(TypeResolution::Scalar { kind: ScalarKind::Float, width: 4 }),
            );
            let exact = a.exprs.len() as usize;
            match spec_sampler_get(samplers, args[0].0) {
                Some(sampler) => BuiltinOut {
                    arena: a1.push(
                        Expression::ImageSample {
                            image: args[0].0,
                            sampler,
                            coordinate: args[1].0,
                            array_index: None,
                            offset: None,
                            level: SampleLevel::Exact(exact),
                            depth_ref: None,
                        },
                        None,
                    ),
                    samplers,
                    result: Ok(Some(a1.exprs.len() as int)),
                },
                None => BuiltinOut {
                    arena: a1,
                    samplers,
                    result: Err(ErrorKind::BadSamplerCall { name, meta }),
                },
            }
        },
        Builtin::TextureSize => if args.len() < 1 || args.len() > 2 {
            BuiltinOut { arena: a, samplers, result: Err(wrong_args(name, 1, args.len(), meta)) }
        } else {
            BuiltinOut {
                arena: a.push(
                    Expression::ImageQuery {
                        image: args[0].0,
                        query: ImageQuery::Size {
                            level: if args.len() == 2 {
                                Some(args[1].0)
                            } else {
                                None
                            },
                        },
                    },
                    None,
                ),
                samplers,
                result: Ok(Some(a.exprs.len() as int)),
            }
        },
        Builtin::TexelFetch => if args.len() != 3 {
            BuiltinOut { arena: a, samplers, result: Err(wrong_args(name, 3, args.len(), meta)) }
        } else if spec_sampler_get(samplers, args[0].0) is None {
            BuiltinOut {
                arena: a,
                samplers,
                result: Err(ErrorKind::BadSamplerCall { name, meta }),
            }
        } else {
            match a.tys[args[0].0 as int] {
                None => BuiltinOut {
                    arena: a,
                    samplers,
                    result: Err(ErrorKind::TypeResolutionFailed { meta: args[0].1 }),
                },
                Some(rt) => {
                    let parts = match spec_rt_image(rt, types) {
                        Some(p) => p,
                        None => (ImageDimension::D1, false),
                    };
                    if parts.1 {
                        let coord = match parts.0 {
                            ImageDimension::D1 => Expression::AccessIndex {
                                base: args[1].0,
                                index: 0,
                            },
                            ImageDimension::D2 => Expression::Swizzle {
                                size: crate::types::VectorSize::Bi,
                                vector: args[1].0,
                                pattern: spec_identity_pattern(),
                            },
                            _ => Expression::Swizzle {
                                size: crate::types::VectorSize::Tri,
                                vector: args[1].0,
                                pattern: spec_identity_pattern(),
                            },
                        };
                        let lane: u32 = match parts.0 {
                            ImageDimension::D1 => 1,
                            ImageDimension::D2 => 2,
                            ImageDimension::D3 => 3,
                            ImageDimension::Cube => 2,
                        };
                        let a1 = a.push(coord, None);
                        let a2 = a1.push(
                            Expression::AccessIndex { base: args[1].0, index: lane },
                            None,
                        );
                        BuiltinOut {
                            arena: a2.push(
                                Expression::ImageLoad {
                                    image: args[0].0,
                                    coordinate: a.exprs.len() as usize,
                                    array_index: Some(a1.exprs.len() as usize),
                                    index: Some(args[2].0),
                                },
                                None,
                            ),
                            samplers,
                            result: Ok(Some(a2.exprs.len() as int)),
                        }
                    } else {
                        BuiltinOut {
                            arena: a.push(
                                Expression::ImageLoad {
                                    image: args[0].0,
                                    coordinate: args[1].0,
                                    array_index: None,
                                    index: Some(args[2].0),
                                },
                                None,
                            ),
                            samplers,
                            result: Ok(Some(a.exprs.len() as int)),
                        }
                    }
                },
            }
        },
        Builtin::Math1(fun) => if args.len() != 1 {
            BuiltinOut { arena: a, samplers, result: Err(wrong_args(name, 1, args.len(), meta)) }
        } else {
            BuiltinOut {
                arena: a.push(
                    Expression::Math { fun, arg: args[0].0, arg1: None, arg2: None },
                    None,
                ),
                samplers,
                result: Ok(Some(a.exprs.len() as int)),
            }
        },
        Builtin::Atan => if args.len() == 1 {
            BuiltinOut {
                arena: a.push(
                    Expression::Math {
                        fun: MathFunction::Atan,
                        arg: args[0].0,
                        arg1: None,
                        arg2: None,
                    },
                    None,
                ),
                samplers,
                result: Ok(Some(a.exprs.len() as int)),
            }
        } else if args.len() == 2 {
            BuiltinOut {
                arena: a.push(
                    Expression::Math {
                        fun: MathFunction::Atan2,
                        arg: args[0].0,
                        arg1: Some(args[1].0),
                        arg2: None,
                    },
                    None,
                ),
                samplers,
                result: Ok(Some(a.exprs.len() as int)),
            }
        } else {
            BuiltinOut { arena: a, samplers, result: Err(wrong_args(name, 2, args.len(), meta)) }
        },
        Builtin::Mod => if args.len() != 2 {
            BuiltinOut { arena: a, samplers, result: Err(wrong_args(name, 2, args.len(), meta)) }
        } else {
            let conv = spec_binary_conversion(
                a,
                types,
                args[0].0 as int,
                args[1].0 as int,
                meta,
            );
            match conv.1 {
                Ok(operands) => BuiltinOut {
                    arena: conv.0.push(
                        Expression::Binary {
                            op: BinaryOperator::Modulo,
                            left: operands.0 as usize,
                            right: operands.1 as usize,
                        },
                        None,
                    ),
                    samplers,
                    result: Ok(Some(conv.0.exprs.len() as int)),
                },
                Err(e) => BuiltinOut { arena: conv.0, samplers, result: Err(e) },
            }
        },
        Builtin::Math2(fun) => if args.len() != 2 {
            BuiltinOut { arena: a, samplers, result: Err(wrong_args(name, 2, args.len(), meta)) }
        } else {
            BuiltinOut {
                arena: a.push(
                    Expression::Math { fun, arg: args[0].0, arg1: Some(args[1].0), arg2: None },
                    None,
                ),
                samplers,
                result: Ok(Some(a.exprs.len() as int)),
            }
        },
        Builtin::Mix => if args.len() != 3 {
            BuiltinOut { arena: a, samplers, result: Err(wrong_args(name, 3, args.len(), meta)) }
        } else {
            match a.tys[args[2].0 as int] {
                None => BuiltinOut {
                    arena: a,
                    samplers,
                    result: Err(ErrorKind::TypeResolutionFailed { meta: args[2].1 }),
                },
                Some(rt) => if spec_rt_scalar_kind(rt, types) == Some(ScalarKind::Bool) {
                    BuiltinOut {
                        arena: a.push(
                            Expression::Select {
                                condition: args[2].0,
                                accept: args[0].0,
                                reject: args[1].0,
                            },
                            None,
                        ),
                        samplers,
                        result: Ok(Some(a.exprs.len() as int)),
                    }
                } else {
                    BuiltinOut {
                        arena: a.push(
                            Expression::Math {
                                fun: MathFunction::Mix,
                                arg: args[0].0,
                                arg1: Some(args[1].0),
                                arg2: Some(args[2].0),
                            },
                            None,
                        ),
                        samplers,
                        result: Ok(Some(a.exprs.len() as int)),
                    }
                },
            }
        },
        Builtin::Math3(fun) => if args.len() != 3 {
            BuiltinOut { arena: a, samplers, result: Err(wrong_args(name, 3, args.len(), meta)) }
        } else {
            BuiltinOut {
                arena: a.push(
                    Expression::Math {
                        fun,
                        arg: args[0].0,
                        arg1: Some(args[1].0),
                        arg2: Some(args[2].0),
                    },
                    None,
                ),
                samplers,
                result: Ok(Some(a.exprs.len() as int)),
            }
        },
        Builtin::Compare(op) => if args.len() != 2 {
            BuiltinOut { arena: a, samplers, result: Err(wrong_args(name, 2, args.len(), meta)) }
        } else {
            BuiltinOut {
                arena: a.push(
                    Expression::Binary { op, left: args[0].0, right: args[1].0 },
                    None,
                ),
                samplers,
                result: Ok(Some(a.exprs.len() as int)),
            }
        },
        Builtin::Relational(fun) => if args.len() != 1 {
            BuiltinOut { arena: a, samplers, result: Err(wrong_args(name, 1, args.len(), meta)) }
        } else {
            BuiltinOut {
                arena: a.push(Expression::Relational { fun, argument: args[0].0 }, None),
                samplers,
                result: Ok(Some(a.exprs.len() as int)),
            }
        },
    }
}

/// The arity error for a call of `name` with `got` arguments where
/// `expected` are required.
pub open spec fn wrong_args(
    name: String,
    expected: usize,
    got: nat,
    meta: SourceMetadata,
) -> ErrorKind {
    ErrorKind::WrongFunctionArgs { name, expected, got: got as usize, meta }
}

impl Program {
    /// Lowers a call to a recognized builtin: checks the arity the tag
    /// fixes, reads or writes the sampler pairings for the texture
    /// operations, and appends the operation's expressions.
    #[verifier::rlimit(100)]
    pub fn lower_builtin(
        &mut self,
        ctx: &mut Context,
        body: &mut Vec<Statement>,
        tag: Builtin,
        name: String,
        args: &Vec<(usize, SourceMetadata)>,
        meta: SourceMetadata,
    ) -> (r: Result<Option<usize>, ErrorKind>)
        requires
            old(ctx).wf(),
            forall|i: int|
                0 <= i < args@.len() ==> (#[trigger] args@[i]).0 < old(ctx).expressions@.len(),
        ensures
            *final(self) == *old(self),
            *final(body) == *old(body),
            final(ctx).wf(),
            final(ctx).locals@ == old(ctx).locals@,
            final(ctx).hir_exprs@ == old(ctx).hir_exprs@,
            final(ctx).emit_from == old(ctx).emit_from,
            ({
                let out = spec_lower_builtin(
                    old(ctx).arena(),
                    old(ctx).samplers@,
                    old(self).module.types@,
                    tag,
                    name,
                    args@,
                    meta,
                );
                &&& final(ctx).arena() == out.arena
                &&& final(ctx).samplers@ == out.samplers
                &&& call_result_matches(out.result, r)
            }),
    {
        match tag {
            Builtin::Sampler2D => {
                if args.len() != 2 {
                    return Err(ErrorKind::WrongFunctionArgs {
                        name,
                        expected: 2,
                        got: args.len(),
                        meta,
                    });
                }
                ctx.sampler_insert(args[0].0, args[1].0);
                Ok(Some(args[0].0))
            },
            Builtin::Texture => {
                if args.len() < 2 || args.len() > 3 {
                    return Err(ErrorKind::WrongFunctionArgs {
                        name,
                        expected: 2,
                        got: args.len(),
                        meta,
                    });
                }
                match ctx.sampler_get(args[0].0) {
                    Some(sampler) => {
                        let level = if args.len() == 3 {
                            SampleLevel::Bias(args[2].0)
                        } else {
                            SampleLevel::Auto
                        };
                        let h = ctx.add_expression(
                            Expression::ImageSample {
                                image: args[0].0,
                                sampler,
                                coordinate: args[1].0,
                                array_index: None,
                                offset: None,
                                level,
                                depth_ref: None,
                            },
                            None,
                        );
                        Ok(Some(h))
                    },
                    None => Err(ErrorKind::BadSamplerCall { name, meta }),
                }
            },
            Builtin::TextureLod => {
                if args.len() != 3 {
                    return Err(ErrorKind::WrongFunctionArgs {
                        name,
                        expected: 3,
                        got: args.len(),
                        meta,
                    });
                }
                let exact = ctx.add_expression(
                    Expression::As { expr: args[2].0, kind: ScalarKind::Float, convert: Some(4) },
                    Some(TypeResolution::Scalar { kind: ScalarKind::Float, width: 4 }),
                );
                match ctx.sampler_get(args[0].0) {
                    Some(sampler) => {
                        let h = ctx.add_expression(
                            Expression::ImageSample {
                                image: args[0].0,
                                sampler,
                                coordinate: args[1].0,
                                array_index: None,
                                offset: None,
                                level: SampleLevel::Exact(exact),
                                depth_ref: None,
                            },
                            None,
                        );
                        Ok(Some(h))
                    },
                    None => Err(ErrorKind::BadSamplerCall { name, meta }),
                }
            },
            Builtin::TextureSize => {
                if args.len() < 1 || args.len() > 2 {
                    return Err(ErrorKind::WrongFunctionArgs {
                        name,
                        expected: 1,
                        got: args.len(),
                        meta,
                    });
                }
                let level = if args.len() == 2 {
                    Some(args[1].0)
                } else {
                    None
                };
                let h = ctx.add_expression(
                    Expression::ImageQuery { image: args[0].0, query: ImageQuery::Size { level } },
                    None,
                );
                Ok(Some(h))
            },
            Builtin::TexelFetch => {
                if args.len() != 3 {
                    return Err(ErrorKind::WrongFunctionArgs {
                        name,
                        expected: 3,
                        got: args.len(),
                        meta,
                    });
                }
                if ctx.sampler_get(args[0].0).is_none() {
                    return Err(ErrorKind::BadSamplerCall { name, meta });
                }
                let rt = match ctx.resolve_type(args[0].0, args[0].1) {
                    Ok(rt) => rt,
                    Err(e) => {
                        return Err(e);
                    },
                };
                let parts = match rt_image_parts(rt, &self.module.types) {
                    Some(p) => p,
                    None => (ImageDimension::D1, false),
                };
                let (dim, arrayed) = parts;
                if arrayed {
                    let coord = match dim {
                        ImageDimension::D1 => Expression::AccessIndex { base: args[1].0, index: 0 },
                        ImageDimension::D2 => Expression::Swizzle {
                            size: crate::types::VectorSize::Bi,
                            vector: args[1].0,
                            pattern: crate::ir::identity_pattern(),
                        },
                        _ => Expression::Swizzle {
                            size: crate::types::VectorSize::Tri,
                            vector: args[1].0,
                            pattern: crate::ir::identity_pattern(),
                        },
                    };
                    let lane: u32 = match dim {
                        ImageDimension::D1 => 1,
                        ImageDimension::D2 => 2,
                        ImageDimension::D3 => 3,
                        ImageDimension::Cube => 2,
                    };
                    let coordinate = ctx.add_expression(coord, None);
                    let array_index = ctx.add_expression(
                        Expression::AccessIndex { base: args[1].0, index: lane },
                        None,
                    );
                    let h = ctx.add_expression(
                        Expression::ImageLoad {
                            image: args[0].0,
                            coordinate,
                            array_index: Some(array_index),
                            index: Some(args[2].0),
                        },
                        None,
                    );
                    Ok(Some(h))
                } else {
                    let h = ctx.add_expression(
                        Expression::ImageLoad {
                            image: args[0].0,
                            coordinate: args[1].0,
                            array_index: None,
                            index: Some(args[2].0),
                        },
                        None,
                    );
                    Ok(Some(h))
                }
            },
            Builtin::Math1(fun) => {
                if args.len() != 1 {
                    return Err(ErrorKind::WrongFunctionArgs {
                        name,
                        expected: 1,
                        got: args.len(),
                        meta,
                    });
                }
                let h = ctx.add_expression(
                    Expression::Math { fun, arg: args[0].0, arg1: None, arg2: None },
                    None,
                );
                Ok(Some(h))
            },
            Builtin::Atan => {
                if args.len() == 1 {
                    let h = ctx.add_expression(
                        Expression::Math {
                            fun: MathFunction::Atan,
                            arg: args[0].0,
                            arg1: None,
                            arg2: None,
                        },
                        None,
                    );
                    Ok(Some(h))
                } else if args.len() == 2 {
                    let h = ctx.add_expression(
                        Expression::Math {
                            fun: MathFunction::Atan2,
                            arg: args[0].0,
                            arg1: Some(args[1].0),
                            arg2: None,
                        },
                        None,
                    );
                    Ok(Some(h))
                } else {
                    Err(ErrorKind::WrongFunctionArgs { name, expected: 2, got: args.len(), meta })
                }
            },
            Builtin::Mod => {
                if args.len() != 2 {
                    return Err(ErrorKind::WrongFunctionArgs {
                        name,
                        expected: 2,
                        got: args.len(),
                        meta,
                    });
                }
                let mut left = args[0].0;
                let mut right = args[1].0;
                match ctx.binary_implicit_conversion(&self.module.types, &mut left, &mut right, meta)
                {
                    Ok(()) => {
                        let h = ctx.add_expression(
                            Expression::Binary { op: BinaryOperator::Modulo, left, right },
                            None,
                        );
                        Ok(Some(h))
                    },
                    Err(e) => Err(e),
                }
            },
            Builtin::Math2(fun) => {
                if args.len() != 2 {
                    return Err(ErrorKind::WrongFunctionArgs {
                        name,
                        expected: 2,
                        got: args.len(),
                        meta,
                    });
                }
                let h = ctx.add_expression(
                    Expression::Math { fun, arg: args[0].0, arg1: Some(args[1].0), arg2: None },
                    None,
                );
                Ok(Some(h))
            },
            Builtin::Mix => {
                if args.len() != 3 {
                    return Err(ErrorKind::WrongFunctionArgs {
                        name,
                        expected: 3,
                        got: args.len(),
                        meta,
                    });
                }
                let rt = match ctx.resolve_type(args[2].0, args[2].1) {
                    Ok(rt) => rt,
                    Err(e) => {
                        return Err(e);
                    },
                };
                let is_bool_control = match rt_scalar_kind(rt, &self.module.types) {
                    Some(ScalarKind::Bool) => true,
                    _ => false,
                };
                if is_bool_control {
                    let h = ctx.add_expression(
                        Expression::Select {
                            condition: args[2].0,
                            accept: args[0].0,
                            reject: args[1].0,
                        },
                        None,
                    );
                    Ok(Some(h))
                } else {
                    let h = ctx.add_expression(
                        Expression::Math {
                            fun: MathFunction::Mix,
                            arg: args[0].0,
                            arg1: Some(args[1].0),
                            arg2: Some(args[2].0),
                        },
                        None,
                    );
                    Ok(Some(h))
                }
            },
            Builtin::Math3(fun) => {
                if args.len() != 3 {
                    return Err(ErrorKind::WrongFunctionArgs {
                        name,
                        expected: 3,
                        got: args.len(),
                        meta,
                    });
                }
                let h = ctx.add_expression(
                    Expression::Math {
                        fun,
                        arg: args[0].0,
                        arg1: Some(args[1].0),
                        arg2: Some(args[2].0),
                    },
                    None,
                );
                Ok(Some(h))
            },
            Builtin::Compare(op) => {
                if args.len() != 2 {
                    return Err(ErrorKind::WrongFunctionArgs {
                        name,
                        expected: 2,
                        got: args.len(),
                        meta,
                    });
                }
                let h = ctx.add_expression(
                    Expression::Binary { op, left: args[0].0, right: args[1].0 },
                    None,
                );
                Ok(Some(h))
            },
            Builtin::Relational(fun) => {
                match self.parse_relational_fun(ctx, body, name, args, fun, meta) {
                    Ok(h) => Ok(Some(h)),
                    Err(e) => Err(e),
                }
            },
        }
    }
}

} // verus!
