//! The compilation-unit state: the module under construction, the overload
//! table, the recorded entry points and the usage records that entry-point
//! synthesis consumes.

use vstd::prelude::*;

use crate::context::Context;
use crate::error::{ErrorKind, SourceMetadata};
use crate::hir::ParameterQualifier;
use crate::ir::{Expression, Module, RelationalFunction, ShaderStage, Statement};
use crate::types::Binding;

verus! {

/// One overload of a user-declared function: its parameter types (handles
/// into the module's type arena), the parameter qualifiers parallel to
/// them, the handle of the registered function, whether a full definition
/// has been seen, and whether the function returns no value.
pub struct FunctionDeclaration {
    pub parameters: Vec<usize>,
    pub qualifiers: Vec<ParameterQualifier>,
    pub handle: usize,
    pub defined: bool,
    pub void: bool,
}

/// The read/write usage record of one stage-interface argument by one
/// function; grows monotonically as the call graph is walked.
#[derive(Clone, Copy, PartialEq, Eq, Structural, Debug)]
pub struct EntryArgUse {
    pub read: bool,
    pub write: bool,
}

impl EntryArgUse {
    /// The empty record: neither read nor written.
    pub open spec fn spec_empty() -> EntryArgUse {
        EntryArgUse { read: false, write: false }
    }

    #[verifier::when_used_as_spec(spec_empty)]
    pub fn empty() -> (r: EntryArgUse)
        ensures
            r == Self::spec_empty(),
    {
        EntryArgUse { read: false, write: false }
    }

    /// The union of two records, flag by flag.
    pub open spec fn spec_union(self, other: EntryArgUse) -> EntryArgUse {
        EntryArgUse { read: self.read || other.read, write: self.write || other.write }
    }

    #[verifier::when_used_as_spec(spec_union)]
    pub fn union(self, other: EntryArgUse) -> (r: EntryArgUse)
        ensures
            r == self.spec_union(other),
    {
        EntryArgUse { read: self.read || other.read, write: self.write || other.write }
    }
}

/// The set of shader stages whose entry prologue loads a stage-interface
/// argument.
#[derive(Clone, Copy, PartialEq, Eq, Structural, Debug)]
pub struct PrologueStages {
    pub vertex: bool,
    pub fragment: bool,
    pub compute: bool,
}

impl PrologueStages {
    /// Whether the prologue set includes `stage`.
    pub open spec fn spec_contains(self, stage: ShaderStage) -> bool {
        match stage {
            ShaderStage::Vertex => self.vertex,
            ShaderStage::Fragment => self.fragment,
            ShaderStage::Compute => self.compute,
        }
    }

    #[verifier::when_used_as_spec(spec_contains)]
    pub fn contains(self, stage: ShaderStage) -> (r: bool)
        ensures
            r == self.spec_contains(stage),
    {
        match stage {
            ShaderStage::Vertex => self.vertex,
            ShaderStage::Fragment => self.fragment,
            ShaderStage::Compute => self.compute,
        }
    }
}

/// One declared stage-interface argument: an input/output/uniform slot
/// backed by a global variable.
pub struct EntryArg {
    pub name: Option<String>,
    pub binding: Binding,
    /// Handle of the backing global variable.
    pub handle: usize,
    /// The stages whose synthesized entry function receives this argument
    /// as a real parameter.
    pub prologue: PrologueStages,
}

/// The per-compilation-unit state of call resolution: the module under
/// construction, the overload table keyed by function name, the names
/// declared as entry points with their stages, the entries recorded during
/// registration, the per-function usage records and the stage-interface
/// argument list.
pub struct Program {
    pub module: Module,
    /// The overload table: each name with all declarations registered for
    /// it.  A name occurs at most once.
    pub lookup_function: Vec<(String, Vec<FunctionDeclaration>)>,
    /// The names that earlier declaration collection marked as entry
    /// points, with the stage each runs in.
    pub entry_points: Vec<(String, ShaderStage)>,
    /// The (name, stage, function) triples recorded when an entry-point
    /// function body was registered.
    pub entries: Vec<(String, ShaderStage, usize)>,
    /// Per-function usage records, indexed by function handle then by
    /// stage-interface argument index.
    pub function_arg_use: Vec<Vec<EntryArgUse>>,
    /// The declared stage-interface arguments.
    pub entry_args: Vec<EntryArg>,
    /// Whether the fragment entry points request early depth testing.
    pub early_fragment_tests: bool,
    /// The workgroup size attached to compute entry points.
    pub workgroup_size: [u32; 3],
}

impl Program {
    /// A fresh program around an empty module.
    pub fn new() -> (r: Program)
        ensures
            r.module.types@.len() == 0,
            r.module.global_variables@.len() == 0,
            r.module.functions@.len() == 0,
            r.module.entry_points@.len() == 0,
            r.lookup_function@.len() == 0,
            r.entry_points@.len() == 0,
            r.entries@.len() == 0,
            r.function_arg_use@.len() == 0,
            r.entry_args@.len() == 0,
            !r.early_fragment_tests,
            r.workgroup_size == [0u32, 0u32, 0u32],
    {
        Program {
            module: Module::new(),
            lookup_function: Vec::new(),
            entry_points: Vec::new(),
            entries: Vec::new(),
            function_arg_use: Vec::new(),
            entry_args: Vec::new(),
            early_fragment_tests: false,
            workgroup_size: [0, 0, 0],
        }
    }

    /// Lowers a single-argument relational builtin (`all`, `any`, `isnan`,
    /// `isinf`): with exactly one argument it appends the relational
    /// expression and returns its handle; any other count is an arity
    /// error naming the builtin.
    pub fn parse_relational_fun(
        &mut self,
        ctx: &mut Context,
        body: &mut Vec<Statement>,
        name: String,
        args: &Vec<(usize, SourceMetadata)>,
        fun: RelationalFunction,
        meta: SourceMetadata,
    ) -> (r: Result<usize, ErrorKind>)
        requires
            old(ctx).arena_wf(),
        ensures
            *final(self) == *old(self),
            *final(body) == *old(body),
            Context::same_but_arena(*old(ctx), *final(ctx)),
            final(ctx).arena_wf(),
            old(ctx).wf() ==> final(ctx).wf(),
            if args@.len() == 1 {
                &&& final(ctx).arena() == old(ctx).arena().push(
                    Expression::Relational { fun, argument: args@[0].0 },
                    None,
                )
                &&& r matches Ok(h) && h == old(ctx).expressions@.len()
            } else {
                &&& final(ctx).arena() == old(ctx).arena()
                &&& r == Err::<usize, ErrorKind>(
                    ErrorKind::WrongFunctionArgs {
                        name,
                        expected: 1,
                        got: args@.len() as usize,
                        meta,
                    },
                )
            },
    {
        if args.len() != 1 {
            return Err(ErrorKind::WrongFunctionArgs { name, expected: 1, got: args.len(), meta });
        }
        let argument = args[0].0;
        let h = ctx.add_expression(Expression::Relational { fun, argument }, None);
        Ok(h)
    }
}

} // verus!
