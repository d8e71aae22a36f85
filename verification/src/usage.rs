//! The call-graph usage analysis: propagation of stage-interface usage
//! records from callees into callers across whole statement trees.

use vstd::prelude::*;

use crate::calls::is_call_stmt;
use crate::ir::{
    EarlyDepthTest, EntryPoint, Expression, Function, FunctionArgument, FunctionResult,
    GlobalVariable, ShaderStage, Statement, SwitchCase,
};
use crate::program::{EntryArg, EntryArgUse, Program};
use crate::types::{StructMember, Type, TypeInner};

verus! {

broadcast use vstd::std_specs::vec::group_vec_axioms, vstd::seq::group_seq_axioms;

/// What one call does to the usage records: the caller's record grows to
/// at least the callee's length and absorbs the callee's flags index by
/// index; a call outside the recorded range changes nothing.
pub open spec fn spec_propagate_call(
    u: Seq<Seq<EntryArgUse>>,
    caller: int,
    callee: int,
) -> Seq<Seq<EntryArgUse>> {
    if 0 <= caller < u.len() && 0 <= callee < u.len() {
        let cu = u[callee];
        let cr = u[caller];
        let n = if cr.len() >= cu.len() {
            cr.len()
        } else {
            cu.len()
        };
        let row = Seq::new(
            n,
            |i: int|
                {
                    let base = if i < cr.len() {
                        cr[i]
                    } else {
                        EntryArgUse::spec_empty()
                    };
                    if i < cu.len() {
                        base.spec_union(cu[i])
                    } else {
                        base
                    }
                },
        );
        u.update(caller, row)
    } else {
        u
    }
}

/// Usage propagation over one statement: nested bodies are walked, and
/// every call statement merges its callee's record into the caller's.
pub open spec fn spec_propagate_stmt(
    u: Seq<Seq<EntryArgUse>>,
    caller: int,
    s: Statement,
) -> Seq<Seq<EntryArgUse>>
    decreases s, 0nat, 0nat,
{
    match s {
        Statement::Block(b) => spec_propagate_stmts(u, caller, b@, 0),
        Statement::If { accept, reject, .. } => spec_propagate_stmts(
            spec_propagate_stmts(u, caller, accept@, 0),
            caller,
            reject@,
            0,
        ),
        Statement::Switch { cases, default, .. } => spec_propagate_stmts(
            spec_propagate_cases(u, caller, cases@, 0),
            caller,
            default@,
            0,
        ),
        Statement::Loop { body, continuing } => spec_propagate_stmts(
            spec_propagate_stmts(u, caller, body@, 0),
            caller,
            continuing@,
            0,
        ),
        Statement::Call { function, .. } => spec_propagate_call(u, caller, function as int),
        _ => u,
    }
}

/// Usage propagation over the statements of `ss` from index `i` on.
pub open spec fn spec_propagate_stmts(
    u: Seq<Seq<EntryArgUse>>,
    caller: int,
    ss: Seq<Statement>,
    i: int,
) -> Seq<Seq<EntryArgUse>>
    decreases ss, 1nat, ss.len() - i,
{
    if 0 <= i < ss.len() {
        spec_propagate_stmts(spec_propagate_stmt(u, caller, ss[i]), caller, ss, i + 1)
    } else {
        u
    }
}

/// Usage propagation over the bodies of switch cases from index `i` on.
pub open spec fn spec_propagate_cases(
    u: Seq<Seq<EntryArgUse>>,
    caller: int,
    cs: Seq<SwitchCase>,
    i: int,
) -> Seq<Seq<EntryArgUse>>
    decreases cs, 1nat, cs.len() - i,
{
    if 0 <= i < cs.len() {
        spec_propagate_cases(spec_propagate_stmts(u, caller, cs[i].body@, 0), caller, cs, i + 1)
    } else {
        u
    }
}

impl Program {
    /// Merges into `caller`'s usage record the records of every function
    /// called anywhere in the statement tree of `stmt`: nested blocks,
    /// branches, switch cases and defaults, and loop bodies and
    /// continuations are all walked.
    pub fn check_call_global(
        &self,
        caller: usize,
        function_arg_use: &mut Vec<Vec<EntryArgUse>>,
        stmt: &Statement,
    )
        ensures
            final(function_arg_use)@.map_values(|v: Vec<EntryArgUse>| v@) == spec_propagate_stmt(
                old(function_arg_use)@.map_values(|v: Vec<EntryArgUse>| v@),
                caller as int,
                *stmt,
            ),
        decreases *stmt, 0nat, 0nat,
    {
        match stmt {
            Statement::Block(b) => {
                self.walk_block(caller, function_arg_use, b);
            },
            Statement::If { accept, reject, .. } => {
                self.walk_block(caller, function_arg_use, accept);
                self.walk_block(caller, function_arg_use, reject);
            },
            Statement::Switch { cases, default, .. } => {
                let ghost u0 = function_arg_use@.map_values(|v: Vec<EntryArgUse>| v@);
                proof {
                    assert(decreases_to!(*stmt => *cases));
                    assert(decreases_to!(*cases => cases@));
                }
                let mut c: usize = 0;
                while c < cases.len()
                    invariant
                        c <= cases@.len(),
                        decreases_to!(*stmt => cases@),
                        function_arg_use@.map_values(|v: Vec<EntryArgUse>| v@)
                            == spec_propagate_cases_upto(u0, caller as int, cases@, c as int),
                    decreases cases@.len() - c,
                {
                    proof {
                        assert(decreases_to!(cases@ => cases@[c as int]));
                        assert(decreases_to!(cases@[c as int] => cases@[c as int].body));
                        assert(decreases_to!(cases@[c as int].body => cases@[c as int].body@));
                    }
                    self.walk_block(caller, function_arg_use, &cases[c].body);
                    c = c + 1;
                }
                proof {
                    lemma_cases_upto_full(u0, caller as int, cases@, cases@.len() as int);
                }
                self.walk_block(caller, function_arg_use, default);
            },
            Statement::Loop { body, continuing } => {
                self.walk_block(caller, function_arg_use, body);
                self.walk_block(caller, function_arg_use, continuing);
            },
            Statement::Call { function, .. } => {
                let callee = *function;
                if caller < function_arg_use.len() && callee < function_arg_use.len() {
                    let ghost u0 = function_arg_use@.map_values(|v: Vec<EntryArgUse>| v@);
                    let ghost cu = u0[callee as int];
                    let ghost cr = u0[caller as int];
                    let callee_len = function_arg_use[callee].len();
                    let caller_len = function_arg_use[caller].len();
                    let n = if caller_len >= callee_len {
                        caller_len
                    } else {
                        callee_len
                    };
                    let mut row: Vec<EntryArgUse> = Vec::new();
                    let mut j: usize = 0;
                    while j < n
                        invariant
                            j <= n,
                            callee < function_arg_use@.len(),
                            caller < function_arg_use@.len(),
                            function_arg_use@.map_values(|v: Vec<EntryArgUse>| v@) == u0,
                            callee_len == cu.len(),
                            caller_len == cr.len(),
                            cu == u0[callee as int],
                            cr == u0[caller as int],
                            n == if cr.len() >= cu.len() {
                                cr.len()
                            } else {
                                cu.len()
                            },
                            row@.len() == j,
                            forall|x: int|
                                0 <= x < j ==> #[trigger] row@[x] == ({
                                    let base = if x < cr.len() {
                                        cr[x]
                                    } else {
                                        EntryArgUse::spec_empty()
                                    };
                                    if x < cu.len() {
                                        base.spec_union(cu[x])
                                    } else {
                                        base
                                    }
                                }),
                        decreases n - j,
                    {
                        proof {
                            assert(function_arg_use@.map_values(|v: Vec<EntryArgUse>| v@)[
                                caller as int] == function_arg_use@[caller as int]@);
                            assert(function_arg_use@.map_values(|v: Vec<EntryArgUse>| v@)[
                                callee as int] == function_arg_use@[callee as int]@);
                            assert(function_arg_use@[caller as int]@ == cr);
                            assert(function_arg_use@[callee as int]@ == cu);
                        }
                        let base = if j < caller_len {
                            function_arg_use[caller][j]
                        } else {
                            EntryArgUse::empty()
                        };
                        let merged = if j < callee_len {
                            base.union(function_arg_use[callee][j])
                        } else {
                            base
                        };
                        row.push(merged);
                        j = j + 1;
                    }
                    function_arg_use[caller] = row;
                    proof {
                        let target = spec_propagate_call(u0, caller as int, callee as int);
                        assert(function_arg_use@.map_values(|v: Vec<EntryArgUse>| v@).len()
                            == target.len());
                        assert forall|d: int|
                            0 <= d < target.len() implies function_arg_use@.map_values(
                            |v: Vec<EntryArgUse>| v@,
                        )[d] =~= target[d] by {
                            assert(function_arg_use@.map_values(|v: Vec<EntryArgUse>| v@)[d]
                                == function_arg_use@[d]@);
                        }
                        assert(function_arg_use@.map_values(|v: Vec<EntryArgUse>| v@)
                            =~~= target);
                    }
                }
            },
            _ => {},
        }
    }

    /// Walks every statement of one nested block.
    fn walk_block(
        &self,
        caller: usize,
        function_arg_use: &mut Vec<Vec<EntryArgUse>>,
        block: &Vec<Statement>,
    )
        ensures
            final(function_arg_use)@.map_values(|v: Vec<EntryArgUse>| v@) == spec_propagate_stmts(
                old(function_arg_use)@.map_values(|v: Vec<EntryArgUse>| v@),
                caller as int,
                block@,
                0,
            ),
        decreases block@, 1nat, 0nat,
    {
        let ghost u0 = function_arg_use@.map_values(|v: Vec<EntryArgUse>| v@);
        let mut j: usize = 0;
        while j < block.len()
            invariant
                j <= block@.len(),
                spec_propagate_stmts(u0, caller as int, block@, 0) == spec_propagate_stmts(
                    function_arg_use@.map_values(|v: Vec<EntryArgUse>| v@),
                    caller as int,
                    block@,
                    j as int,
                ),
            decreases block@.len() - j,
        {
            self.check_call_global(caller, function_arg_use, &block[j]);
            j = j + 1;
        }
    }
}

/// A prefix fold over switch cases, forward from the left.
pub open spec fn spec_propagate_cases_upto(
    u: Seq<Seq<EntryArgUse>>,
    caller: int,
    cs: Seq<SwitchCase>,
    n: int,
) -> Seq<Seq<EntryArgUse>>
    decreases n,
{
    if n <= 0 {
        u
    } else {
        spec_propagate_stmts(spec_propagate_cases_upto(u, caller, cs, n - 1), caller, cs[n - 1].body@, 0)
    }
}

/// The forward prefix fold over switch cases agrees with the suffix fold.
proof fn lemma_cases_upto_full(u: Seq<Seq<EntryArgUse>>, caller: int, cs: Seq<SwitchCase>, n: int)
    requires
        0 <= n <= cs.len(),
    ensures
        spec_propagate_cases(spec_propagate_cases_upto(u, caller, cs, n), caller, cs, n)
            == spec_propagate_cases(u, caller, cs, 0),
    decreases n,
{
    if n > 0 {
        lemma_cases_upto_full(u, caller, cs, n - 1);
    }
}

/// Usage propagation over the bodies of the first `k` registered
/// functions, each walked as its own caller, in registration order.
pub open spec fn spec_propagate_all_upto(
    u: Seq<Seq<EntryArgUse>>,
    functions: Seq<Function>,
    k: nat,
) -> Seq<Seq<EntryArgUse>>
    decreases k,
{
    if k == 0 {
        u
    } else {
        spec_propagate_stmts(
            spec_propagate_all_upto(u, functions, (k - 1) as nat),
            k - 1,
            functions[k - 1].body@,
            0,
        )
    }
}

/// Whether the usage records treat a stage-interface argument as read by a
/// function: an argument with no record defaults to used.
pub open spec fn read_included(u: Seq<Seq<EntryArgUse>>, f: int, i: int) -> bool {
    if 0 <= f < u.len() && 0 <= i < u[f].len() {
        u[f][i].read
    } else {
        true
    }
}

/// Whether the usage records show a stage-interface argument written by a
/// function.
pub open spec fn write_included(u: Seq<Seq<EntryArgUse>>, f: int, i: int) -> bool {
    if 0 <= f < u.len() && 0 <= i < u[f].len() {
        u[f][i].write
    } else {
        false
    }
}

/// The indices, in order, of the stage-interface arguments among the first
/// `n` that a stage's entry function receives as parameters: those read
/// (or unrecorded) whose prologue includes the stage.
pub open spec fn included_reads(
    u: Seq<Seq<EntryArgUse>>,
    f: int,
    args: Seq<EntryArg>,
    stage: ShaderStage,
    n: nat,
) -> Seq<int>
    decreases n,
{
    if n == 0 {
        Seq::empty()
    } else {
        let prev = included_reads(u, f, args, stage, (n - 1) as nat);
        if read_included(u, f, n - 1) && args[n - 1].prologue.spec_contains(stage) {
            prev.push(n - 1)
        } else {
            prev
        }
    }
}

/// The indices, in order, of the stage-interface arguments among the first
/// `n` that the synthesized output struct returns: those written.
pub open spec fn included_writes(
    u: Seq<Seq<EntryArgUse>>,
    f: int,
    args: Seq<EntryArg>,
    n: nat,
) -> Seq<int>
    decreases n,
{
    if n == 0 {
        Seq::empty()
    } else {
        let prev = included_writes(u, f, args, (n - 1) as nat);
        if write_included(u, f, n - 1) {
            prev.push(n - 1)
        } else {
            prev
        }
    }
}

/// Addition that stops at the largest byte offset.
pub open spec fn sat_add(a: u32, b: u32) -> u32 {
    if a + b <= u32::MAX {
        (a + b) as u32
    } else {
        u32::MAX
    }
}

/// The byte offset of output-struct member `j`: the running span of the
/// members before it.
pub open spec fn write_offset(
    types: Seq<Type>,
    globals: Seq<GlobalVariable>,
    args: Seq<EntryArg>,
    ws: Seq<int>,
    j: int,
) -> u32
    decreases j,
{
    if j <= 0 {
        0
    } else {
        sat_add(
            write_offset(types, globals, args, ws, j - 1),
            types[globals[args[ws[j - 1]].handle as int].ty as int].inner.spec_span(),
        )
    }
}

/// The exact shape of one synthesized entry point, against the propagated
/// usage records `u`, the declared stage-interface arguments, the globals
/// and the type arena as it stands after synthesis.
pub open spec fn entry_point_shape(
    ep: EntryPoint,
    entry: (String, ShaderStage, usize),
    u: Seq<Seq<EntryArgUse>>,
    args: Seq<EntryArg>,
    globals: Seq<GlobalVariable>,
    types_post: Seq<Type>,
    early: bool,
    wg: [u32; 3],
) -> bool {
    let f = entry.2 as int;
    let stage = entry.1;
    let reads = included_reads(u, f, args, stage, args.len());
    let writes = included_writes(u, f, args, args.len());
    let rn = reads.len() as int;
    let wn = writes.len() as int;
    &&& ep.name@ == entry.0@
    &&& ep.stage == stage
    &&& ep.early_depth_test == if early && stage == ShaderStage::Fragment {
        Some(EarlyDepthTest { conservative: None })
    } else {
        None::<EarlyDepthTest>
    }
    &&& ep.workgroup_size == if stage == ShaderStage::Compute {
        wg
    } else {
        [0u32, 0u32, 0u32]
    }
    &&& ep.function.name is None
    &&& ep.function.local_variables@.len() == 0
    &&& ep.function.arguments@.len() == rn
    &&& (forall|j: int|
        0 <= j < rn ==> {
            let a = args[reads[j]];
            &&& (#[trigger] ep.function.arguments@[j]).ty == globals[a.handle as int].ty
            &&& ep.function.arguments@[j].binding == Some(a.binding)
            &&& ep.function.arguments@[j].name == a.name
        })
    &&& ep.function.expressions@.len() == 2 * rn + 2 * wn + if wn > 0 {
        1int
    } else {
        0int
    }
    &&& (forall|j: int|
        0 <= j < rn ==> #[trigger] ep.function.expressions@[2 * j] == Expression::GlobalVariable(
            args[reads[j]].handle,
        ) && ep.function.expressions@[2 * j + 1] == Expression::FunctionArgument(j as u32))
    &&& (forall|j: int|
        0 <= j < rn ==> #[trigger] ep.function.body@[j] == Statement::Store {
            pointer: (2 * j) as usize,
            value: (2 * j + 1) as usize,
        })
    &&& ep.function.body@.len() == rn + 1 + wn + if wn > 0 {
        2int
    } else {
        1int
    }
    &&& is_call_stmt(ep.function.body@[rn], entry.2, Seq::empty(), None)
    &&& (forall|j: int|
        0 <= j < wn ==> {
            &&& #[trigger] ep.function.expressions@[2 * rn + 2 * j] == Expression::GlobalVariable(
                args[writes[j]].handle,
            )
            &&& ep.function.expressions@[2 * rn + 2 * j + 1] == Expression::Load {
                pointer: (2 * rn + 2 * j) as usize,
            }
            &&& ep.function.body@[rn + 1 + j] == Statement::Emit {
                start: (2 * rn + 2 * j + 1) as usize,
                end: (2 * rn + 2 * j + 2) as usize,
            }
        })
    &&& if wn > 0 {
        &&& ep.function.result matches Some(fr) && fr.binding is None && fr.ty < types_post.len()
            && types_post[fr.ty as int].name is None && match types_post[fr.ty as int].inner {
            TypeInner::Struct { members, span } => {
                &&& members@.len() == wn
                &&& (forall|j: int|
                    0 <= j < wn ==> {
                        let a = args[writes[j]];
                        &&& (#[trigger] members@[j]).ty == globals[a.handle as int].ty
                        &&& members@[j].binding == Some(a.binding)
                        &&& members@[j].name == a.name
                        &&& members@[j].offset == write_offset(types_post, globals, args, writes, j)
                    })
                &&& span == write_offset(types_post, globals, args, writes, wn)
            },
            _ => false,
        } && crate::constructor::is_compose(
            ep.function.expressions@.last(),
            ep.function.result.unwrap().ty,
            Seq::new(wn as nat, |j: int| (2 * rn + 2 * j + 1) as usize),
        )
        &&& ep.function.body@[rn + 1 + wn] == Statement::Emit {
            start: (2 * rn + 2 * wn) as usize,
            end: (2 * rn + 2 * wn + 1) as usize,
        }
        &&& ep.function.body@.last() == Statement::Return {
            value: Some((2 * rn + 2 * wn) as usize),
        }
    } else {
        &&& ep.function.result is None
        &&& ep.function.body@.last() == Statement::Return { value: None }
    }
}

/// Whether one statement's calls are already absorbed by the records: the
/// caller's record subsumes every callee's record reachable in the tree.
pub open spec fn spec_closed_stmt(u: Seq<Seq<EntryArgUse>>, caller: int, s: Statement) -> bool
    decreases s, 0nat, 0nat,
{
    match s {
        Statement::Block(b) => spec_closed_stmts(u, caller, b@, 0),
        Statement::If { accept, reject, .. } => spec_closed_stmts(u, caller, accept@, 0)
            && spec_closed_stmts(u, caller, reject@, 0),
        Statement::Switch { cases, default, .. } => spec_closed_cases(u, caller, cases@, 0)
            && spec_closed_stmts(u, caller, default@, 0),
        Statement::Loop { body, continuing } => spec_closed_stmts(u, caller, body@, 0)
            && spec_closed_stmts(u, caller, continuing@, 0),
        Statement::Call { function, .. } => spec_propagate_call(u, caller, function as int) == u,
        _ => true,
    }
}

/// Closedness over the statements of `ss` from index `i` on.
pub open spec fn spec_closed_stmts(
    u: Seq<Seq<EntryArgUse>>,
    caller: int,
    ss: Seq<Statement>,
    i: int,
) -> bool
    decreases ss, 1nat, ss.len() - i,
{
    if 0 <= i < ss.len() {
        spec_closed_stmt(u, caller, ss[i]) && spec_closed_stmts(u, caller, ss, i + 1)
    } else {
        true
    }
}

/// Closedness over switch cases from index `i` on.
pub open spec fn spec_closed_cases(
    u: Seq<Seq<EntryArgUse>>,
    caller: int,
    cs: Seq<SwitchCase>,
    i: int,
) -> bool
    decreases cs, 1nat, cs.len() - i,
{
    if 0 <= i < cs.len() {
        spec_closed_stmts(u, caller, cs[i].body@, 0) && spec_closed_cases(u, caller, cs, i + 1)
    } else {
        true
    }
}

/// Propagation through one closed statement changes nothing.
proof fn lemma_closed_stmt(u: Seq<Seq<EntryArgUse>>, caller: int, s: Statement)
    requires
        spec_closed_stmt(u, caller, s),
    ensures
        spec_propagate_stmt(u, caller, s) == u,
    decreases s, 0nat, 0nat,
{
    match s {
        Statement::Block(b) => {
            lemma_closed_stmts(u, caller, b@, 0);
        },
        Statement::If { accept, reject, .. } => {
            lemma_closed_stmts(u, caller, accept@, 0);
            lemma_closed_stmts(u, caller, reject@, 0);
        },
        Statement::Switch { cases, default, .. } => {
            lemma_closed_cases(u, caller, cases@, 0);
            lemma_closed_stmts(u, caller, default@, 0);
        },
        Statement::Loop { body, continuing } => {
            lemma_closed_stmts(u, caller, body@, 0);
            lemma_closed_stmts(u, caller, continuing@, 0);
        },
        _ => {},
    }
}

/// Propagation through a closed statement list changes nothing.
proof fn lemma_closed_stmts(u: Seq<Seq<EntryArgUse>>, caller: int, ss: Seq<Statement>, i: int)
    requires
        spec_closed_stmts(u, caller, ss, i),
    ensures
        spec_propagate_stmts(u, caller, ss, i) == u,
    decreases ss, 1nat, ss.len() - i,
{
    if 0 <= i < ss.len() {
        lemma_closed_stmt(u, caller, ss[i]);
        lemma_closed_stmts(u, caller, ss, i + 1);
    }
}

/// Propagation through closed switch cases changes nothing.
proof fn lemma_closed_cases(u: Seq<Seq<EntryArgUse>>, caller: int, cs: Seq<SwitchCase>, i: int)
    requires
        spec_closed_cases(u, caller, cs, i),
    ensures
        spec_propagate_cases(u, caller, cs, i) == u,
    decreases cs, 1nat, cs.len() - i,
{
    if 0 <= i < cs.len() {
        lemma_closed_stmts(u, caller, cs[i].body@, 0);
        lemma_closed_cases(u, caller, cs, i + 1);
    }
}

/// The usage analysis is stable on an already-stabilized call graph: when
/// every caller's record already subsumes the records of everything it
/// calls, another pass — and hence any repetition of the pass — leaves
/// every usage record exactly as it was; flags only ever accumulate and
/// are already closed.
pub proof fn lemma_usage_idempotent(
    u: Seq<Seq<EntryArgUse>>,
    functions: Seq<Function>,
    n: nat,
)
    requires
        n <= functions.len(),
        forall|h: int|
            0 <= h < functions.len() ==> spec_closed_stmts(
                u,
                h,
                (#[trigger] functions[h]).body@,
                0,
            ),
    ensures
        spec_propagate_all_upto(u, functions, n) == u,
    decreases n,
{
    if n > 0 {
        lemma_usage_idempotent(u, functions, (n - 1) as nat);
        lemma_closed_stmts(u, (n - 1) as int, functions[n - 1].body@, 0);
    }
}

/// Copies an optional debug name.
fn clone_name(n: &Option<String>) -> (r: Option<String>)
    ensures
        r == *n,
{
    match n {
        Some(s) => Some(s.clone()),
        None => None,
    }
}

/// Every index the write filter selects lies below `n`.
proof fn lemma_writes_range(u: Seq<Seq<EntryArgUse>>, f: int, args: Seq<EntryArg>, n: nat)
    ensures
        forall|j: int|
            0 <= j < included_writes(u, f, args, n).len() ==> 0 <= #[trigger] included_writes(
                u,
                f,
                args,
                n,
            )[j] < n,
    decreases n,
{
    if n > 0 {
        lemma_writes_range(u, f, args, (n - 1) as nat);
        let prev = included_writes(u, f, args, (n - 1) as nat);
        let cur = included_writes(u, f, args, n);
        assert forall|j: int| 0 <= j < cur.len() implies 0 <= #[trigger] cur[j] < n by {
            if j < prev.len() {
                assert(cur[j] == prev[j]);
            }
        }
    }
}

/// Every index the read filter selects lies below `n`.
proof fn lemma_reads_range(
    u: Seq<Seq<EntryArgUse>>,
    f: int,
    args: Seq<EntryArg>,
    stage: ShaderStage,
    n: nat,
)
    ensures
        forall|j: int|
            0 <= j < included_reads(u, f, args, stage, n).len() ==> 0 <= #[trigger] included_reads(
                u,
                f,
                args,
                stage,
                n,
            )[j] < n,
    decreases n,
{
    if n > 0 {
        lemma_reads_range(u, f, args, stage, (n - 1) as nat);
        let prev = included_reads(u, f, args, stage, (n - 1) as nat);
        let cur = included_reads(u, f, args, stage, n);
        assert forall|j: int| 0 <= j < cur.len() implies 0 <= #[trigger] cur[j] < n by {
            if j < prev.len() {
                assert(cur[j] == prev[j]);
            }
        }
    }
}


/// Offsets over a prefix are unchanged by appending another member index.
proof fn lemma_write_offset_push(
    types: Seq<Type>,
    globals: Seq<GlobalVariable>,
    args: Seq<EntryArg>,
    ws: Seq<int>,
    x: int,
    j: int,
)
    requires
        0 <= j <= ws.len(),
    ensures
        write_offset(types, globals, args, ws.push(x), j) == write_offset(
            types,
            globals,
            args,
            ws,
            j,
        ),
    decreases j,
{
    if j > 0 {
        lemma_write_offset_push(types, globals, args, ws, x, j - 1);
        assert(ws.push(x)[j - 1] == ws[j - 1]);
    }
}

/// Member offsets do not change when the type arena grows.
proof fn lemma_write_offset_stable(
    t1: Seq<Type>,
    t2: Seq<Type>,
    globals: Seq<GlobalVariable>,
    args: Seq<EntryArg>,
    ws: Seq<int>,
    j: int,
)
    requires
        t2.len() >= t1.len(),
        t2.subrange(0, t1.len() as int) == t1,
        forall|k: int|
            0 <= k < ws.len() ==> 0 <= #[trigger] ws[k] < args.len(),
        forall|k: int|
            0 <= k < args.len() ==> (#[trigger] args[k]).handle < globals.len(),
        forall|g: int|
            0 <= g < globals.len() ==> (#[trigger] globals[g]).ty < t1.len(),
        0 <= j <= ws.len(),
    ensures
        write_offset(t1, globals, args, ws, j) == write_offset(t2, globals, args, ws, j),
    decreases j,
{
    if j > 0 {
        lemma_write_offset_stable(t1, t2, globals, args, ws, j - 1);
        assert(t2[globals[args[ws[j - 1]].handle as int].ty as int] == t1[globals[args[ws[j
            - 1]].handle as int].ty as int]);
    }
}

/// An entry point's shape survives growth of the type arena.
proof fn lemma_shape_stable(
    ep: &EntryPoint,
    entry: (String, ShaderStage, usize),
    u: Seq<Seq<EntryArgUse>>,
    args: Seq<EntryArg>,
    globals: Seq<GlobalVariable>,
    t1: Seq<Type>,
    t2: Seq<Type>,
    early: bool,
    wg: [u32; 3],
)
    requires
        entry_point_shape(*ep, entry, u, args, globals, t1, early, wg),
        t2.len() >= t1.len(),
        t2.subrange(0, t1.len() as int) == t1,
        forall|k: int|
            0 <= k < args.len() ==> (#[trigger] args[k]).handle < globals.len(),
        forall|g: int|
            0 <= g < globals.len() ==> (#[trigger] globals[g]).ty < t1.len(),
    ensures
        entry_point_shape(*ep, entry, u, args, globals, t2, early, wg),
{
    let f = entry.2 as int;
    let writes = included_writes(u, f, args, args.len());
    lemma_writes_range(u, f, args, args.len());
    if writes.len() > 0 {
        let fr = ep.function.result.unwrap();
        assert(t2[fr.ty as int] == t1[fr.ty as int]);
        lemma_write_offset_stable(t1, t2, globals, args, writes, writes.len() as int);
        assert forall|j: int| 0 <= j < writes.len() implies write_offset(
            t2,
            globals,
            args,
            writes,
            j,
        ) == write_offset(t1, globals, args, writes, j) by {
            lemma_write_offset_stable(t1, t2, globals, args, writes, j);
        }
    }
}

impl Program {
    /// Synthesizes one real entry function per recorded entry, after one
    /// usage-propagation pass over every registered function body.
    ///
    /// Each synthesized function takes as parameters the stage-interface
    /// arguments the underlying function reads (an argument with no usage
    /// record defaults to used) whose prologue includes the stage, stores
    /// each parameter into its global before calling the underlying
    /// function with no arguments, then loads every written global and, if
    /// any, composes them into a fresh output struct type whose member
    /// offsets are the running byte spans, returning that value.  Fragment
    /// entries carry the early-depth-test marker when requested; compute
    /// entries carry the workgroup size.
    #[verifier::rlimit(100)]
    pub fn add_entry_points(&mut self)
        requires
            forall|i: int|
                0 <= i < old(self).entry_args@.len() ==> (#[trigger] old(self).entry_args@[i]).handle < old(self).module.global_variables@.len(),
            forall|g: int|
                0 <= g < old(self).module.global_variables@.len() ==> (#[trigger] old(self).module.global_variables@[g]).ty < old(self).module.types@.len(),
        ensures
            final(self).module.functions@ == old(self).module.functions@,
            final(self).module.global_variables@ == old(self).module.global_variables@,
            final(self).module.types@.len() >= old(self).module.types@.len(),
            final(self).module.types@.subrange(0, old(self).module.types@.len() as int) == old(self).module.types@,
            final(self).entries@ == old(self).entries@,
            final(self).entry_points@ == old(self).entry_points@,
            final(self).entry_args@ == old(self).entry_args@,
            final(self).lookup_function@ == old(self).lookup_function@,
            final(self).early_fragment_tests == old(self).early_fragment_tests,
            final(self).workgroup_size == old(self).workgroup_size,
            final(self).function_arg_use@.len() == 0,
            ({
                let gu = spec_propagate_all_upto(
                    old(self).function_arg_use@.map_values(|v: Vec<EntryArgUse>| v@),
                    old(self).module.functions@,
                    old(self).module.functions@.len(),
                );
                &&& final(self).module.entry_points@.len() == old(self).module.entry_points@.len() + old(self).entries@.len()
                &&& final(self).module.entry_points@.subrange(
                    0,
                    old(self).module.entry_points@.len() as int,
                ) == old(self).module.entry_points@
                &&& forall|e: int|
                    0 <= e < old(self).entries@.len() ==> entry_point_shape(
                        #[trigger] final(self).module.entry_points@[old(self).module.entry_points@.len() + e],
                        old(self).entries@[e],
                        gu,
                        old(self).entry_args@,
                        old(self).module.global_variables@,
                        final(self).module.types@,
                        old(self).early_fragment_tests,
                        old(self).workgroup_size,
                    )
            }),
    {
        let mut fau: Vec<Vec<EntryArgUse>> = Vec::new();
        core::mem::swap(&mut self.function_arg_use, &mut fau);
        let ghost u_init = fau@.map_values(|v: Vec<EntryArgUse>| v@);
        let mut h: usize = 0;
        while h < self.module.functions.len()
            invariant
                h <= self.module.functions@.len(),
                self.module == old(self).module,
                self.lookup_function@ == old(self).lookup_function@,
                self.entry_points@ == old(self).entry_points@,
                self.entries@ == old(self).entries@,
                self.entry_args@ == old(self).entry_args@,
                self.early_fragment_tests == old(self).early_fragment_tests,
                self.workgroup_size == old(self).workgroup_size,
                self.function_arg_use@.len() == 0,
                u_init == old(self).function_arg_use@.map_values(|v: Vec<EntryArgUse>| v@),
                fau@.map_values(|v: Vec<EntryArgUse>| v@) == spec_propagate_all_upto(
                    u_init,
                    self.module.functions@,
                    h as nat,
                ),
            decreases self.module.functions@.len() - h,
        {
            self.walk_block(h, &mut fau, &self.module.functions[h].body);
            h = h + 1;
        }
        let ghost gu = fau@.map_values(|v: Vec<EntryArgUse>| v@);
        let ghost args_g = self.entry_args@;
        let ghost globals_g = self.module.global_variables@;
        let ghost types0 = self.module.types@;
        let ghost eps0 = self.module.entry_points@;
        let mut e: usize = 0;
        while e < self.entries.len()
            invariant
                e <= self.entries@.len(),
                self.module.functions@ == old(self).module.functions@,
                self.module.global_variables@ == globals_g,
                globals_g == old(self).module.global_variables@,
                self.module.types@.len() >= types0.len(),
                self.module.types@.subrange(0, types0.len() as int) == types0,
                types0 == old(self).module.types@,
                self.entries@ == old(self).entries@,
                self.entry_points@ == old(self).entry_points@,
                self.entry_args@ == args_g,
                args_g == old(self).entry_args@,
                self.lookup_function@ == old(self).lookup_function@,
                self.early_fragment_tests == old(self).early_fragment_tests,
                self.workgroup_size == old(self).workgroup_size,
                self.function_arg_use@.len() == 0,
                fau@.map_values(|v: Vec<EntryArgUse>| v@) == gu,
                gu == spec_propagate_all_upto(
                    old(self).function_arg_use@.map_values(|v: Vec<EntryArgUse>| v@),
                    old(self).module.functions@,
                    old(self).module.functions@.len(),
                ),
                forall|i: int|
                    0 <= i < args_g.len() ==> (#[trigger] args_g[i]).handle < globals_g.len(),
                forall|g: int|
                    0 <= g < globals_g.len() ==> (#[trigger] globals_g[g]).ty < types0.len(),
                self.module.entry_points@.len() == eps0.len() + e,
                eps0 == old(self).module.entry_points@,
                self.module.entry_points@.subrange(0, eps0.len() as int) == eps0,
                forall|e2: int|
                    0 <= e2 < e ==> entry_point_shape(
                        #[trigger] self.module.entry_points@[eps0.len() + e2],
                        self.entries@[e2],
                        gu,
                        args_g,
                        globals_g,
                        self.module.types@,
                        self.early_fragment_tests,
                        self.workgroup_size,
                    ),
            decreases self.entries@.len() - e,
        {
            let name = self.entries[e].0.clone();
            let stage = self.entries[e].1;
            let f = self.entries[e].2;
            let ghost selfsnap = *self;
            let mut arguments: Vec<FunctionArgument> = Vec::new();
            let mut expressions: Vec<Expression> = Vec::new();
            let mut body: Vec<Statement> = Vec::new();
            let mut i: usize = 0;
            while i < self.entry_args.len()
                invariant
                    i <= self.entry_args@.len(),
                    *self == selfsnap,
                    fau@.map_values(|v: Vec<EntryArgUse>| v@) == gu,
                    args_g == self.entry_args@,
                    globals_g == self.module.global_variables@,
                    forall|x: int|
                        0 <= x < args_g.len() ==> (#[trigger] args_g[x]).handle < globals_g.len(),
                    ({
                        let reads = included_reads(gu, f as int, args_g, stage, i as nat);
                        &&& arguments@.len() == reads.len()
                        &&& body@.len() == reads.len()
                        &&& expressions@.len() == 2 * reads.len()
                        &&& (forall|j: int|
                            0 <= j < reads.len() ==> {
                                let a = args_g[reads[j]];
                                &&& (#[trigger] arguments@[j]).ty == globals_g[a.handle as int].ty
                                &&& arguments@[j].binding == Some(a.binding)
                                &&& arguments@[j].name == a.name
                            })
                        &&& (forall|j: int|
                            0 <= j < reads.len() ==> #[trigger] expressions@[2 * j]
                                == Expression::GlobalVariable(args_g[reads[j]].handle)
                                && expressions@[2 * j + 1] == Expression::FunctionArgument(
                                j as u32,
                            ))
                        &&& (forall|j: int|
                            0 <= j < reads.len() ==> #[trigger] body@[j] == Statement::Store {
                                pointer: (2 * j) as usize,
                                value: (2 * j + 1) as usize,
                            })
                    }),
                decreases self.entry_args@.len() - i,
            {
                proof {
                    if f < fau@.len() {
                        assert(fau@.map_values(|v: Vec<EntryArgUse>| v@)[f as int]
                            == fau@[f as int]@);
                    }
                }
                let used_read = if f < fau.len() {
                    if i < fau[f].len() {
                        fau[f][i].read
                    } else {
                        true
                    }
                } else {
                    true
                };
                let wanted = used_read && self.entry_args[i].prologue.contains(stage);
                if wanted {
                    let handle = self.entry_args[i].handle;
                    let ty = self.module.global_variables[handle].ty;
                    let idx = arguments.len() as u32;
                    let aname = clone_name(&self.entry_args[i].name);
                    let binding = self.entry_args[i].binding;
                    arguments.push(FunctionArgument { name: aname, ty, binding: Some(binding) });
                    let pointer = expressions.len();
                    expressions.push(Expression::GlobalVariable(handle));
                    let value = expressions.len();
                    expressions.push(Expression::FunctionArgument(idx));
                    body.push(Statement::Store { pointer, value });
                }
                proof {
                    if read_included(gu, f as int, i as int) && args_g[i as int].prologue.spec_contains(stage) {
                        assert(included_reads(gu, f as int, args_g, stage, (i + 1) as nat)
                            =~= included_reads(gu, f as int, args_g, stage, i as nat).push(i as int));
                    } else {
                        assert(included_reads(gu, f as int, args_g, stage, (i + 1) as nat)
                            =~= included_reads(gu, f as int, args_g, stage, i as nat));
                    }
                }
                i = i + 1;
            }
            let ghost reads = included_reads(gu, f as int, args_g, stage, args_g.len());
            body.push(Statement::Call { function: f, arguments: Vec::new(), result: None });
            let mut span: u32 = 0;
            let mut members: Vec<StructMember> = Vec::new();
            let mut components: Vec<usize> = Vec::new();
            let mut w: usize = 0;
            while w < self.entry_args.len()
                invariant
                    w <= self.entry_args@.len(),
                    *self == selfsnap,
                    fau@.map_values(|v: Vec<EntryArgUse>| v@) == gu,
                    args_g == self.entry_args@,
                    globals_g == self.module.global_variables@,
                    forall|x: int|
                        0 <= x < args_g.len() ==> (#[trigger] args_g[x]).handle < globals_g.len(),
                    forall|g: int|
                        0 <= g < globals_g.len() ==> (#[trigger] globals_g[g]).ty
                            < self.module.types@.len(),
                    reads == included_reads(gu, f as int, args_g, stage, args_g.len()),
                    arguments@.len() == reads.len(),
                    forall|j: int|
                        0 <= j < reads.len() ==> {
                            let a = args_g[reads[j]];
                            &&& (#[trigger] arguments@[j]).ty == globals_g[a.handle as int].ty
                            &&& arguments@[j].binding == Some(a.binding)
                            &&& arguments@[j].name == a.name
                        },
                    forall|j: int|
                        0 <= j < reads.len() ==> #[trigger] expressions@[2 * j]
                            == Expression::GlobalVariable(args_g[reads[j]].handle)
                            && expressions@[2 * j + 1] == Expression::FunctionArgument(j as u32),
                    forall|j: int|
                        0 <= j < reads.len() ==> #[trigger] body@[j] == (Statement::Store {
                            pointer: (2 * j) as usize,
                            value: (2 * j + 1) as usize,
                        }),
                    is_call_stmt(body@[reads.len() as int], f, Seq::empty(), None),
                    ({
                        let writes = included_writes(gu, f as int, args_g, w as nat);
                        &&& members@.len() == writes.len()
                        &&& components@.len() == writes.len()
                        &&& expressions@.len() == 2 * reads.len() + 2 * writes.len()
                        &&& body@.len() == reads.len() + 1 + writes.len()
                        &&& span == write_offset(
                            self.module.types@,
                            globals_g,
                            args_g,
                            writes,
                            writes.len() as int,
                        )
                        &&& (forall|j: int|
                            0 <= j < writes.len() ==> {
                                let a = args_g[writes[j]];
                                &&& (#[trigger] members@[j]).ty == globals_g[a.handle as int].ty
                                &&& members@[j].binding == Some(a.binding)
                                &&& members@[j].name == a.name
                                &&& members@[j].offset == write_offset(
                                    self.module.types@,
                                    globals_g,
                                    args_g,
                                    writes,
                                    j,
                                )
                            })
                        &&& (forall|j: int|
                            0 <= j < writes.len() ==> {
                                &&& #[trigger] expressions@[2 * reads.len() + 2 * j]
                                    == Expression::GlobalVariable(args_g[writes[j]].handle)
                                &&& expressions@[2 * reads.len() + 2 * j + 1] == Expression::Load {
                                    pointer: (2 * reads.len() + 2 * j) as usize,
                                }
                                &&& body@[reads.len() + 1 + j] == Statement::Emit {
                                    start: (2 * reads.len() + 2 * j + 1) as usize,
                                    end: (2 * reads.len() + 2 * j + 2) as usize,
                                }
                            })
                        &&& (forall|j: int|
                            0 <= j < writes.len() ==> #[trigger] components@[j] == (2 * reads.len()
                                + 2 * j + 1) as usize)
                    }),
                decreases self.entry_args@.len() - w,
            {
                proof {
                    if f < fau@.len() {
                        assert(fau@.map_values(|v: Vec<EntryArgUse>| v@)[f as int]
                            == fau@[f as int]@);
                    }
                }
                let used_write = if f < fau.len() {
                    if w < fau[f].len() {
                        fau[f][w].write
                    } else {
                        false
                    }
                } else {
                    false
                };
                if used_write {
                    let handle = self.entry_args[w].handle;
                    let ty = self.module.global_variables[handle].ty;
                    let mname = clone_name(&self.entry_args[w].name);
                    let binding = self.entry_args[w].binding;
                    members.push(StructMember { name: mname, ty, binding: Some(binding), offset: span });
                    let sp = self.module.types[ty].inner.span();
                    span = if span <= u32::MAX - sp {
                        span + sp
                    } else {
                        u32::MAX
                    };
                    let pointer = expressions.len();
                    expressions.push(Expression::GlobalVariable(handle));
                    let load = expressions.len();
                    expressions.push(Expression::Load { pointer });
                    let emit_end = expressions.len();
                    body.push(Statement::Emit { start: load, end: emit_end });
                    components.push(load);
                }
                proof {
                    if write_included(gu, f as int, w as int) {
                        let ws0 = included_writes(gu, f as int, args_g, w as nat);
                        let ws1 = included_writes(gu, f as int, args_g, (w + 1) as nat);
                        assert(ws1 =~= ws0.push(w as int));
                        assert forall|j: int| 0 <= j <= ws0.len() implies write_offset(
                            self.module.types@,
                            globals_g,
                            args_g,
                            ws1,
                            j,
                        ) == write_offset(self.module.types@, globals_g, args_g, ws0, j) by {
                            lemma_write_offset_push(
                                self.module.types@,
                                globals_g,
                                args_g,
                                ws0,
                                w as int,
                                j,
                            );
                        }
                    } else {
                        assert(included_writes(gu, f as int, args_g, (w + 1) as nat)
                            =~= included_writes(gu, f as int, args_g, w as nat));
                    }
                }
                w = w + 1;
            }
            let ghost writes = included_writes(gu, f as int, args_g, args_g.len());
            let ghost types_pre = self.module.types@;
            let result = if components.len() > 0 {
                let tyh = self.module.types.len();
                self.module.types.push(
                    Type { name: None, inner: TypeInner::Struct { members, span } },
                );
                let res = expressions.len();
                let ghost comps = components@;
                proof {
                    assert(comps =~= Seq::new(
                        included_writes(gu, f as int, args_g, args_g.len()).len(),
                        |j: int| (2 * included_reads(gu, f as int, args_g, stage, args_g.len()).len()
                            + 2 * j + 1) as usize,
                    ));
                }
                expressions.push(Expression::Compose { ty: tyh, components });
                body.push(Statement::Emit { start: res, end: res + 1 });
                body.push(Statement::Return { value: Some(res) });
                proof {
                    assert(self.module.types@.subrange(0, types_pre.len() as int) =~= types_pre);
                    assert(self.module.types@.subrange(0, types0.len() as int) =~= types0);
                }
                Some(FunctionResult { ty: tyh, binding: None })
            } else {
                body.push(Statement::Return { value: None });
                None
            };
            let early_depth_test = if self.early_fragment_tests && matches!(
                stage,
                ShaderStage::Fragment,
            ) {
                Some(EarlyDepthTest { conservative: None })
            } else {
                None
            };
            let workgroup_size = if matches!(stage, ShaderStage::Compute) {
                self.workgroup_size
            } else {
                [0, 0, 0]
            };
            let ghost eps_pre = self.module.entry_points@;
            self.module.entry_points.push(
                EntryPoint {
                    name,
                    stage,
                    early_depth_test,
                    workgroup_size,
                    function: Function {
                        name: None,
                        arguments,
                        local_variables: Vec::new(),
                        expressions,
                        body,
                        result,
                    },
                },
            );
            proof {
                let newep = self.module.entry_points@.last();
                lemma_writes_range(gu, f as int, args_g, args_g.len());
                assert(self.module.types@.subrange(0, selfsnap.module.types@.len() as int)
                    =~= selfsnap.module.types@);
                if writes.len() > 0 {
                    lemma_write_offset_stable(
                        types_pre,
                        self.module.types@,
                        globals_g,
                        args_g,
                        writes,
                        writes.len() as int,
                    );
                    assert forall|j: int| 0 <= j < writes.len() implies write_offset(
                        self.module.types@,
                        globals_g,
                        args_g,
                        writes,
                        j,
                    ) == write_offset(types_pre, globals_g, args_g, writes, j) by {
                        lemma_write_offset_stable(
                            types_pre,
                            self.module.types@,
                            globals_g,
                            args_g,
                            writes,
                            j,
                        );
                    }
                }
                assert(entry_point_shape(
                    newep,
                    self.entries@[e as int],
                    gu,
                    args_g,
                    globals_g,
                    self.module.types@,
                    self.early_fragment_tests,
                    self.workgroup_size,
                ));
                assert forall|e2: int| 0 <= e2 < e + 1 implies entry_point_shape(
                    #[trigger] self.module.entry_points@[eps0.len() + e2],
                    self.entries@[e2],
                    gu,
                    args_g,
                    globals_g,
                    self.module.types@,
                    self.early_fragment_tests,
                    self.workgroup_size,
                ) by {
                    if e2 < e {
                        lemma_shape_stable(
                            &self.module.entry_points@[eps0.len() + e2],
                            self.entries@[e2],
                            gu,
                            args_g,
                            globals_g,
                            selfsnap.module.types@,
                            self.module.types@,
                            self.early_fragment_tests,
                            self.workgroup_size,
                        );
                    }
                }
                assert(self.module.entry_points@.subrange(0, eps0.len() as int) =~= eps0);
            }
            e = e + 1;
        }
    }
}

} // verus!
