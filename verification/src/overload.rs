//! User-function overload resolution: the exact-match short circuit, the
//! implicit-widening viability scan, and ambiguity detection.

use vstd::prelude::*;

use crate::program::FunctionDeclaration;
use crate::types::{
    Type, TypeInner, TypeResolution, rt_equals_inner, rt_scalar_kind, spec_rt_equals_inner,
    spec_rt_scalar_kind, spec_type_power, type_power,
};

verus! {

/// Well-formedness of an overload set against the type arena: every
/// parameter handle is valid and each declaration's qualifier list is
/// parallel to its parameter list.
pub open spec fn decls_wf(decls: Seq<FunctionDeclaration>, types: Seq<Type>) -> bool {
    forall|j: int|
        0 <= j < decls.len() ==> {
            &&& (forall|i: int|
                0 <= i < (#[trigger] decls[j]).parameters@.len() ==> (
                #[trigger] decls[j].parameters@[i]) < types.len())
            &&& decls[j].qualifiers@.len() == decls[j].parameters@.len()
        }
}

/// Whether one parameter/argument pair is matched exactly: the declared
/// parameter type and the argument's resolved type are structurally equal.
pub open spec fn pair_exact(
    param: usize,
    arg: TypeResolution,
    types: Seq<Type>,
) -> bool {
    spec_rt_equals_inner(arg, types, types[param as int].inner)
}

/// Whether one parameter/argument pair is viable: exactly matched, or both
/// scalar kinds are ranked with the parameter's rank at least the
/// argument's, so that the argument can be implicitly widened up to the
/// parameter, never narrowed.
pub open spec fn pair_viable(param: usize, arg: TypeResolution, types: Seq<Type>) -> bool {
    pair_exact(param, arg, types) || {
        match (
            types[param as int].inner.spec_scalar_kind(),
            spec_rt_scalar_kind(arg, types),
        ) {
            (Some(pk), Some(ak)) => match (spec_type_power(pk), spec_type_power(ak)) {
                (Some(pp), Some(ap)) => pp >= ap,
                _ => false,
            },
            _ => false,
        }
    }
}

/// Whether a declaration matches the call's argument types exactly.
pub open spec fn decl_exact(
    decl: FunctionDeclaration,
    types: Seq<Type>,
    args: Seq<TypeResolution>,
) -> bool {
    &&& decl.parameters@.len() == args.len()
    &&& forall|i: int|
        0 <= i < args.len() ==> pair_exact(#[trigger] decl.parameters@[i], args[i], types)
}

/// Whether a declaration can accept the call's argument types, each pair
/// exactly or by implicit widening.
pub open spec fn decl_viable(
    decl: FunctionDeclaration,
    types: Seq<Type>,
    args: Seq<TypeResolution>,
) -> bool {
    &&& decl.parameters@.len() == args.len()
    &&& forall|i: int|
        0 <= i < args.len() ==> pair_viable(#[trigger] decl.parameters@[i], args[i], types)
}

/// The first exact match among the first `n` declarations.
pub open spec fn first_exact_upto(
    decls: Seq<FunctionDeclaration>,
    types: Seq<Type>,
    args: Seq<TypeResolution>,
    n: nat,
) -> Option<int>
    decreases n,
{
    if n == 0 {
        None
    } else {
        match first_exact_upto(decls, types, args, (n - 1) as nat) {
            Some(i) => Some(i),
            None => if decl_exact(decls[n - 1], types, args) {
                Some(n - 1)
            } else {
                None
            },
        }
    }
}

/// How many of the first `n` declarations are viable.
pub open spec fn count_viable_upto(
    decls: Seq<FunctionDeclaration>,
    types: Seq<Type>,
    args: Seq<TypeResolution>,
    n: nat,
) -> nat
    decreases n,
{
    if n == 0 {
        0
    } else {
        count_viable_upto(decls, types, args, (n - 1) as nat) + if decl_viable(
            decls[n - 1],
            types,
            args,
        ) {
            1nat
        } else {
            0nat
        }
    }
}

/// The first viable declaration among the first `n`.
pub open spec fn first_viable_upto(
    decls: Seq<FunctionDeclaration>,
    types: Seq<Type>,
    args: Seq<TypeResolution>,
    n: nat,
) -> Option<int>
    decreases n,
{
    if n == 0 {
        None
    } else {
        match first_viable_upto(decls, types, args, (n - 1) as nat) {
            Some(i) => Some(i),
            None => if decl_viable(decls[n - 1], types, args) {
                Some(n - 1)
            } else {
                None
            },
        }
    }
}

/// The outcome of scanning an overload set, at the specification level.
pub enum OverloadChoice {
    /// The index of the declaration that the call binds to.
    Found(int),
    /// More than one non-exact candidate survives and none is exact.
    Ambiguous,
    /// No candidate accepts the argument types.
    NoMatch,
}

/// The selection rule over a whole overload set: the first exact match
/// always wins; failing that, a single viable candidate wins; two or more
/// viable candidates are ambiguous; none is an unknown function.
pub open spec fn spec_resolve_overload(
    decls: Seq<FunctionDeclaration>,
    types: Seq<Type>,
    args: Seq<TypeResolution>,
) -> OverloadChoice {
    match first_exact_upto(decls, types, args, decls.len()) {
        Some(i) => OverloadChoice::Found(i),
        None => {
            let viable = count_viable_upto(decls, types, args, decls.len());
            if viable == 0 {
                OverloadChoice::NoMatch
            } else if viable == 1 {
                match first_viable_upto(decls, types, args, decls.len()) {
                    Some(i) => OverloadChoice::Found(i),
                    None => OverloadChoice::NoMatch,
                }
            } else {
                OverloadChoice::Ambiguous
            }
        },
    }
}

/// The executable outcome of scanning an overload set.
pub enum OverloadOutcome {
    Found(usize),
    Ambiguous,
    NoMatch,
}

/// Whether an executable outcome agrees with the spec-level choice.
pub open spec fn overload_outcome_matches(s: OverloadChoice, r: OverloadOutcome) -> bool {
    match (s, r) {
        (OverloadChoice::Found(i), OverloadOutcome::Found(j)) => i == j,
        (OverloadChoice::Ambiguous, OverloadOutcome::Ambiguous) => true,
        (OverloadChoice::NoMatch, OverloadOutcome::NoMatch) => true,
        _ => false,
    }
}

/// Whether a declaration matches the arguments exactly, decided.
fn is_exact(decl: &FunctionDeclaration, types: &Vec<Type>, args: &Vec<TypeResolution>) -> (r: bool)
    requires
        forall|i: int|
            0 <= i < decl.parameters@.len() ==> (#[trigger] decl.parameters@[i]) < types@.len(),
    ensures
        r == decl_exact(*decl, types@, args@),
{
    if decl.parameters.len() != args.len() {
        return false;
    }
    let mut i: usize = 0;
    while i < args.len()
        invariant
            i <= args@.len(),
            decl.parameters@.len() == args@.len(),
            forall|j: int|
                0 <= j < decl.parameters@.len() ==> (#[trigger] decl.parameters@[j])
                    < types@.len(),
            forall|j: int| 0 <= j < i ==> pair_exact(#[trigger] decl.parameters@[j], args@[j], types@),
        decreases args@.len() - i,
    {
        if !rt_equals_inner(args[i], types, &types[decl.parameters[i]].inner) {
            return false;
        }
        i = i + 1;
    }
    true
}

/// Whether a declaration can accept the arguments, decided.
fn is_viable(decl: &FunctionDeclaration, types: &Vec<Type>, args: &Vec<TypeResolution>) -> (r: bool)
    requires
        forall|i: int|
            0 <= i < decl.parameters@.len() ==> (#[trigger] decl.parameters@[i]) < types@.len(),
    ensures
        r == decl_viable(*decl, types@, args@),
{
    if decl.parameters.len() != args.len() {
        return false;
    }
    let mut i: usize = 0;
    while i < args.len()
        invariant
            i <= args@.len(),
            decl.parameters@.len() == args@.len(),
            forall|j: int|
                0 <= j < decl.parameters@.len() ==> (#[trigger] decl.parameters@[j])
                    < types@.len(),
            forall|j: int|
                0 <= j < i ==> pair_viable(#[trigger] decl.parameters@[j], args@[j], types@),
        decreases args@.len() - i,
    {
        let param = decl.parameters[i];
        let same = rt_equals_inner(args[i], types, &types[param].inner);
        if !same {
            let widening = match (
                types[param].inner.scalar_kind(),
                rt_scalar_kind(args[i], types),
            ) {
                (Some(pk), Some(ak)) => match (type_power(pk), type_power(ak)) {
                    (Some(pp), Some(ap)) => pp >= ap,
                    _ => false,
                },
                _ => false,
            };
            if !widening {
                return false;
            }
        }
        i = i + 1;
    }
    true
}

/// Scans an overload set for the declaration a call with the given
/// argument types binds to: the first exact match if one exists, else the
/// single viable candidate; two or more viable candidates without an exact
/// match are ambiguous, and none means no function accepts the call.
pub fn resolve_overload(
    decls: &Vec<FunctionDeclaration>,
    types: &Vec<Type>,
    args: &Vec<TypeResolution>,
) -> (r: OverloadOutcome)
    requires
        decls_wf(decls@, types@),
    ensures
        overload_outcome_matches(spec_resolve_overload(decls@, types@, args@), r),
        r matches OverloadOutcome::Found(i) ==> i < decls@.len(),
{
    let mut i: usize = 0;
    while i < decls.len()
        invariant
            i <= decls@.len(),
            decls_wf(decls@, types@),
            first_exact_upto(decls@, types@, args@, i as nat) is None,
        decreases decls@.len() - i,
    {
        proof {
            assert(decls_wf(decls@, types@));
        }
        if is_exact(&decls[i], types, args) {
            proof {
                lemma_first_upto_extends(decls@, types@, args@, i as nat);
            }
            return OverloadOutcome::Found(i);
        }
        i = i + 1;
    }
    let mut count: usize = 0;
    let mut found: usize = 0;
    let mut any = false;
    let mut j: usize = 0;
    while j < decls.len()
        invariant
            j <= decls@.len(),
            decls_wf(decls@, types@),
            count == count_viable_upto(decls@, types@, args@, j as nat),
            count <= j,
            any ==> found < j,
            if any {
                first_viable_upto(decls@, types@, args@, j as nat) == Some(found as int)
            } else {
                first_viable_upto(decls@, types@, args@, j as nat) is None && count == 0
            },
        decreases decls@.len() - j,
    {
        if is_viable(&decls[j], types, args) {
            if !any {
                found = j;
                any = true;
            }
            count = count + 1;
        }
        j = j + 1;
    }
    if count == 0 {
        OverloadOutcome::NoMatch
    } else if count == 1 {
        OverloadOutcome::Found(found)
    } else {
        OverloadOutcome::Ambiguous
    }
}

/// Extending a prefix with an exact match makes the search find it.
proof fn lemma_first_upto_extends(
    decls: Seq<FunctionDeclaration>,
    types: Seq<Type>,
    args: Seq<TypeResolution>,
    i: nat,
)
    requires
        i < decls.len(),
        first_exact_upto(decls, types, args, i) is None,
        decl_exact(decls[i as int], types, args),
    ensures
        forall|n: nat|
            i < n <= decls.len() ==> first_exact_upto(decls, types, args, n) == Some(i as int),
    decreases decls.len(),
{
    assert forall|n: nat|
        i < n <= decls.len() implies first_exact_upto(decls, types, args, n) == Some(
        i as int,
    ) by {
        lemma_first_upto_stable(decls, types, args, i, n);
    }
}

/// Once a prefix search finds the exact match at `i`, every longer prefix
/// finds the same one.
proof fn lemma_first_upto_stable(
    decls: Seq<FunctionDeclaration>,
    types: Seq<Type>,
    args: Seq<TypeResolution>,
    i: nat,
    n: nat,
)
    requires
        i < n <= decls.len(),
        first_exact_upto(decls, types, args, i) is None,
        decl_exact(decls[i as int], types, args),
    ensures
        first_exact_upto(decls, types, args, n) == Some(i as int),
    decreases n,
{
    if n == i + 1 {
    } else {
        lemma_first_upto_stable(decls, types, args, i, (n - 1) as nat);
    }
}

/// An exact candidate anywhere in the set means resolution binds the call
/// to an exact candidate: the first one, never an ambiguity and never a
/// failure, whatever other candidates are reachable by widening.
pub proof fn lemma_exact_overload_wins(
    decls: Seq<FunctionDeclaration>,
    types: Seq<Type>,
    args: Seq<TypeResolution>,
    k: int,
)
    requires
        0 <= k < decls.len(),
        decl_exact(decls[k], types, args),
    ensures
        spec_resolve_overload(decls, types, args) matches OverloadChoice::Found(i) && 0 <= i <= k
            && decl_exact(decls[i], types, args) && (forall|j: int|
            0 <= j < i ==> !decl_exact(#[trigger] decls[j], types, args)),
{
    lemma_first_exact_found(decls, types, args, decls.len());
}

/// Over any prefix that contains an exact candidate, the search finds the
/// first one.
pub proof fn lemma_first_exact_found(
    decls: Seq<FunctionDeclaration>,
    types: Seq<Type>,
    args: Seq<TypeResolution>,
    n: nat,
)
    requires
        n <= decls.len(),
    ensures
        match first_exact_upto(decls, types, args, n) {
            Some(i) => 0 <= i < n && decl_exact(decls[i], types, args) && (forall|j: int|
                0 <= j < i ==> !decl_exact(#[trigger] decls[j], types, args)),
            None => forall|j: int| 0 <= j < n ==> !decl_exact(#[trigger] decls[j], types, args),
        },
    decreases n,
{
    if n > 0 {
        lemma_first_exact_found(decls, types, args, (n - 1) as nat);
    }
}


/// A hit of the viable search is a viable candidate in range.
pub proof fn lemma_first_viable_found(
    decls: Seq<FunctionDeclaration>,
    types: Seq<Type>,
    args: Seq<TypeResolution>,
    n: nat,
)
    requires
        n <= decls.len(),
    ensures
        match first_viable_upto(decls, types, args, n) {
            Some(i) => 0 <= i < n && decl_viable(decls[i], types, args),
            None => true,
        },
    decreases n,
{
    if n > 0 {
        lemma_first_viable_found(decls, types, args, (n - 1) as nat);
    }
}

/// The declaration a call binds to accepts the call's argument count.
pub proof fn lemma_found_accepts(
    decls: Seq<FunctionDeclaration>,
    types: Seq<Type>,
    args: Seq<TypeResolution>,
)
    ensures
        match spec_resolve_overload(decls, types, args) {
            OverloadChoice::Found(i) => 0 <= i < decls.len() && decls[i].parameters@.len()
                == args.len(),
            _ => true,
        },
{
    lemma_first_exact_found(decls, types, args, decls.len());
    lemma_first_viable_found(decls, types, args, decls.len());
}

/// With no exact candidate and two distinct candidates both reachable by
/// widening, resolution reports the call as ambiguous.
pub proof fn lemma_two_viable_is_ambiguous(
    decls: Seq<FunctionDeclaration>,
    types: Seq<Type>,
    args: Seq<TypeResolution>,
    j1: int,
    j2: int,
)
    requires
        0 <= j1 < j2 < decls.len(),
        decl_viable(decls[j1], types, args),
        decl_viable(decls[j2], types, args),
        forall|j: int| 0 <= j < decls.len() ==> !decl_exact(#[trigger] decls[j], types, args),
    ensures
        spec_resolve_overload(decls, types, args) is Ambiguous,
{
    lemma_no_exact_none(decls, types, args, decls.len());
    lemma_count_at_least_two(decls, types, args, j1, j2, decls.len());
}

/// A prefix without exact candidates makes the exact search come up empty.
proof fn lemma_no_exact_none(
    decls: Seq<FunctionDeclaration>,
    types: Seq<Type>,
    args: Seq<TypeResolution>,
    n: nat,
)
    requires
        n <= decls.len(),
        forall|j: int| 0 <= j < n ==> !decl_exact(#[trigger] decls[j], types, args),
    ensures
        first_exact_upto(decls, types, args, n) is None,
    decreases n,
{
    if n > 0 {
        lemma_no_exact_none(decls, types, args, (n - 1) as nat);
    }
}

/// A viable candidate below `n` contributes to the viable count.
proof fn lemma_count_at_least_one(
    decls: Seq<FunctionDeclaration>,
    types: Seq<Type>,
    args: Seq<TypeResolution>,
    k: int,
    n: nat,
)
    requires
        0 <= k < n <= decls.len(),
        decl_viable(decls[k], types, args),
    ensures
        count_viable_upto(decls, types, args, n) >= 1,
    decreases n,
{
    if k < n - 1 {
        lemma_count_at_least_one(decls, types, args, k, (n - 1) as nat);
    }
}

/// Two distinct viable candidates below `n` push the viable count to two.
proof fn lemma_count_at_least_two(
    decls: Seq<FunctionDeclaration>,
    types: Seq<Type>,
    args: Seq<TypeResolution>,
    j1: int,
    j2: int,
    n: nat,
)
    requires
        0 <= j1 < j2 < n <= decls.len(),
        decl_viable(decls[j1], types, args),
        decl_viable(decls[j2], types, args),
    ensures
        count_viable_upto(decls, types, args, n) >= 2,
    decreases n,
{
    if j2 < n - 1 {
        lemma_count_at_least_two(decls, types, args, j1, j2, (n - 1) as nat);
    } else {
        lemma_count_at_least_one(decls, types, args, j1, (n - 1) as nat);
    }
}

} // verus!
