//! Registration of user function definitions and prototypes into the
//! overload table, and of entry-point bodies into the entry list.

use vstd::prelude::*;

use crate::error::{ErrorKind, SourceMetadata};
use crate::hir::ParameterQualifier;
use crate::ir::{Function, ShaderStage, ensure_block_returns, is_return, Statement};
use crate::calls::spec_lookup_name;
use crate::program::{FunctionDeclaration, Program};
use crate::types::{Type, type_inner_eq, type_inner_equal};

verus! {

/// The stage recorded for an entry-point name, if any: the first entry
/// with that name.
pub open spec fn spec_entry_stage(
    entries: Seq<(String, ShaderStage)>,
    name: Seq<char>,
) -> Option<ShaderStage>
    decreases entries.len(),
{
    if entries.len() == 0 {
        None
    } else if entries[0].0@ == name {
        Some(entries[0].1)
    } else {
        spec_entry_stage(entries.drop_first(), name)
    }
}

/// Whether two parameter lists declare the same overload: equal length and
/// structurally equal parameter types, handle by handle.
pub open spec fn spec_params_match(types: Seq<Type>, a: Seq<usize>, b: Seq<usize>) -> bool {
    &&& a.len() == b.len()
    &&& forall|i: int|
        0 <= i < a.len() ==> type_inner_equal(
            types[(#[trigger] a[i]) as int].inner,
            types[b[i] as int].inner,
        )
}

/// The first declaration among the first `n` whose parameter types match.
pub open spec fn spec_find_matching(
    decls: Seq<FunctionDeclaration>,
    types: Seq<Type>,
    params: Seq<usize>,
    n: nat,
) -> Option<int>
    decreases n,
{
    if n == 0 {
        None
    } else {
        match spec_find_matching(decls, types, params, (n - 1) as nat) {
            Some(i) => Some(i),
            None => if spec_params_match(types, params, decls[n - 1].parameters@) {
                Some(n - 1)
            } else {
                None
            },
        }
    }
}

/// Whether `stored` is `given` with its body terminated by
/// [`ensure_block_returns`] and everything else untouched.
pub open spec fn function_stored(stored: Function, given: Function) -> bool {
    &&& stored.name == given.name
    &&& stored.arguments == given.arguments
    &&& stored.local_variables == given.local_variables
    &&& stored.expressions == given.expressions
    &&& stored.result == given.result
    &&& stored.body@ == if given.body@.len() > 0 && is_return(given.body@.last()) {
        given.body@
    } else {
        given.body@.push(Statement::Return { value: None })
    }
}

/// Decides [`spec_params_match`].
fn params_equal(types: &Vec<Type>, a: &Vec<usize>, b: &Vec<usize>) -> (r: bool)
    requires
        forall|i: int| 0 <= i < a@.len() ==> (#[trigger] a@[i]) < types@.len(),
        forall|i: int| 0 <= i < b@.len() ==> (#[trigger] b@[i]) < types@.len(),
    ensures
        r == spec_params_match(types@, a@, b@),
{
    if a.len() != b.len() {
        return false;
    }
    let mut i: usize = 0;
    while i < a.len()
        invariant
            i <= a@.len(),
            a@.len() == b@.len(),
            forall|j: int| 0 <= j < a@.len() ==> (#[trigger] a@[j]) < types@.len(),
            forall|j: int| 0 <= j < b@.len() ==> (#[trigger] b@[j]) < types@.len(),
            forall|j: int|
                0 <= j < i ==> type_inner_equal(
                    types@[(#[trigger] a@[j]) as int].inner,
                    types@[b@[j] as int].inner,
                ),
        decreases a@.len() - i,
    {
        if !type_inner_eq(&types[a[i]].inner, &types[b[i]].inner) {
            return false;
        }
        i = i + 1;
    }
    true
}


/// What a hit of the matching-declaration search means.
proof fn lemma_find_matching_is_match(
    decls: Seq<FunctionDeclaration>,
    types: Seq<Type>,
    params: Seq<usize>,
    n: nat,
)
    requires
        n <= decls.len(),
    ensures
        match spec_find_matching(decls, types, params, n) {
            Some(i) => 0 <= i < n && spec_params_match(types, params, decls[i].parameters@),
            None => true,
        },
    decreases n,
{
    if n > 0 {
        lemma_find_matching_is_match(decls, types, params, (n - 1) as nat);
    }
}

/// A match found among a prefix is found by every longer prefix.
proof fn lemma_find_matching_stable(
    decls: Seq<FunctionDeclaration>,
    types: Seq<Type>,
    params: Seq<usize>,
    i: nat,
    n: nat,
)
    requires
        i < n <= decls.len(),
        spec_find_matching(decls, types, params, i) is None,
        spec_params_match(types, params, decls[i as int].parameters@),
    ensures
        spec_find_matching(decls, types, params, n) == Some(i as int),
    decreases n,
{
    if n > i + 1 {
        lemma_find_matching_stable(decls, types, params, i, (n - 1) as nat);
    }
}

/// The stage lookup agrees with a left-to-right scan.
proof fn lemma_entry_stage_scan(entries: Seq<(String, ShaderStage)>, name: Seq<char>, i: nat)
    requires
        i <= entries.len(),
        forall|j: int| 0 <= j < i ==> #[trigger] entries[j].0@ != name,
    ensures
        spec_entry_stage(entries, name) == if i < entries.len() && entries[i as int].0@ == name {
            Some(entries[i as int].1)
        } else {
            spec_entry_stage(entries.skip(i as int), name)
        },
    decreases i,
{
    if i > 0 {
        lemma_entry_stage_scan(entries, name, (i - 1) as nat);
        assert(entries.skip(i as int - 1).drop_first() =~= entries.skip(i as int));
    } else {
        assert(entries.skip(0) =~= entries);
    }
}

impl Program {
    /// The stage recorded for an entry-point name.
    fn entry_stage(&self, name: &String) -> (r: Option<ShaderStage>)
        ensures
            r == spec_entry_stage(self.entry_points@, name@),
    {
        let mut i: usize = 0;
        while i < self.entry_points.len()
            invariant
                i <= self.entry_points@.len(),
                forall|j: int| 0 <= j < i ==> #[trigger] self.entry_points@[j].0@ != name@,
        decreases self.entry_points@.len() - i,
        {
            if self.entry_points[i].0 == *name {
                proof {
                    lemma_entry_stage_scan(self.entry_points@, name@, i as nat);
                }
                return Some(self.entry_points[i].1);
            }
            i = i + 1;
        }
        proof {
            lemma_entry_stage_scan(self.entry_points@, name@, i as nat);
            assert(self.entry_points@.skip(i as int) =~= Seq::<(String, ShaderStage)>::empty());
        }
        None
    }
}

impl Program {
    /// Validity of the overload table's function handles against the
    /// module's function arena.
    pub open spec fn decl_handles_wf(self) -> bool {
        forall|d: int, j: int|
            0 <= d < self.lookup_function@.len() && 0 <= j < (
            #[trigger] self.lookup_function@[d]).1@.len() ==> (
            #[trigger] self.lookup_function@[d].1@[j]).handle < self.module.functions@.len()
    }

    /// Registers a full function definition.
    ///
    /// A name recorded as an entry point is appended to the function arena
    /// and to the entry list, with a fresh usage record, and never enters
    /// the overload table.  Otherwise the overload set of the name is
    /// scanned for a declaration with structurally equal parameter types:
    /// redefining a defined overload is an error; a previously prototyped
    /// overload receives the body, the qualifiers and the defined flag in
    /// place; a new overload is appended to the function arena and the
    /// overload set.  The registered body is terminated by a return first.
    #[verifier::rlimit(100)]
    pub fn add_function(
        &mut self,
        function: Function,
        name: String,
        parameters: Vec<usize>,
        qualifiers: Vec<ParameterQualifier>,
        meta: SourceMetadata,
    ) -> (r: Result<usize, ErrorKind>)
        requires
            old(self).overloads_wf(),
            old(self).decl_handles_wf(),
            forall|i: int|
                0 <= i < parameters@.len() ==> (#[trigger] parameters@[i])
                    < old(self).module.types@.len(),
            qualifiers@.len() == parameters@.len(),
        ensures
            final(self).overloads_wf(),
            final(self).decl_handles_wf(),
            final(self).module.types@ == old(self).module.types@,
            final(self).module.global_variables@ == old(self).module.global_variables@,
            final(self).module.entry_points@ == old(self).module.entry_points@,
            final(self).entry_points@ == old(self).entry_points@,
            final(self).entry_args@ == old(self).entry_args@,
            final(self).early_fragment_tests == old(self).early_fragment_tests,
            final(self).workgroup_size == old(self).workgroup_size,
            ({
                let h = old(self).module.functions@.len();
                match spec_entry_stage(old(self).entry_points@, name@) {
                    Some(stage) => {
                        &&& r matches Ok(rh) && rh == h
                        &&& final(self).module.functions@.len() == h + 1
                        &&& final(self).module.functions@.subrange(0, h as int) == old(self).module.functions@
                        &&& function_stored(final(self).module.functions@.last(), function)
                        &&& final(self).entries@ == old(self).entries@.push(
                            (name, stage, h as usize),
                        )
                        &&& final(self).function_arg_use@.len() == old(self).function_arg_use@.len() + 1
                        &&& final(self).function_arg_use@.subrange(
                            0,
                            old(self).function_arg_use@.len() as int,
                        ) == old(self).function_arg_use@
                        &&& final(self).function_arg_use@.last()@.len() == 0
                        &&& final(self).lookup_function@ == old(self).lookup_function@
                    },
                    None => {
                        let void = function.result is None;
                        &&& final(self).entries@ == old(self).entries@
                        &&& match spec_lookup_name(old(self).lookup_function@, name@) {
                            Some(li) => {
                                let decls = old(self).lookup_function@[li].1@;
                                match spec_find_matching(
                                    decls,
                                    old(self).module.types@,
                                    parameters@,
                                    decls.len(),
                                ) {
                                    Some(dj) => if decls[dj].defined {
                                        &&& r == Err::<usize, ErrorKind>(
                                            ErrorKind::FunctionAlreadyDefined { meta },
                                        )
                                        &&& final(self).lookup_function@ == old(self).lookup_function@
                                        &&& final(self).module.functions@ == old(self).module.functions@
                                        &&& final(self).function_arg_use@ == old(self).function_arg_use@
                                    } else {
                                        &&& r matches Ok(rh) && rh == decls[dj].handle
                                        &&& final(self).function_arg_use@ == old(self).function_arg_use@
                                        &&& final(self).lookup_function@.len() == old(self).lookup_function@.len()
                                        &&& (forall|l2: int|
                                            0 <= l2 < old(self).lookup_function@.len() && l2 != li
                                                ==> final(self).lookup_function@[l2] == old(self).lookup_function@[l2])
                                        &&& final(self).lookup_function@[li].0 == old(self).lookup_function@[li].0
                                        &&& final(self).lookup_function@[li].1@ == decls.update(
                                            dj,
                                            FunctionDeclaration {
                                                qualifiers,
                                                defined: true,
                                                ..decls[dj]
                                            },
                                        )
                                        &&& final(self).module.functions@.len() == old(self).module.functions@.len()
                                        &&& (forall|k: int|
                                            0 <= k < old(self).module.functions@.len() && k
                                                != decls[dj].handle ==> final(self).module.functions@[k] == old(self).module.functions@[k])
                                        &&& function_stored(
                                            final(self).module.functions@[decls[dj].handle as int],
                                            function,
                                        )
                                    },
                                    None => {
                                        &&& r matches Ok(rh) && rh == h
                                        &&& final(self).module.functions@.len() == h + 1
                                        &&& final(self).module.functions@.subrange(0, h as int)
                                            == old(self).module.functions@
                                        &&& function_stored(
                                            final(self).module.functions@.last(),
                                            function,
                                        )
                                        &&& final(self).function_arg_use@.len() == old(self).function_arg_use@.len() + 1
                                        &&& final(self).function_arg_use@.subrange(
                                            0,
                                            old(self).function_arg_use@.len() as int,
                                        ) == old(self).function_arg_use@
                                        &&& final(self).function_arg_use@.last()@.len() == 0
                                        &&& final(self).lookup_function@.len() == old(self).lookup_function@.len()
                                        &&& (forall|l2: int|
                                            0 <= l2 < old(self).lookup_function@.len() && l2 != li
                                                ==> final(self).lookup_function@[l2] == old(self).lookup_function@[l2])
                                        &&& final(self).lookup_function@[li].0 == old(self).lookup_function@[li].0
                                        &&& final(self).lookup_function@[li].1@ == decls.push(
                                            FunctionDeclaration {
                                                parameters,
                                                qualifiers,
                                                handle: h as usize,
                                                defined: true,
                                                void,
                                            },
                                        )
                                    },
                                }
                            },
                            None => {
                                &&& r matches Ok(rh) && rh == h
                                &&& final(self).module.functions@.len() == h + 1
                                &&& final(self).module.functions@.subrange(0, h as int) == old(self).module.functions@
                                &&& function_stored(final(self).module.functions@.last(), function)
                                &&& final(self).function_arg_use@.len() == old(self).function_arg_use@.len() + 1
                                &&& final(self).function_arg_use@.subrange(
                                    0,
                                    old(self).function_arg_use@.len() as int,
                                ) == old(self).function_arg_use@
                                &&& final(self).function_arg_use@.last()@.len() == 0
                                &&& final(self).lookup_function@.len() == old(self).lookup_function@.len() + 1
                                &&& final(self).lookup_function@.subrange(
                                    0,
                                    old(self).lookup_function@.len() as int,
                                ) == old(self).lookup_function@
                                &&& final(self).lookup_function@.last().0 == name
                                &&& final(self).lookup_function@.last().1@.len() == 1
                                &&& final(self).lookup_function@.last().1@[0]
                                    == (FunctionDeclaration {
                                    parameters,
                                    qualifiers,
                                    handle: h as usize,
                                    defined: true,
                                    void,
                                })
                            },
                        }
                    },
                }
            }),
    {
        let mut function = function;
        ensure_block_returns(&mut function.body);
        let stage = self.entry_stage(&name);
        if let Some(stage) = stage {
            let handle = self.module.functions.len();
            self.module.functions.push(function);
            self.entries.push((name, stage, handle));
            self.function_arg_use.push(Vec::new());
            proof {
                assert(self.module.functions@.subrange(
                    0,
                    old(self).module.functions@.len() as int,
                ) =~= old(self).module.functions@);
                assert(self.function_arg_use@.subrange(
                    0,
                    old(self).function_arg_use@.len() as int,
                ) =~= old(self).function_arg_use@);
                assert forall|d: int, j: int|
                    0 <= d < self.lookup_function@.len() && 0 <= j < (
                    #[trigger] self.lookup_function@[d]).1@.len() implies (
                #[trigger] self.lookup_function@[d].1@[j]).handle
                    < self.module.functions@.len() by {
                    assert(old(self).lookup_function@[d].1@[j].handle
                        < old(self).module.functions@.len());
                }
            }
            return Ok(handle);
        }
        let void = function.result.is_none();
        match self.lookup_name(&name) {
            Some(li) => {
                let ghost decls = self.lookup_function@[li as int].1@;
                let n = self.lookup_function[li].1.len();
                let mut dj: usize = 0;
                let mut found: Option<usize> = None;
                while dj < n
                    invariant
                        dj <= n,
                        *self == *old(self),
                        n == self.lookup_function@[li as int].1@.len(),
                        li < self.lookup_function@.len(),
                        decls == self.lookup_function@[li as int].1@,
                        self.overloads_wf(),
                        forall|i: int|
                            0 <= i < parameters@.len() ==> (#[trigger] parameters@[i])
                                < self.module.types@.len(),
                        match found {
                            Some(f) => f < dj && spec_find_matching(
                                decls,
                                self.module.types@,
                                parameters@,
                                dj as nat,
                            ) == Some(f as int),
                            None => spec_find_matching(
                                decls,
                                self.module.types@,
                                parameters@,
                                dj as nat,
                            ) is None,
                        },
                    decreases n - dj,
                {
                    proof {
                        assert(decls_wf_unfold(self, li as int, dj as int));
                    }
                    if found.is_none() && params_equal(
                        &self.module.types,
                        &parameters,
                        &self.lookup_function[li].1[dj].parameters,
                    ) {
                        found = Some(dj);
                    }
                    dj = dj + 1;
                }
                match found {
                    Some(dj) => {
                        if self.lookup_function[li].1[dj].defined {
                            return Err(ErrorKind::FunctionAlreadyDefined { meta });
                        }
                        let handle = self.lookup_function[li].1[dj].handle;
                        proof {
                            assert(handles_wf_unfold(self, li as int, dj as int));
                        }
                        self.lookup_function[li].1[dj].defined = true;
                        self.lookup_function[li].1[dj].qualifiers = qualifiers;
                        self.module.functions[handle] = function;
                        proof {
                            assert(self.lookup_function@[li as int].1@ =~= decls.update(
                                dj as int,
                                FunctionDeclaration {
                                    qualifiers,
                                    defined: true,
                                    ..decls[dj as int]
                                },
                            ));
                            lemma_find_matching_is_match(
                                decls,
                                self.module.types@,
                                parameters@,
                                decls.len(),
                            );
                            assert forall|d: int|
                                0 <= d < self.lookup_function@.len() implies crate::overload::decls_wf(
                                (#[trigger] self.lookup_function@[d]).1@,
                                self.module.types@,
                            ) by {
                                assert(crate::overload::decls_wf(
                                    old(self).lookup_function@[d].1@,
                                    self.module.types@,
                                ));
                            }
                            assert forall|d: int, j: int|
                                0 <= d < self.lookup_function@.len() && 0 <= j < (
                                #[trigger] self.lookup_function@[d]).1@.len() implies (
                            #[trigger] self.lookup_function@[d].1@[j]).handle
                                < self.module.functions@.len() by {
                                assert(old(self).lookup_function@[d].1@[j].handle
                                    < old(self).module.functions@.len());
                            }
                        }
                        Ok(handle)
                    },
                    None => {
                        self.function_arg_use.push(Vec::new());
                        let handle = self.module.functions.len();
                        self.module.functions.push(function);
                        self.lookup_function[li].1.push(
                            FunctionDeclaration {
                                parameters,
                                qualifiers,
                                handle,
                                defined: true,
                                void,
                            },
                        );
                        proof {
                            assert forall|d: int|
                                0 <= d < self.lookup_function@.len() implies crate::overload::decls_wf(
                                (#[trigger] self.lookup_function@[d]).1@,
                                self.module.types@,
                            ) by {
                                assert(crate::overload::decls_wf(
                                    old(self).lookup_function@[d].1@,
                                    self.module.types@,
                                ));
                            }
                            assert forall|d: int, j: int|
                                0 <= d < self.lookup_function@.len() && 0 <= j < (
                                #[trigger] self.lookup_function@[d]).1@.len() implies (
                            #[trigger] self.lookup_function@[d].1@[j]).handle
                                < self.module.functions@.len() by {
                                if !(d == li && j == old(self).lookup_function@[li as int].1@.len()) {
                                    assert(old(self).lookup_function@[d].1@[j].handle
                                        < old(self).module.functions@.len());
                                }
                            }
                            assert(self.module.functions@.subrange(
                                0,
                                old(self).module.functions@.len() as int,
                            ) =~= old(self).module.functions@);
                            assert(self.function_arg_use@.subrange(
                                0,
                                old(self).function_arg_use@.len() as int,
                            ) =~= old(self).function_arg_use@);
                        }
                        Ok(handle)
                    },
                }
            },
            None => {
                self.function_arg_use.push(Vec::new());
                let handle = self.module.functions.len();
                self.module.functions.push(function);
                let mut decls: Vec<FunctionDeclaration> = Vec::new();
                decls.push(
                    FunctionDeclaration { parameters, qualifiers, handle, defined: true, void },
                );
                self.lookup_function.push((name, decls));
                proof {
                    assert forall|d: int|
                        0 <= d < self.lookup_function@.len() implies crate::overload::decls_wf(
                        (#[trigger] self.lookup_function@[d]).1@,
                        self.module.types@,
                    ) by {
                        if d < old(self).lookup_function@.len() {
                            assert(crate::overload::decls_wf(
                                old(self).lookup_function@[d].1@,
                                self.module.types@,
                            ));
                        }
                    }
                    assert forall|d: int, j: int|
                        0 <= d < self.lookup_function@.len() && 0 <= j < (
                        #[trigger] self.lookup_function@[d]).1@.len() implies (
                    #[trigger] self.lookup_function@[d].1@[j]).handle
                        < self.module.functions@.len() by {
                        if d < old(self).lookup_function@.len() {
                            assert(old(self).lookup_function@[d].1@[j].handle
                                < old(self).module.functions@.len());
                        }
                    }
                    assert(self.module.functions@.subrange(
                        0,
                        old(self).module.functions@.len() as int,
                    ) =~= old(self).module.functions@);
                    assert(self.function_arg_use@.subrange(
                        0,
                        old(self).function_arg_use@.len() as int,
                    ) =~= old(self).function_arg_use@);
                    assert(self.lookup_function@.subrange(
                        0,
                        old(self).lookup_function@.len() as int,
                    ) =~= old(self).lookup_function@);
                }
                Ok(handle)
            },
        }
    }

    /// Registers a function prototype.
    ///
    /// The overload set of the name is scanned for a declaration with
    /// structurally equal parameter types: repeating one, prototyped or
    /// defined, is an error; otherwise a placeholder function is appended
    /// to the function arena and an undefined declaration to the overload
    /// set, with a fresh usage record.
    #[verifier::rlimit(100)]
    pub fn add_prototype(
        &mut self,
        function: Function,
        name: String,
        parameters: Vec<usize>,
        qualifiers: Vec<ParameterQualifier>,
        meta: SourceMetadata,
    ) -> (r: Result<(), ErrorKind>)
        requires
            old(self).overloads_wf(),
            old(self).decl_handles_wf(),
            forall|i: int|
                0 <= i < parameters@.len() ==> (#[trigger] parameters@[i])
                    < old(self).module.types@.len(),
            qualifiers@.len() == parameters@.len(),
        ensures
            final(self).overloads_wf(),
            final(self).decl_handles_wf(),
            final(self).module.types@ == old(self).module.types@,
            final(self).module.global_variables@ == old(self).module.global_variables@,
            final(self).module.entry_points@ == old(self).module.entry_points@,
            final(self).entry_points@ == old(self).entry_points@,
            final(self).entries@ == old(self).entries@,
            final(self).entry_args@ == old(self).entry_args@,
            final(self).early_fragment_tests == old(self).early_fragment_tests,
            final(self).workgroup_size == old(self).workgroup_size,
            ({
                let h = old(self).module.functions@.len();
                let void = function.result is None;
                match spec_lookup_name(old(self).lookup_function@, name@) {
                    Some(li) => {
                        let decls = old(self).lookup_function@[li].1@;
                        match spec_find_matching(
                            decls,
                            old(self).module.types@,
                            parameters@,
                            decls.len(),
                        ) {
                            Some(_) => {
                                &&& r == Err::<(), ErrorKind>(
                                    ErrorKind::PrototypeAlreadyDefined { meta },
                                )
                                &&& final(self).lookup_function@ == old(self).lookup_function@
                                &&& final(self).module.functions@ == old(self).module.functions@
                                &&& final(self).function_arg_use@ == old(self).function_arg_use@
                            },
                            None => {
                                &&& r is Ok
                                &&& final(self).module.functions@.len() == h + 1
                                &&& final(self).module.functions@.subrange(0, h as int) == old(
                                    self,
                                ).module.functions@
                                &&& final(self).module.functions@.last() == function
                                &&& final(self).function_arg_use@.len() == old(
                                    self,
                                ).function_arg_use@.len() + 1
                                &&& final(self).function_arg_use@.subrange(
                                    0,
                                    old(self).function_arg_use@.len() as int,
                                ) == old(self).function_arg_use@
                                &&& final(self).function_arg_use@.last()@.len() == 0
                                &&& final(self).lookup_function@.len() == old(
                                    self,
                                ).lookup_function@.len()
                                &&& (forall|l2: int|
                                    0 <= l2 < old(self).lookup_function@.len() && l2 != li
                                        ==> final(self).lookup_function@[l2] == old(
                                        self,
                                    ).lookup_function@[l2])
                                &&& final(self).lookup_function@[li].0 == old(
                                    self,
                                ).lookup_function@[li].0
                                &&& final(self).lookup_function@[li].1@ == decls.push(
                                    FunctionDeclaration {
                                        parameters,
                                        qualifiers,
                                        handle: h as usize,
                                        defined: false,
                                        void,
                                    },
                                )
                            },
                        }
                    },
                    None => {
                        &&& r is Ok
                        &&& final(self).module.functions@.len() == h + 1
                        &&& final(self).module.functions@.subrange(0, h as int) == old(
                            self,
                        ).module.functions@
                        &&& final(self).module.functions@.last() == function
                        &&& final(self).function_arg_use@.len() == old(
                            self,
                        ).function_arg_use@.len() + 1
                        &&& final(self).function_arg_use@.subrange(
                            0,
                            old(self).function_arg_use@.len() as int,
                        ) == old(self).function_arg_use@
                        &&& final(self).function_arg_use@.last()@.len() == 0
                        &&& final(self).lookup_function@.len() == old(
                            self,
                        ).lookup_function@.len() + 1
                        &&& final(self).lookup_function@.subrange(
                            0,
                            old(self).lookup_function@.len() as int,
                        ) == old(self).lookup_function@
                        &&& final(self).lookup_function@.last().0 == name
                        &&& final(self).lookup_function@.last().1@.len() == 1
                        &&& final(self).lookup_function@.last().1@[0] == (FunctionDeclaration {
                            parameters,
                            qualifiers,
                            handle: h as usize,
                            defined: false,
                            void,
                        })
                    },
                }
            }),
    {
        let void = function.result.is_none();
        match self.lookup_name(&name) {
            Some(li) => {
                let ghost decls = self.lookup_function@[li as int].1@;
                let n = self.lookup_function[li].1.len();
                let mut dj: usize = 0;
                let mut found: Option<usize> = None;
                while dj < n
                    invariant
                        dj <= n,
                        *self == *old(self),
                        n == self.lookup_function@[li as int].1@.len(),
                        li < self.lookup_function@.len(),
                        decls == self.lookup_function@[li as int].1@,
                        self.overloads_wf(),
                        forall|i: int|
                            0 <= i < parameters@.len() ==> (#[trigger] parameters@[i])
                                < self.module.types@.len(),
                        match found {
                            Some(f) => f < dj && spec_find_matching(
                                decls,
                                self.module.types@,
                                parameters@,
                                dj as nat,
                            ) == Some(f as int),
                            None => spec_find_matching(
                                decls,
                                self.module.types@,
                                parameters@,
                                dj as nat,
                            ) is None,
                        },
                    decreases n - dj,
                {
                    proof {
                        assert(decls_wf_unfold(self, li as int, dj as int));
                    }
                    if found.is_none() && params_equal(
                        &self.module.types,
                        &parameters,
                        &self.lookup_function[li].1[dj].parameters,
                    ) {
                        found = Some(dj);
                    }
                    dj = dj + 1;
                }
                match found {
                    Some(_) => Err(ErrorKind::PrototypeAlreadyDefined { meta }),
                    None => {
                        self.function_arg_use.push(Vec::new());
                        let handle = self.module.functions.len();
                        self.module.functions.push(function);
                        self.lookup_function[li].1.push(
                            FunctionDeclaration {
                                parameters,
                                qualifiers,
                                handle,
                                defined: false,
                                void,
                            },
                        );
                        proof {
                            assert forall|d: int|
                                0 <= d < self.lookup_function@.len() implies crate::overload::decls_wf(
                                (#[trigger] self.lookup_function@[d]).1@,
                                self.module.types@,
                            ) by {
                                assert(crate::overload::decls_wf(
                                    old(self).lookup_function@[d].1@,
                                    self.module.types@,
                                ));
                            }
                            assert forall|d: int, j: int|
                                0 <= d < self.lookup_function@.len() && 0 <= j < (
                                #[trigger] self.lookup_function@[d]).1@.len() implies (
                            #[trigger] self.lookup_function@[d].1@[j]).handle
                                < self.module.functions@.len() by {
                                if !(d == li && j == old(self).lookup_function@[li as int].1@.len()) {
                                    assert(old(self).lookup_function@[d].1@[j].handle
                                        < old(self).module.functions@.len());
                                }
                            }
                            assert(self.module.functions@.subrange(
                                0,
                                old(self).module.functions@.len() as int,
                            ) =~= old(self).module.functions@);
                            assert(self.function_arg_use@.subrange(
                                0,
                                old(self).function_arg_use@.len() as int,
                            ) =~= old(self).function_arg_use@);
                        }
                        Ok(())
                    },
                }
            },
            None => {
                self.function_arg_use.push(Vec::new());
                let handle = self.module.functions.len();
                self.module.functions.push(function);
                let mut decls: Vec<FunctionDeclaration> = Vec::new();
                decls.push(
                    FunctionDeclaration { parameters, qualifiers, handle, defined: false, void },
                );
                self.lookup_function.push((name, decls));
                proof {
                    assert forall|d: int|
                        0 <= d < self.lookup_function@.len() implies crate::overload::decls_wf(
                        (#[trigger] self.lookup_function@[d]).1@,
                        self.module.types@,
                    ) by {
                        if d < old(self).lookup_function@.len() {
                            assert(crate::overload::decls_wf(
                                old(self).lookup_function@[d].1@,
                                self.module.types@,
                            ));
                        }
                    }
                    assert forall|d: int, j: int|
                        0 <= d < self.lookup_function@.len() && 0 <= j < (
                        #[trigger] self.lookup_function@[d]).1@.len() implies (
                    #[trigger] self.lookup_function@[d].1@[j]).handle
                        < self.module.functions@.len() by {
                        if d < old(self).lookup_function@.len() {
                            assert(old(self).lookup_function@[d].1@[j].handle
                                < old(self).module.functions@.len());
                        }
                    }
                    assert(self.module.functions@.subrange(
                        0,
                        old(self).module.functions@.len() as int,
                    ) =~= old(self).module.functions@);
                    assert(self.function_arg_use@.subrange(
                        0,
                        old(self).function_arg_use@.len() as int,
                    ) =~= old(self).function_arg_use@);
                    assert(self.lookup_function@.subrange(
                        0,
                        old(self).lookup_function@.len() as int,
                    ) =~= old(self).lookup_function@);
                }
                Ok(())
            },
        }
    }

}

/// The declarations of one overload-table entry are well-formed at one
/// index; spelt out so a loop can name the fact.
pub open spec fn decls_wf_unfold(p: &Program, li: int, dj: int) -> bool {
    0 <= li < p.lookup_function@.len() && 0 <= dj < p.lookup_function@[li].1@.len() ==> {
        &&& (forall|i: int|
            0 <= i < p.lookup_function@[li].1@[dj].parameters@.len() ==> (
            #[trigger] p.lookup_function@[li].1@[dj].parameters@[i]) < p.module.types@.len())
    }
}

/// The handle of one declaration is valid; spelt out so a loop can name
/// the fact.
pub open spec fn handles_wf_unfold(p: &Program, li: int, dj: int) -> bool {
    0 <= li < p.lookup_function@.len() && 0 <= dj < p.lookup_function@[li].1@.len()
        ==> p.lookup_function@[li].1@[dj].handle < p.module.functions@.len()
}

} // verus!
