//! Signature analysis: locating the one context parameter in a test
//! function's parameter list, classifying its binding mode, and building
//! the residual parameter list that the rewritten body keeps.

use vstd::prelude::*;
use crate::types::{spec_types_equal, types_equal, TypeExpr};

verus! {

/// The pattern a parameter binds with. The engine reads only whether it is
/// a plain identifier and whether that binding is `mut`; anything else is
/// carried verbatim and never treated as a context parameter.
#[derive(Debug)]
pub enum ArgPattern {
    /// A plain identifier binding, `name: T` or `mut name: T`.
    Ident { name: String, mutable: bool },
    /// Any other pattern (a destructuring, a receiver), carried verbatim.
    Other { text: String },
}

/// One parameter of the test function: its binding pattern and its
/// declared type.
#[derive(Debug)]
pub struct Param {
    pub pattern: ArgPattern,
    pub ty: TypeExpr,
}

impl Param {
    pub open spec fn wf(self) -> bool {
        self.ty.wf()
    }
}

/// How the test body declared it wants to receive the constructed context.
#[derive(Clone, Copy, Debug, PartialEq, Eq, Structural)]
pub enum ContextArgMode {
    /// The argument was passed as an owned value (`ContextType`). Only
    /// valid with `skip_teardown`.
    Owned,
    /// The argument was passed as an owned mutable value
    /// (`mut arg: ContextType`). Only valid with `skip_teardown`.
    OwnedMut,
    /// The argument was passed as an immutable reference (`&ContextType`).
    Reference,
    /// The argument was passed as a mutable reference (`&mut ContextType`).
    MutableReference,
}

impl ContextArgMode {
    /// Whether the body takes the context by value, so that the engine
    /// cannot retain ownership for a later release step.
    pub fn is_owned(&self) -> (r: bool)
        ensures
            r == (*self is Owned || *self is OwnedMut),
    {
        match self {
            ContextArgMode::Owned => true,
            ContextArgMode::OwnedMut => true,
            ContextArgMode::Reference => false,
            ContextArgMode::MutableReference => false,
        }
    }
}

/// The one parameter found to carry the context: its identifier and its
/// binding mode.
#[derive(Debug)]
pub struct ContextArg {
    /// The identifier name used for the context argument.
    pub name: String,
    /// The mode in which the context was passed to the test function.
    pub mode: ContextArgMode,
}

/// A classified parameter: either the context parameter, or any other
/// parameter, which passes through to the residual list unchanged.
#[derive(Debug)]
pub enum TestArg {
    Any(Param),
    Context(ContextArg),
}

/// How a single parameter classifies against the requested context type:
/// an identifier-bound parameter whose type is a reference to the context
/// type receives it by (mutable) reference; one whose type is the context
/// type itself receives it owned, mutably when the binding is `mut`; every
/// other parameter passes through.
pub open spec fn spec_classify_arg(arg: Param, context_type: TypeExpr) -> TestArg {
    match arg.pattern {
        ArgPattern::Other { .. } => TestArg::Any(arg),
        ArgPattern::Ident { name, mutable } => {
            let reference_match: Option<bool> = match arg.ty {
                TypeExpr::Reference { mutable: ref_mut, inner } => if spec_types_equal(
                    *inner,
                    context_type,
                ) {
                    Some(ref_mut)
                } else {
                    None
                },
                _ => None,
            };
            match reference_match {
                Some(ref_mut) => TestArg::Context(
                    ContextArg {
                        name,
                        mode: if ref_mut {
                            ContextArgMode::MutableReference
                        } else {
                            ContextArgMode::Reference
                        },
                    },
                ),
                None => if spec_types_equal(arg.ty, context_type) {
                    TestArg::Context(
                        ContextArg {
                            name,
                            mode: if mutable {
                                ContextArgMode::OwnedMut
                            } else {
                                ContextArgMode::Owned
                            },
                        },
                    )
                } else {
                    TestArg::Any(arg)
                },
            }
        },
    }
}

impl TestArg {
    /// Classifies one parameter against the requested context type.
    pub fn parse_arg_with_expected_context(arg: Param, expected_context_type: &TypeExpr) -> (r:
        TestArg)
        requires
            arg.wf(),
            expected_context_type.wf(),
        ensures
            r == spec_classify_arg(arg, *expected_context_type),
    {
        match &arg.pattern {
            ArgPattern::Other { .. } => TestArg::Any(arg),
            ArgPattern::Ident { name, mutable } => {
                let reference_match: Option<bool> = match &arg.ty {
                    TypeExpr::Reference { mutable: ref_mut, inner } => {
                        if types_equal(&**inner, expected_context_type) {
                            Some(*ref_mut)
                        } else {
                            None
                        }
                    },
                    _ => None,
                };
                if let Some(ref_mut) = reference_match {
                    let mode = if ref_mut {
                        ContextArgMode::MutableReference
                    } else {
                        ContextArgMode::Reference
                    };
                    TestArg::Context(ContextArg { name: name.clone(), mode })
                } else if types_equal(&arg.ty, expected_context_type) {
                    let mode = if *mutable {
                        ContextArgMode::OwnedMut
                    } else {
                        ContextArgMode::Owned
                    };
                    TestArg::Context(ContextArg { name: name.clone(), mode })
                } else {
                    TestArg::Any(arg)
                }
            },
        }
    }
}

/// Whether a parameter is the context parameter for the given context type.
pub open spec fn spec_is_context_arg(arg: Param, context_type: TypeExpr) -> bool {
    spec_classify_arg(arg, context_type) is Context
}

/// How many parameters of the list classify as context parameters.
pub open spec fn spec_context_count(params: Seq<Param>, context_type: TypeExpr) -> nat
    decreases params.len(),
{
    if params.len() == 0 {
        0
    } else {
        spec_context_count(params.drop_last(), context_type) + if spec_is_context_arg(
            params.last(),
            context_type,
        ) {
            1nat
        } else {
            0nat
        }
    }
}

/// The residual parameter list: the parameters that do not classify as
/// context parameters, in their original order.
pub open spec fn spec_residual_params(params: Seq<Param>, context_type: TypeExpr) -> Seq<Param>
    decreases params.len(),
{
    if params.len() == 0 {
        Seq::empty()
    } else {
        let rest = spec_residual_params(params.drop_last(), context_type);
        if spec_is_context_arg(params.last(), context_type) {
            rest
        } else {
            rest.push(params.last())
        }
    }
}

/// The parameters that are not the context parameter, as a predicate for
/// filtering.
pub open spec fn spec_non_context_pred(context_type: TypeExpr) -> spec_fn(Param) -> bool {
    |p: Param| !spec_is_context_arg(p, context_type)
}

/// The residual list is exactly the original list with the context
/// parameters filtered out: every parameter that does not match the
/// context type stays, in its original order.
pub proof fn lemma_residual_params_are_filtered(params: Seq<Param>, context_type: TypeExpr)
    ensures
        spec_residual_params(params, context_type) == params.filter(
            spec_non_context_pred(context_type),
        ),
    decreases params.len(),
{
    reveal(Seq::filter);
    let pred = spec_non_context_pred(context_type);
    if params.len() == 0 {
        assert(spec_residual_params(params, context_type) =~= params.filter(pred));
    } else {
        lemma_residual_params_are_filtered(params.drop_last(), context_type);
        assert(pred(params.last()) == !spec_is_context_arg(params.last(), context_type));
        assert(spec_residual_params(params, context_type) =~= params.filter(pred));
    }
}

/// The classification of the first parameter that classifies as a context
/// parameter, if any.
pub open spec fn spec_find_context_arg(params: Seq<Param>, context_type: TypeExpr) -> Option<
    ContextArg,
>
    decreases params.len(),
{
    if params.len() == 0 {
        None
    } else {
        let earlier = spec_find_context_arg(params.drop_last(), context_type);
        if earlier is Some {
            earlier
        } else {
            match spec_classify_arg(params.last(), context_type) {
                TestArg::Context(found) => Some(found),
                TestArg::Any(_) => None,
            }
        }
    }
}

/// A context argument is found exactly when at least one parameter
/// classifies as a context parameter.
pub proof fn lemma_find_context_arg_some_iff_count_pos(params: Seq<Param>, context_type: TypeExpr)
    ensures
        (spec_find_context_arg(params, context_type) is Some) <==> spec_context_count(
            params,
            context_type,
        ) > 0,
    decreases params.len(),
{
    if params.len() > 0 {
        lemma_find_context_arg_some_iff_count_pos(params.drop_last(), context_type);
    }
}

/// Why signature analysis refused a parameter list.
#[derive(Clone, Copy, Debug, PartialEq, Eq, Structural)]
pub enum SignatureError {
    /// No parameter's type matches the requested context type.
    NoContextArg,
    /// Two or more parameters' types match the requested context type.
    MultipleContextArgs,
}

/// Scans the parameter list for the one parameter whose type matches the
/// requested context type, classifies its binding mode, and returns it
/// together with the residual parameters in their original order. Exactly
/// one match is required: zero matches and multiple matches are distinct
/// build-time errors.
pub fn remove_context_arg(params: Vec<Param>, expected_context_type: &TypeExpr) -> (r: Result<
    (Vec<Param>, ContextArg),
    SignatureError,
>)
    requires
        forall|i: int| 0 <= i < params@.len() ==> (#[trigger] params@[i]).wf(),
        expected_context_type.wf(),
    ensures
        match r {
            Ok(found) => {
                &&& spec_context_count(params@, *expected_context_type) == 1
                &&& found.0@ == spec_residual_params(params@, *expected_context_type)
                &&& Some(found.1) == spec_find_context_arg(params@, *expected_context_type)
            },
            Err(SignatureError::NoContextArg) => spec_context_count(
                params@,
                *expected_context_type,
            ) == 0,
            Err(SignatureError::MultipleContextArgs) => spec_context_count(
                params@,
                *expected_context_type,
            ) > 1,
        },
{
    let ghost orig: Seq<Param> = params@;
    let ghost ctx: TypeExpr = *expected_context_type;
    let total: usize = params.len();
    let mut remaining = params;
    let mut residual: Vec<Param> = Vec::new();
    let mut found: Option<ContextArg> = None;
    let mut count: usize = 0;
    let ghost mut i: int = 0;

    while remaining.len() > 0
        invariant
            0 <= i <= orig.len(),
            remaining@ == orig.skip(i),
            expected_context_type.wf(),
            ctx == *expected_context_type,
            forall|j: int| 0 <= j < orig.len() ==> (#[trigger] orig[j]).wf(),
            residual@ == spec_residual_params(orig.take(i), ctx),
            found == spec_find_context_arg(orig.take(i), ctx),
            count == spec_context_count(orig.take(i), ctx),
            count <= i,
            total == orig.len(),
        decreases remaining.len(),
    {
        let arg = remaining.remove(0);
        proof {
            assert(orig.skip(i)[0] == orig[i]);
            assert(orig.skip(i).remove(0) =~= orig.skip(i + 1));
            assert(orig.take(i + 1).drop_last() =~= orig.take(i));
            assert(orig.take(i + 1).last() == orig[i]);
        }
        match TestArg::parse_arg_with_expected_context(arg, expected_context_type) {
            TestArg::Any(other) => {
                residual.push(other);
            },
            TestArg::Context(context_arg) => {
                proof {
                    assert(count < total);
                }
                count = count + 1;
                if found.is_none() {
                    found = Some(context_arg);
                }
            },
        }
        proof {
            i = i + 1;
        }
    }
    proof {
        assert(orig.take(orig.len() as int) =~= orig);
        lemma_find_context_arg_some_iff_count_pos(orig, ctx);
    }
    if count == 0 {
        Err(SignatureError::NoContextArg)
    } else if count > 1 {
        Err(SignatureError::MultipleContextArgs)
    } else {
        match found {
            Some(context_arg) => Ok((residual, context_arg)),
            // Unreachable: a count of one implies a found argument, by the
            // lemma invoked above.
            None => Err(SignatureError::NoContextArg),
        }
    }
}

} // verus!
