//! The declaration parser: turning the fixture invocation's argument list
//! into a structured request — the context type, and an optional
//! `skip_teardown` flag.

use vstd::prelude::*;
use crate::types::TypeExpr;

verus! {

/// One argument of the fixture invocation, after the surrounding syntax
/// has been split at commas: either something that reads as a type
/// expression (the reserved flag word `skip_teardown` also reads as one),
/// or anything else, carried verbatim.
#[derive(Debug)]
pub enum FixtureArg {
    TypeLike(TypeExpr),
    Raw(String),
}

/// Why the fixture invocation's argument list was refused.
#[derive(Clone, Copy, Debug, PartialEq, Eq, Structural)]
pub enum SyntaxError {
    /// No context type expression is present.
    MissingContextType,
    /// More than one context type expression is present.
    MultipleContextTypes,
    /// The `skip_teardown` flag appears more than once.
    DuplicateSkipTeardown,
    /// An argument that is neither a type expression nor the flag.
    UnrecognizedToken,
}

/// The structured fixture request: the context type to construct, and
/// whether the release step is suppressed.
#[derive(Debug)]
pub struct TestContextArgs {
    pub context_type: TypeExpr,
    pub skip_teardown: bool,
}

/// Whether a type expression is exactly the reserved flag word
/// `skip_teardown`: a single-segment path of that name with no generic
/// arguments.
pub open spec fn spec_is_skip_keyword(t: TypeExpr) -> bool {
    &&& t is Path
    &&& t->segments@.len() == 1
    &&& t->arguments@.len() == 0
    &&& t->segments@[0]@ == "skip_teardown"@
}

/// Decides whether an argument's type expression is the reserved flag word.
pub fn is_skip_keyword(t: &TypeExpr) -> (r: bool)
    ensures
        r == spec_is_skip_keyword(*t),
{
    match t {
        TypeExpr::Path { segments, arguments } => {
            if segments.len() == 1 && arguments.len() == 0 {
                let keyword: String = "skip_teardown".to_owned();
                segments[0] == keyword
            } else {
                false
            }
        },
        _ => false,
    }
}

/// What parsing the remaining arguments yields, given the context type and
/// flag gathered so far: the flag may appear at most once; a second type
/// expression is refused; an unrecognizable argument is refused; and at the
/// end a context type must have been found.
pub open spec fn spec_parse_fixture_args(
    args: Seq<FixtureArg>,
    context_type: Option<TypeExpr>,
    skip_teardown: bool,
) -> Result<TestContextArgs, SyntaxError>
    decreases args.len(),
{
    if args.len() == 0 {
        match context_type {
            Some(t) => Ok(TestContextArgs { context_type: t, skip_teardown }),
            None => Err(SyntaxError::MissingContextType),
        }
    } else {
        match args.first() {
            FixtureArg::Raw(_) => Err(SyntaxError::UnrecognizedToken),
            FixtureArg::TypeLike(t) => {
                if spec_is_skip_keyword(t) {
                    if skip_teardown {
                        Err(SyntaxError::DuplicateSkipTeardown)
                    } else {
                        spec_parse_fixture_args(args.drop_first(), context_type, true)
                    }
                } else if context_type is Some {
                    Err(SyntaxError::MultipleContextTypes)
                } else {
                    spec_parse_fixture_args(args.drop_first(), Some(t), skip_teardown)
                }
            },
        }
    }
}

impl TestContextArgs {
    /// Parses the fixture invocation's argument list into a structured
    /// request: exactly one context type expression, and zero or one
    /// `skip_teardown` flag, in any order.
    pub fn parse(args: Vec<FixtureArg>) -> (r: Result<TestContextArgs, SyntaxError>)
        requires
            forall|j: int|
                0 <= j < args@.len() ==> ((#[trigger] args@[j]) matches FixtureArg::TypeLike(t)
                    ==> t.wf()),
        ensures
            r == spec_parse_fixture_args(args@, None, false),
            r matches Ok(parsed) ==> parsed.context_type.wf(),
    {
        let ghost orig: Seq<FixtureArg> = args@;
        let mut remaining = args;
        let mut context_type: Option<TypeExpr> = None;
        let mut skip_teardown: bool = false;
        let ghost mut i: int = 0;

        while remaining.len() > 0
            invariant
                orig == args@,
                0 <= i <= orig.len(),
                remaining@ == orig.skip(i),
                forall|j: int|
                    0 <= j < orig.len() ==> ((#[trigger] orig[j]) matches FixtureArg::TypeLike(t)
                        ==> t.wf()),
                spec_parse_fixture_args(orig, None, false) == spec_parse_fixture_args(
                    remaining@,
                    context_type,
                    skip_teardown,
                ),
                context_type matches Some(t) ==> t.wf(),
            decreases remaining.len(),
        {
            let ghost before: Seq<FixtureArg> = remaining@;
            let arg = remaining.remove(0);
            proof {
                assert(before[0] == orig[i]);
                assert(before.remove(0) =~= before.drop_first());
            }
            match arg {
                FixtureArg::Raw(_) => {
                    return Err(SyntaxError::UnrecognizedToken);
                },
                FixtureArg::TypeLike(t) => {
                    if is_skip_keyword(&t) {
                        if skip_teardown {
                            return Err(SyntaxError::DuplicateSkipTeardown);
                        }
                        skip_teardown = true;
                    } else if context_type.is_some() {
                        return Err(SyntaxError::MultipleContextTypes);
                    } else {
                        context_type = Some(t);
                    }
                },
            }
            proof {
                i = i + 1;
            }
        }
        match context_type {
            Some(t) => Ok(TestContextArgs { context_type: t, skip_teardown }),
            None => Err(SyntaxError::MissingContextType),
        }
    }
}

/// How many arguments are type expressions other than the flag word.
pub open spec fn spec_type_arg_count(args: Seq<FixtureArg>) -> nat
    decreases args.len(),
{
    if args.len() == 0 {
        0
    } else {
        (match args.first() {
            FixtureArg::TypeLike(t) => if !spec_is_skip_keyword(t) {
                1nat
            } else {
                0nat
            },
            FixtureArg::Raw(_) => 0nat,
        }) + spec_type_arg_count(args.drop_first())
    }
}

/// How many arguments are the flag word.
pub open spec fn spec_flag_arg_count(args: Seq<FixtureArg>) -> nat
    decreases args.len(),
{
    if args.len() == 0 {
        0
    } else {
        (match args.first() {
            FixtureArg::TypeLike(t) => if spec_is_skip_keyword(t) {
                1nat
            } else {
                0nat
            },
            FixtureArg::Raw(_) => 0nat,
        }) + spec_flag_arg_count(args.drop_first())
    }
}

/// How many arguments are neither a type expression nor the flag word.
pub open spec fn spec_raw_arg_count(args: Seq<FixtureArg>) -> nat
    decreases args.len(),
{
    if args.len() == 0 {
        0
    } else {
        (match args.first() {
            FixtureArg::TypeLike(_) => 0nat,
            FixtureArg::Raw(_) => 1nat,
        }) + spec_raw_arg_count(args.drop_first())
    }
}

/// The declaration grammar, stated declaratively: parsing succeeds exactly
/// when every argument is recognized, the context type appears exactly
/// once, and the flag appears at most once; and a successful parse sets
/// `skip_teardown` exactly when the flag appears. Stated for any partial
/// state, so that it covers the whole parse when instantiated with no
/// context type found and the flag unset.
pub proof fn lemma_parse_fixture_args_characterization(
    args: Seq<FixtureArg>,
    context_type: Option<TypeExpr>,
    skip_teardown: bool,
)
    ensures
        (spec_parse_fixture_args(args, context_type, skip_teardown) is Ok <==> {
            &&& spec_raw_arg_count(args) == 0
            &&& spec_type_arg_count(args) + (if context_type is Some {
                1int
            } else {
                0int
            }) == 1
            &&& spec_flag_arg_count(args) + (if skip_teardown {
                1int
            } else {
                0int
            }) <= 1
        }),
        spec_parse_fixture_args(args, context_type, skip_teardown) matches Ok(parsed)
            ==> parsed.skip_teardown == (skip_teardown || spec_flag_arg_count(args) > 0),
    decreases args.len(),
{
    if args.len() > 0 {
        match args.first() {
            FixtureArg::Raw(_) => {},
            FixtureArg::TypeLike(t) => {
                if spec_is_skip_keyword(t) {
                    if !skip_teardown {
                        lemma_parse_fixture_args_characterization(
                            args.drop_first(),
                            context_type,
                            true,
                        );
                    } else {
                        lemma_parse_fixture_args_characterization(
                            args.drop_first(),
                            context_type,
                            skip_teardown,
                        );
                    }
                } else if context_type is None {
                    lemma_parse_fixture_args_characterization(
                        args.drop_first(),
                        Some(t),
                        skip_teardown,
                    );
                } else {
                    lemma_parse_fixture_args_characterization(
                        args.drop_first(),
                        context_type,
                        skip_teardown,
                    );
                }
            },
        }
    }
}

} // verus!
