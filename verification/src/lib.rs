//! A test-fixture injection engine: given a declaration of a "context"
//! resource type and a model of a test function's signature, it synthesizes
//! the replacement test body that constructs the resource, hands it to the
//! body under the declared binding mode, runs the body with failure capture,
//! releases the resource unless suppressed, and re-raises any captured
//! failure unchanged.

use vstd::prelude::*;

pub mod args;
pub mod lifecycle;
pub mod signature;
pub mod synthesis;
pub mod types;

use crate::args::{spec_parse_fixture_args, FixtureArg, SyntaxError, TestContextArgs};
use crate::signature::{
    lemma_find_context_arg_some_iff_count_pos, remove_context_arg, spec_context_count,
    spec_find_context_arg, spec_residual_params, SignatureError,
};
use crate::synthesis::{
    refactor_input_body, spec_owned_without_skip, ConfigurationError, SynthesizedFunction,
    TestFunction, WrapperBody,
};

verus! {

/// The capability contract a type implements to participate as a test
/// context: construction before each test, and an optional release step
/// beyond ordinary drop semantics.
pub trait TestContext where Self: Sized {
    /// Create the context. This is run once before each test that uses the
    /// context.
    fn setup() -> Self;

    /// Perform any additional cleanup of the context besides that already
    /// provided by normal "drop" semantics.
    fn teardown(self) {
    }
}

/// Why the engine refused to synthesize a function: the fixture
/// declaration's arguments were malformed, the signature held no or more
/// than one context parameter, or the binding mode is illegal for the
/// requested teardown behavior. All are build-time errors — the engine
/// refuses to emit code rather than emit code with undefined run-time
/// behavior.
#[derive(Clone, Copy, Debug, PartialEq, Eq, Structural)]
pub enum ExpandError {
    Syntax(SyntaxError),
    Signature(SignatureError),
    Configuration(ConfigurationError),
}

/// The whole transformation: parses the fixture declaration's arguments,
/// locates and classifies the one context parameter of the annotated
/// function, and synthesizes the replacement function — same name,
/// asynchrony, attributes and declared return type, the residual
/// parameters, and the generated lifecycle body.
pub fn test_context(attr: Vec<FixtureArg>, item: TestFunction) -> (r: Result<
    SynthesizedFunction,
    ExpandError,
>)
    requires
        item.wf(),
        forall|j: int|
            0 <= j < attr@.len() ==> ((#[trigger] attr@[j]) matches FixtureArg::TypeLike(t)
                ==> t.wf()),
    ensures
        match spec_parse_fixture_args(attr@, None, false) {
            Err(e) => r == Err::<SynthesizedFunction, ExpandError>(ExpandError::Syntax(e)),
            Ok(parsed) => {
                let count = spec_context_count(item.params@, parsed.context_type);
                if count == 0 {
                    r == Err::<SynthesizedFunction, ExpandError>(
                        ExpandError::Signature(SignatureError::NoContextArg),
                    )
                } else if count > 1 {
                    r == Err::<SynthesizedFunction, ExpandError>(
                        ExpandError::Signature(SignatureError::MultipleContextArgs),
                    )
                } else {
                    match spec_find_context_arg(item.params@, parsed.context_type) {
                        Some(info) => if spec_owned_without_skip(parsed, info) {
                            r == Err::<SynthesizedFunction, ExpandError>(
                                ExpandError::Configuration(
                                    ConfigurationError::OwnedContextRequiresSkipTeardown,
                                ),
                            )
                        } else {
                            r matches Ok(f) && f.name == item.name && f.is_async == item.is_async
                                && f.params@ == spec_residual_params(
                                item.params@,
                                parsed.context_type,
                            ) && f.output == item.output && f.attrs == item.attrs && f.wrapper
                                == (WrapperBody {
                                context_type: parsed.context_type,
                                binding_name: info.name,
                                mode: info.mode,
                                run_teardown: !parsed.skip_teardown,
                                original_body: item.body,
                            })
                        },
                        None => false,
                    }
                }
            },
        },
{
    let parsed = match TestContextArgs::parse(attr) {
        Ok(parsed) => parsed,
        Err(e) => {
            return Err(ExpandError::Syntax(e));
        },
    };
    let TestFunction { name, is_async, params, output, attrs, body } = item;
    proof {
        lemma_find_context_arg_some_iff_count_pos(params@, parsed.context_type);
    }
    match remove_context_arg(params, &parsed.context_type) {
        Err(e) => Err(ExpandError::Signature(e)),
        Ok((residual, info)) => {
            let stripped = TestFunction { name, is_async, params: residual, output, attrs, body };
            match refactor_input_body(stripped, parsed, info) {
                Err(e) => Err(ExpandError::Configuration(e)),
                Ok(f) => Ok(f),
            }
        },
    }
}

} // verus!
