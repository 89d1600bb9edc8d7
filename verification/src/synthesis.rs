//! The code synthesizer: given the parsed fixture request and the
//! classified context parameter, it produces the replacement function — the
//! same outward shell, the residual parameters, and a wrapper body that
//! constructs the context, binds it, runs the original body under failure
//! capture, releases the context unless suppressed, and resolves the
//! captured result.

use vstd::prelude::*;
use crate::args::TestContextArgs;
use crate::signature::{ContextArg, ContextArgMode, Param};
use crate::types::TypeExpr;

verus! {

/// A model of the annotated test function: its outward shell (name,
/// asynchrony, attributes, declared return type) and its parameter list,
/// with the original body carried verbatim.
#[derive(Debug)]
pub struct TestFunction {
    pub name: String,
    pub is_async: bool,
    pub params: Vec<Param>,
    /// The declared return type's spelling, if any.
    pub output: Option<String>,
    /// The other attributes attached to the function, carried verbatim.
    pub attrs: Vec<String>,
    /// The original body, carried verbatim.
    pub body: String,
}

impl TestFunction {
    pub open spec fn wf(self) -> bool {
        forall|i: int| 0 <= i < self.params@.len() ==> (#[trigger] self.params@[i]).wf()
    }
}

/// The generated wrapper body: which context type to construct, under what
/// name and binding mode the body receives it, whether the release step
/// runs, and the original body it executes under failure capture.
#[derive(Debug)]
pub struct WrapperBody {
    pub context_type: TypeExpr,
    /// The identifier the body used for the context parameter; the
    /// constructed resource is rebound under this name.
    pub binding_name: String,
    pub mode: ContextArgMode,
    /// False exactly when `skip_teardown` was requested.
    pub run_teardown: bool,
    pub original_body: String,
}

/// The synthesized replacement function: the same externally visible name,
/// asynchrony, attributes and declared return type as the original, the
/// residual parameter list, and the generated wrapper body.
#[derive(Debug)]
pub struct SynthesizedFunction {
    pub name: String,
    pub is_async: bool,
    pub params: Vec<Param>,
    pub output: Option<String>,
    pub attrs: Vec<String>,
    pub wrapper: WrapperBody,
}

/// One lifecycle operation of the generated body, in the order the body
/// performs them.
#[derive(Debug, PartialEq, Eq)]
pub enum LifecycleStep {
    /// Invoke the capability interface's construction operation, awaited
    /// in an asynchronous function.
    Construct { awaited: bool },
    /// Bind the constructed resource to the original parameter name under
    /// its binding mode: a move for the owned modes, an address-of for
    /// `Reference`, a mutable address-of for `MutableReference`.
    BindContext { name: String, mode: ContextArgMode },
    /// Execute the original body inside a failure-capturing scope, so that
    /// an abrupt termination becomes a captured value.
    RunBodyCaptured,
    /// Invoke the release operation, awaited in an asynchronous function.
    /// Present exactly when teardown is not suppressed.
    Release { awaited: bool },
    /// Resolve the captured result: yield the normal value, or re-raise
    /// the captured failure signal unchanged.
    ResolveCaptured,
}

/// The lifecycle operations of a synthesized function's body, in order.
/// The synchronous/asynchronous axis decides only whether construction and
/// release are awaited; the skip axis decides only whether the release
/// step is present; the binding mode appears only in the binding step.
pub open spec fn spec_steps(f: SynthesizedFunction) -> Seq<LifecycleStep> {
    let head = seq![
        LifecycleStep::Construct { awaited: f.is_async },
        LifecycleStep::BindContext { name: f.wrapper.binding_name, mode: f.wrapper.mode },
        LifecycleStep::RunBodyCaptured,
    ];
    let release = if f.wrapper.run_teardown {
        seq![LifecycleStep::Release { awaited: f.is_async }]
    } else {
        Seq::empty()
    };
    head + release + seq![LifecycleStep::ResolveCaptured]
}

impl SynthesizedFunction {
    /// Lists the lifecycle operations of this function's generated body,
    /// in the order the body performs them.
    pub fn steps(&self) -> (v: Vec<LifecycleStep>)
        ensures
            v@ == spec_steps(*self),
    {
        let mut v: Vec<LifecycleStep> = Vec::new();
        v.push(LifecycleStep::Construct { awaited: self.is_async });
        v.push(
            LifecycleStep::BindContext {
                name: self.wrapper.binding_name.clone(),
                mode: self.wrapper.mode,
            },
        );
        v.push(LifecycleStep::RunBodyCaptured);
        if self.wrapper.run_teardown {
            v.push(LifecycleStep::Release { awaited: self.is_async });
        }
        v.push(LifecycleStep::ResolveCaptured);
        proof {
            assert(v@ =~= spec_steps(*self));
        }
        v
    }
}

/// When the release step is present, it stands after the captured body
/// run and before the resolution step that re-raises a captured failure:
/// release always runs before a captured failure propagates.
pub proof fn lemma_release_precedes_resolution(f: SynthesizedFunction)
    requires
        f.wrapper.run_teardown,
    ensures
        spec_steps(f).len() == 5,
        spec_steps(f)[2] is RunBodyCaptured,
        spec_steps(f)[3] is Release,
        spec_steps(f)[4] is ResolveCaptured,
{
}

/// Why the synthesizer refused an otherwise well-formed request.
#[derive(Clone, Copy, Debug, PartialEq, Eq, Structural)]
pub enum ConfigurationError {
    /// An `Owned` or `OwnedMut` binding hands the resource to the body
    /// permanently, so a release step can no longer be scheduled after it:
    /// such a binding is only legal with `skip_teardown`.
    OwnedContextRequiresSkipTeardown,
}

/// Whether the request is illegal because the body takes the context by
/// value while a release step is still owed.
pub open spec fn spec_owned_without_skip(args: TestContextArgs, info: ContextArg) -> bool {
    (info.mode is Owned || info.mode is OwnedMut) && !args.skip_teardown
}

/// Builds the replacement function from the fixture request, the function
/// (with the context parameter already removed from its parameter list)
/// and the classified context parameter. Refuses an owned binding without
/// `skip_teardown`; otherwise the shell passes through unchanged and the
/// wrapper body records the context type, the binding, and whether release
/// runs.
pub fn refactor_input_body(
    input: TestFunction,
    args: TestContextArgs,
    context_arg_info: ContextArg,
) -> (r: Result<SynthesizedFunction, ConfigurationError>)
    ensures
        spec_owned_without_skip(args, context_arg_info) ==> r == Err::<
            SynthesizedFunction,
            ConfigurationError,
        >(ConfigurationError::OwnedContextRequiresSkipTeardown),
        !spec_owned_without_skip(args, context_arg_info) ==> (r matches Ok(f) && f
            == (SynthesizedFunction {
            name: input.name,
            is_async: input.is_async,
            params: input.params,
            output: input.output,
            attrs: input.attrs,
            wrapper: WrapperBody {
                context_type: args.context_type,
                binding_name: context_arg_info.name,
                mode: context_arg_info.mode,
                run_teardown: !args.skip_teardown,
                original_body: input.body,
            },
        })),
{
    if context_arg_info.mode.is_owned() && !args.skip_teardown {
        Err(ConfigurationError::OwnedContextRequiresSkipTeardown)
    } else {
        Ok(
            SynthesizedFunction {
                name: input.name,
                is_async: input.is_async,
                params: input.params,
                output: input.output,
                attrs: input.attrs,
                wrapper: WrapperBody {
                    context_type: args.context_type,
                    binding_name: context_arg_info.name,
                    mode: context_arg_info.mode,
                    run_teardown: !args.skip_teardown,
                    original_body: input.body,
                },
            },
        )
    }
}

} // verus!
