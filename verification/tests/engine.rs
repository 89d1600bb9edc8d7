use std::marker::PhantomData;

use test_context::args::{FixtureArg, SyntaxError, TestContextArgs};
use test_context::lifecycle::{
    execute_wrapper, resolve_captured, CapturedResult, SetupOutcome, TeardownOutcome, TestOutcome,
    TestRun,
};
use test_context::signature::{
    remove_context_arg, ArgPattern, ContextArg, ContextArgMode, Param, SignatureError, TestArg,
};
use test_context::synthesis::{LifecycleStep, SynthesizedFunction, TestFunction};
use test_context::types::{types_equal, TypeExpr};
use test_context::{test_context, ExpandError, TestContext};

fn path(name: &str) -> TypeExpr {
    TypeExpr::Path {
        segments: vec![name.to_string()],
        arguments: vec![],
    }
}

fn generic_path(name: &str, arguments: &[&str]) -> TypeExpr {
    TypeExpr::Path {
        segments: vec![name.to_string()],
        arguments: arguments.iter().map(|a| a.to_string()).collect(),
    }
}

fn ident_param(name: &str, mutable: bool, ty: TypeExpr) -> Param {
    Param {
        pattern: ArgPattern::Ident {
            name: name.to_string(),
            mutable,
        },
        ty,
    }
}

fn mut_ref_param(name: &str, ty: TypeExpr) -> Param {
    ident_param(
        name,
        false,
        TypeExpr::Reference {
            mutable: true,
            inner: Box::new(ty),
        },
    )
}

fn test_fn(name: &str, is_async: bool, params: Vec<Param>, body: &str) -> TestFunction {
    TestFunction {
        name: name.to_string(),
        is_async,
        params,
        output: None,
        attrs: vec![],
        body: body.to_string(),
    }
}

fn expand(attr: Vec<FixtureArg>, item: TestFunction) -> SynthesizedFunction {
    test_context(attr, item).expect("the engine should synthesize this function")
}

struct ContextGeneric<T> {
    n: u32,
    _marker: PhantomData<T>,
}

struct ContextGenericType1;

impl TestContext for ContextGeneric<ContextGenericType1> {
    fn setup() -> Self {
        Self {
            n: 1,
            _marker: PhantomData,
        }
    }
}

struct ContextGenericType2;

impl TestContext for ContextGeneric<ContextGenericType2> {
    fn setup() -> Self {
        Self {
            n: 2,
            _marker: PhantomData,
        }
    }
}

fn run_generic<C: TestContext, F: FnOnce(&mut C) -> CapturedResult<u32, String>>(
    context_name: &str,
    arguments: &[&str],
    is_async: bool,
    body: F,
) -> TestOutcome<u32, String> {
    let ty = generic_path(context_name, arguments);
    let param_ty = generic_path(context_name, arguments);
    let f = expand(
        vec![FixtureArg::TypeLike(ty)],
        test_fn("generic_test", is_async, vec![mut_ref_param("ctx", param_ty)], "..."),
    );
    let mut ctx = C::setup();
    let body_result = body(&mut ctx);
    let report = execute_wrapper(
        &f.wrapper,
        TestRun {
            setup: SetupOutcome::Ready,
            body: body_result,
            teardown: TeardownOutcome::Finished,
        },
    );
    if report.release_count == 1 {
        ctx.teardown();
    }
    report.outcome
}

#[test]
fn test_generic_type() {
    let outcome = run_generic::<ContextGeneric<ContextGenericType1>, _>(
        "ContextGeneric",
        &["ContextGenericType1"],
        false,
        |ctx| {
            if ctx.n == 1 {
                CapturedResult::Completed(ctx.n)
            } else {
                CapturedResult::Panicked("assertion failed: ctx.n == 1".to_string())
            }
        },
    );
    assert_eq!(outcome, TestOutcome::Passed(1));
}

#[test]
fn test_generic_type_other() {
    let outcome = run_generic::<ContextGeneric<ContextGenericType2>, _>(
        "ContextGeneric",
        &["ContextGenericType2"],
        false,
        |ctx| {
            if ctx.n == 2 {
                CapturedResult::Completed(ctx.n)
            } else {
                CapturedResult::Panicked("assertion failed: ctx.n == 2".to_string())
            }
        },
    );
    assert_eq!(outcome, TestOutcome::Passed(2));
}

struct GenericContext<T> {
    contents: T,
}

impl TestContext for GenericContext<u32> {
    fn setup() -> Self {
        Self { contents: 1 }
    }
}

impl TestContext for GenericContext<String> {
    fn setup() -> Self {
        Self {
            contents: "hello world".to_string(),
        }
    }
}

struct GenericContextU64 {
    contents: u64,
}

impl GenericContextU64 {
    async fn setup() -> Self {
        Self { contents: 1 }
    }
}

#[test]
fn test_generic_with_u32() {
    let f = expand(
        vec![FixtureArg::TypeLike(generic_path("GenericContext", &["u32"]))],
        test_fn(
            "test_generic_with_u32",
            false,
            vec![mut_ref_param("ctx", generic_path("GenericContext", &["u32"]))],
            "...",
        ),
    );
    let ctx = GenericContext::<u32>::setup();
    let body = if ctx.contents == 1 {
        CapturedResult::Completed(ctx.contents)
    } else {
        CapturedResult::Panicked("assertion failed: ctx.contents == 1".to_string())
    };
    let report = execute_wrapper(
        &f.wrapper,
        TestRun {
            setup: SetupOutcome::Ready,
            body,
            teardown: TeardownOutcome::Finished,
        },
    );
    assert_eq!(report.outcome, TestOutcome::Passed(1));
    ctx.teardown();
}

#[test]
fn test_generic_with_string() {
    let f = expand(
        vec![FixtureArg::TypeLike(generic_path("GenericContext", &["String"]))],
        test_fn(
            "test_generic_with_string",
            false,
            vec![mut_ref_param("ctx", generic_path("GenericContext", &["String"]))],
            "...",
        ),
    );
    let ctx = GenericContext::<String>::setup();
    let body = if ctx.contents == "hello world" {
        CapturedResult::Completed(0)
    } else {
        CapturedResult::Panicked("assertion failed: ctx.contents == \"hello world\"".to_string())
    };
    let report = execute_wrapper(
        &f.wrapper,
        TestRun {
            setup: SetupOutcome::Ready,
            body,
            teardown: TeardownOutcome::Finished,
        },
    );
    assert_eq!(report.outcome, TestOutcome::Passed(0));
    ctx.teardown();
}

#[test]
fn test_async_generic() {
    let f = expand(
        vec![FixtureArg::TypeLike(generic_path("GenericContext", &["u64"]))],
        test_fn(
            "test_async_generic",
            true,
            vec![mut_ref_param("test_ctx", generic_path("GenericContext", &["u64"]))],
            "...",
        ),
    );
    assert!(f.is_async);
    assert_eq!(f.wrapper.binding_name, "test_ctx");
    let ctx = futures::executor::block_on(GenericContextU64::setup());
    let body = if ctx.contents == 1 {
        CapturedResult::Completed(0)
    } else {
        CapturedResult::Panicked("assertion failed: test_ctx.contents == 1".to_string())
    };
    let report = execute_wrapper(
        &f.wrapper,
        TestRun {
            setup: SetupOutcome::Ready,
            body,
            teardown: TeardownOutcome::Finished,
        },
    );
    assert_eq!(report.outcome, TestOutcome::Passed(0));
}

struct MyAsyncContext {
    what_the_of_life: u32,
}

impl MyAsyncContext {
    async fn setup() -> Self {
        println!("I guess...");
        MyAsyncContext {
            what_the_of_life: 42,
        }
    }

    async fn teardown(self) {
        println!("Answer is {}", self.what_the_of_life);
    }
}

#[test]
fn test_async_generic_with_sync() {
    // A case parameter and the context parameter side by side: only the
    // case parameter remains in the residual list.
    let value: String = "Hello, World!".to_string();
    let f = expand(
        vec![FixtureArg::TypeLike(path("MyAsyncContext"))],
        test_fn(
            "test_async_generic_with_sync",
            true,
            vec![
                ident_param("value", false, path("String")),
                mut_ref_param("test_ctx", path("MyAsyncContext")),
            ],
            "...",
        ),
    );
    assert_eq!(f.params.len(), 1);
    assert!(matches!(
        &f.params[0].pattern,
        ArgPattern::Ident { name, .. } if name == "value"
    ));
    assert_eq!(f.wrapper.binding_name, "test_ctx");
    let ctx = futures::executor::block_on(MyAsyncContext::setup());
    println!("Something happens sync... {}", value);
    let body = if ctx.what_the_of_life == 42 {
        CapturedResult::Completed(0)
    } else {
        CapturedResult::Panicked("assertion failed: test_ctx.what_the_of_life == 42".to_string())
    };
    let report = execute_wrapper(
        &f.wrapper,
        TestRun {
            setup: SetupOutcome::Ready,
            body,
            teardown: TeardownOutcome::Finished,
        },
    );
    assert_eq!(report.outcome, TestOutcome::Passed(0));
    futures::executor::block_on(ctx.teardown());
}

struct MyContext {
    what_the_of_life: u32,
}

impl TestContext for MyContext {
    fn setup() -> Self {
        println!("I guess...");
        MyContext {
            what_the_of_life: 42,
        }
    }

    fn teardown(self) {
        println!("Answer is {}", self.what_the_of_life);
    }
}

#[test]
fn test_async_generic_with_async() {
    let value: String = "Hello, World!".to_string();
    let f = expand(
        vec![FixtureArg::TypeLike(path("MyContext"))],
        test_fn(
            "test_async_generic_with_async",
            false,
            vec![
                mut_ref_param("test_ctx", path("MyContext")),
                ident_param("value", false, path("String")),
            ],
            "...",
        ),
    );
    assert_eq!(f.params.len(), 1);
    assert!(matches!(
        &f.params[0].pattern,
        ArgPattern::Ident { name, .. } if name == "value"
    ));
    let ctx = MyContext::setup();
    println!("Something happens async... {}", value);
    let body = if ctx.what_the_of_life == 42 {
        CapturedResult::Completed(0)
    } else {
        CapturedResult::Panicked("assertion failed: test_ctx.what_the_of_life == 42".to_string())
    };
    let report = execute_wrapper(
        &f.wrapper,
        TestRun {
            setup: SetupOutcome::Ready,
            body,
            teardown: TeardownOutcome::Finished,
        },
    );
    assert_eq!(report.outcome, TestOutcome::Passed(0));
    ctx.teardown();
}

#[test]
fn fixture_args_accept_type_then_flag() {
    let parsed = TestContextArgs::parse(vec![
        FixtureArg::TypeLike(path("Counter")),
        FixtureArg::TypeLike(path("skip_teardown")),
    ])
    .expect("a type and one flag parse");
    assert!(parsed.skip_teardown);
    assert!(matches!(
        &parsed.context_type,
        TypeExpr::Path { segments, .. } if segments == &vec!["Counter".to_string()]
    ));
}

#[test]
fn fixture_args_accept_flag_then_type() {
    let parsed = TestContextArgs::parse(vec![
        FixtureArg::TypeLike(path("skip_teardown")),
        FixtureArg::TypeLike(path("Counter")),
    ])
    .expect("the flag may come first");
    assert!(parsed.skip_teardown);
}

#[test]
fn fixture_args_reject_empty_list() {
    let r = TestContextArgs::parse(vec![]);
    assert_eq!(r.unwrap_err(), SyntaxError::MissingContextType);
}

#[test]
fn fixture_args_reject_two_types() {
    let r = TestContextArgs::parse(vec![
        FixtureArg::TypeLike(path("Counter")),
        FixtureArg::TypeLike(path("Other")),
    ]);
    assert_eq!(r.unwrap_err(), SyntaxError::MultipleContextTypes);
}

#[test]
fn fixture_args_reject_duplicate_flag() {
    let r = TestContextArgs::parse(vec![
        FixtureArg::TypeLike(path("Counter")),
        FixtureArg::TypeLike(path("skip_teardown")),
        FixtureArg::TypeLike(path("skip_teardown")),
    ]);
    assert_eq!(r.unwrap_err(), SyntaxError::DuplicateSkipTeardown);
}

#[test]
fn fixture_args_reject_unrecognized_token() {
    let r = TestContextArgs::parse(vec![
        FixtureArg::Raw("= 3".to_string()),
        FixtureArg::TypeLike(path("Counter")),
    ]);
    assert_eq!(r.unwrap_err(), SyntaxError::UnrecognizedToken);
}

#[test]
fn signature_rejects_zero_context_params() {
    let r = test_context(
        vec![FixtureArg::TypeLike(path("Counter"))],
        test_fn(
            "no_context",
            false,
            vec![ident_param("value", false, path("String"))],
            "...",
        ),
    );
    assert_eq!(
        r.unwrap_err(),
        ExpandError::Signature(SignatureError::NoContextArg)
    );
}

#[test]
fn signature_rejects_two_context_params() {
    let r = test_context(
        vec![FixtureArg::TypeLike(path("Counter"))],
        test_fn(
            "two_contexts",
            false,
            vec![
                mut_ref_param("a", path("Counter")),
                mut_ref_param("b", path("Counter")),
            ],
            "...",
        ),
    );
    assert_eq!(
        r.unwrap_err(),
        ExpandError::Signature(SignatureError::MultipleContextArgs)
    );
}

#[test]
fn owned_binding_without_skip_teardown_is_rejected() {
    let r = test_context(
        vec![FixtureArg::TypeLike(path("Counter"))],
        test_fn(
            "owned_context",
            false,
            vec![ident_param("ctx", false, path("Counter"))],
            "...",
        ),
    );
    assert!(matches!(r.unwrap_err(), ExpandError::Configuration(_)));
}

#[test]
fn owned_binding_with_skip_teardown_is_accepted() {
    let f = expand(
        vec![
            FixtureArg::TypeLike(path("Counter")),
            FixtureArg::TypeLike(path("skip_teardown")),
        ],
        test_fn(
            "owned_context",
            false,
            vec![ident_param("ctx", false, path("Counter"))],
            "...",
        ),
    );
    assert_eq!(f.wrapper.mode, ContextArgMode::Owned);
    assert!(!f.wrapper.run_teardown);
}

#[test]
fn owned_mut_binding_is_classified_by_the_pattern() {
    let f = expand(
        vec![
            FixtureArg::TypeLike(path("Counter")),
            FixtureArg::TypeLike(path("skip_teardown")),
        ],
        test_fn(
            "owned_mut_context",
            false,
            vec![ident_param("ctx", true, path("Counter"))],
            "...",
        ),
    );
    assert_eq!(f.wrapper.mode, ContextArgMode::OwnedMut);
}

#[test]
fn shared_reference_binding_is_classified() {
    let f = expand(
        vec![FixtureArg::TypeLike(path("Counter"))],
        test_fn(
            "shared_ref_context",
            false,
            vec![ident_param(
                "ctx",
                false,
                TypeExpr::Reference {
                    mutable: false,
                    inner: Box::new(path("Counter")),
                },
            )],
            "...",
        ),
    );
    assert_eq!(f.wrapper.mode, ContextArgMode::Reference);
}

#[test]
fn non_identifier_patterns_pass_through() {
    let params = vec![
        Param {
            pattern: ArgPattern::Other {
                text: "(a, b)".to_string(),
            },
            ty: path("Counter"),
        },
        mut_ref_param("ctx", path("Counter")),
    ];
    let (residual, info) = remove_context_arg(params, &path("Counter")).expect("one match");
    assert_eq!(residual.len(), 1);
    assert_eq!(info.name, "ctx");
    assert_eq!(info.mode, ContextArgMode::MutableReference);
}

#[test]
fn classify_reports_the_context_parameter() {
    let arg = mut_ref_param("ctx", path("Counter"));
    match TestArg::parse_arg_with_expected_context(arg, &path("Counter")) {
        TestArg::Context(ContextArg { name, mode }) => {
            assert_eq!(name, "ctx");
            assert_eq!(mode, ContextArgMode::MutableReference);
        }
        TestArg::Any(_) => panic!("the parameter matches the context type"),
    }
}

#[test]
fn is_owned_distinguishes_the_modes() {
    assert!(ContextArgMode::Owned.is_owned());
    assert!(ContextArgMode::OwnedMut.is_owned());
    assert!(!ContextArgMode::Reference.is_owned());
    assert!(!ContextArgMode::MutableReference.is_owned());
}

#[test]
fn matching_goes_by_the_final_path_segment() {
    // An accepted limitation: distinct types sharing a final path segment
    // are judged equal, and generic arguments are ignored.
    let a = TypeExpr::Path {
        segments: vec!["one".to_string(), "Counter".to_string()],
        arguments: vec![],
    };
    let b = TypeExpr::Path {
        segments: vec!["two".to_string(), "Counter".to_string()],
        arguments: vec!["u32".to_string()],
    };
    assert!(types_equal(&a, &b));
    assert!(!types_equal(&path("Counter"), &path("Gauge")));
    assert!(!types_equal(
        &path("Counter"),
        &TypeExpr::Verbatim {
            text: "Counter".to_string()
        }
    ));
}

#[test]
fn lifecycle_steps_sync_with_teardown() {
    let f = expand(
        vec![FixtureArg::TypeLike(path("Counter"))],
        test_fn("sync_test", false, vec![mut_ref_param("ctx", path("Counter"))], "..."),
    );
    assert_eq!(
        f.steps(),
        vec![
            LifecycleStep::Construct { awaited: false },
            LifecycleStep::BindContext {
                name: "ctx".to_string(),
                mode: ContextArgMode::MutableReference,
            },
            LifecycleStep::RunBodyCaptured,
            LifecycleStep::Release { awaited: false },
            LifecycleStep::ResolveCaptured,
        ]
    );
}

#[test]
fn lifecycle_steps_async_with_teardown() {
    let f = expand(
        vec![FixtureArg::TypeLike(path("Counter"))],
        test_fn("async_test", true, vec![mut_ref_param("ctx", path("Counter"))], "..."),
    );
    assert_eq!(
        f.steps(),
        vec![
            LifecycleStep::Construct { awaited: true },
            LifecycleStep::BindContext {
                name: "ctx".to_string(),
                mode: ContextArgMode::MutableReference,
            },
            LifecycleStep::RunBodyCaptured,
            LifecycleStep::Release { awaited: true },
            LifecycleStep::ResolveCaptured,
        ]
    );
}

#[test]
fn lifecycle_steps_sync_skip_teardown() {
    let f = expand(
        vec![
            FixtureArg::TypeLike(path("Counter")),
            FixtureArg::TypeLike(path("skip_teardown")),
        ],
        test_fn("sync_skip", false, vec![mut_ref_param("ctx", path("Counter"))], "..."),
    );
    assert_eq!(
        f.steps(),
        vec![
            LifecycleStep::Construct { awaited: false },
            LifecycleStep::BindContext {
                name: "ctx".to_string(),
                mode: ContextArgMode::MutableReference,
            },
            LifecycleStep::RunBodyCaptured,
            LifecycleStep::ResolveCaptured,
        ]
    );
}

#[test]
fn lifecycle_steps_async_skip_teardown() {
    let f = expand(
        vec![
            FixtureArg::TypeLike(path("Counter")),
            FixtureArg::TypeLike(path("skip_teardown")),
        ],
        test_fn("async_skip", true, vec![mut_ref_param("ctx", path("Counter"))], "..."),
    );
    assert_eq!(
        f.steps(),
        vec![
            LifecycleStep::Construct { awaited: true },
            LifecycleStep::BindContext {
                name: "ctx".to_string(),
                mode: ContextArgMode::MutableReference,
            },
            LifecycleStep::RunBodyCaptured,
            LifecycleStep::ResolveCaptured,
        ]
    );
}

#[test]
fn resolve_captured_preserves_the_payload() {
    assert_eq!(
        resolve_captured(CapturedResult::<u32, String>::Completed(7)),
        TestOutcome::Passed(7)
    );
    assert_eq!(
        resolve_captured(CapturedResult::<u32, String>::Panicked("First panic".to_string())),
        TestOutcome::Failed("First panic".to_string())
    );
}

#[test]
fn syntax_errors_propagate_through_the_engine() {
    let r = test_context(
        vec![],
        test_fn("no_args", false, vec![mut_ref_param("ctx", path("Counter"))], "..."),
    );
    assert_eq!(
        r.unwrap_err(),
        ExpandError::Syntax(SyntaxError::MissingContextType)
    );
}
