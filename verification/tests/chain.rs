use trinity_error::{
    attach_context, report_error, BoxErrExt, BoxedError, CauseLink, ErrorCapability, IntoBoxedError,
    IoFailure, NonSnafuError, OptBoxErrExt, OptionalBoxedError, OptionalMessage, ReticulateError,
    StringError, TestError,
};

fn boxed_leaf(text: &str) -> BoxedError {
    BoxedError::NonSnafu(NonSnafuError {
        message: text.to_string(),
    })
}

#[test]
fn attach_context_is_identity_on_success() {
    let res: Result<i32, NonSnafuError> = Ok(7);
    let attached = attach_context(res, |e| TestError::specific("ctx".to_string(), e));
    assert!(matches!(attached, Ok(7)));
}

#[test]
fn attach_context_wraps_failure() {
    let res: Result<i32, NonSnafuError> = Err(NonSnafuError {
        message: "inner".to_string(),
    });
    let attached = attach_context(res, |e| TestError::specific("ctx".to_string(), e));
    match attached {
        Err(TestError::Specific {
            message, source, ..
        }) => {
            assert_eq!(message, "ctx");
            assert_eq!(source.message, "inner");
        }
        _ => panic!("expected a Specific chain value"),
    }
}

#[test]
fn specific_message_contains_own_and_cause_text() {
    let err = TestError::specific(
        "m".to_string(),
        NonSnafuError {
            message: "inner cause text".to_string(),
        },
    );
    let rendered = err.message();
    assert!(rendered.contains("m"));
    assert!(rendered.contains("inner cause text"));
    assert_eq!(rendered, "Specific error: m: inner cause text");
}

#[test]
fn reporting_convention_inlines_the_immediate_cause() {
    // The display convention chosen here inlines the immediate cause's text
    // into the wrapping value's message, and the reporter still emits one
    // line per link: the first line deliberately repeats the second line's
    // text.
    let res: Result<(), TestError> = Err(TestError::Specific {
        message: "m".to_string(),
        source: NonSnafuError {
            message: "inner cause text".to_string(),
        },
        backtrace: None,
    });
    let lines = report_error(&res);
    assert_eq!(lines.len(), 2);
    assert_eq!(lines[0], "Specific error: m: inner cause text");
    assert_eq!(lines[1], "inner cause text");
    assert!(lines[0].contains(&lines[1]));
}

#[test]
fn optional_cause_absent_round_trip() {
    let absent = OptionalBoxedError::default();
    assert!(absent.cause().is_none());
    assert_eq!(absent.message(), "Unknown cause");
}

#[test]
fn optional_cause_present_round_trip() {
    let present = OptionalBoxedError::new(boxed_leaf("the deep cause"));
    match present.cause() {
        Some(link) => assert_eq!(link.message(), "the deep cause"),
        None => panic!("a present cause must be handed back"),
    }
    assert_eq!(present.message(), "Caused by: the deep cause");
}

#[test]
fn from_boxed_error_wraps_like_new() {
    let opt = OptionalBoxedError::from(boxed_leaf("deep"));
    match opt.cause() {
        Some(link) => assert_eq!(link.message(), "deep"),
        None => panic!("a cause wrapped through From must be present"),
    }
}

#[test]
fn optional_message_renders_empty_when_absent() {
    assert_eq!(OptionalMessage::none().render(), "");
    assert_eq!(OptionalMessage::from("x").render(), "x");
}

#[test]
fn string_error_keeps_its_text() {
    let err = StringError::new("Hello World!");
    assert_eq!(err.message(), "Hello World!");
    assert!(err.cause().is_none());
}

#[test]
fn erasure_keeps_message_behavior() {
    let reticulate = ReticulateError {
        item: "splines".to_string(),
    };
    let boxed = reticulate.into_boxed();
    assert_eq!(boxed.message(), "could not reticulate: splines");
    assert!(boxed.cause().is_none());

    let io = IoFailure {
        message: "entity not found".to_string(),
    };
    assert_eq!(io.into_boxed().message(), "entity not found");
}

#[test]
fn box_err_erases_only_the_failure() {
    let ok: Result<u8, StringError> = Ok(3);
    assert!(matches!(ok.box_err(), Ok(3)));

    let failed: Result<u8, StringError> = Err(StringError::new("boom"));
    match failed.box_err() {
        Err(boxed) => assert_eq!(boxed.message(), "boom"),
        Ok(_) => panic!("the failure must stay a failure"),
    }
}

#[test]
fn opt_box_err_wraps_into_a_present_cause() {
    let ok: Result<u8, StringError> = Ok(9);
    assert!(matches!(ok.opt_box_err(), Ok(9)));

    let failed: Result<u8, StringError> = Err(StringError::new("boom"));
    match failed.opt_box_err() {
        Err(opt) => {
            assert_eq!(opt.message(), "Caused by: boom");
            match opt.cause() {
                Some(CauseLink::Boxed(b)) => assert_eq!(b.message(), "boom"),
                _ => panic!("the wrapped cause must be present"),
            }
        }
        Ok(_) => panic!("the failure must stay a failure"),
    }
}

#[test]
fn report_of_success_emits_nothing() {
    let res: Result<u8, TestError> = Ok(1);
    assert!(report_error(&res).is_empty());
}

#[test]
fn report_line_count_matches_depth_two() {
    let res: Result<(), TestError> = Err(TestError::OptTest {
        source: OptionalBoxedError(None),
        message: OptionalMessage(None),
        backtrace: None,
    });
    let lines = report_error(&res);
    assert_eq!(lines.len(), 2);
    assert_eq!(lines[0], "Error with optionals: : Unknown cause");
    assert_eq!(lines[1], "Unknown cause");
}

#[test]
fn report_line_count_matches_depth_three() {
    let res: Result<(), TestError> = Err(TestError::OptTest {
        source: OptionalBoxedError(Some(boxed_leaf("deep"))),
        message: OptionalMessage(Some("Hello there".to_string())),
        backtrace: None,
    });
    let lines = report_error(&res);
    assert_eq!(lines.len(), 3);
    assert_eq!(lines[0], "Error with optionals: Hello there: Caused by: deep");
    assert_eq!(lines[1], "Caused by: deep");
    assert_eq!(lines[2], "deep");
}

#[test]
fn report_emits_one_more_line_iff_a_trace_was_captured() {
    let bt: snafu::Backtrace = snafu::GenerateImplicitData::generate();
    let with_trace: Result<(), TestError> = Err(TestError::Generic {
        source: boxed_leaf("cause"),
        backtrace: Some(bt),
    });
    let lines = report_error(&with_trace);
    assert_eq!(lines.len(), 3);
    assert_eq!(lines[0], "Generic error: cause");
    assert_eq!(lines[1], "cause");
    assert!(lines[2].starts_with("BACKTRACE: "));

    let without_trace: Result<(), TestError> = Err(TestError::Generic {
        source: boxed_leaf("cause"),
        backtrace: None,
    });
    assert_eq!(report_error(&without_trace).len(), 2);
}

#[test]
fn constructors_capture_the_trace_at_construction() {
    // Whether a snapshot is captured depends on the environment; whatever the
    // outcome, the reporter emits the extra line exactly when one was.
    let err = TestError::generic(boxed_leaf("cause"));
    let expected = 2 + if err.trace().is_some() { 1 } else { 0 };
    let res: Result<(), TestError> = Err(err);
    assert_eq!(report_error(&res).len(), expected);
}

#[test]
fn generic_and_dep_generic_messages_differ_only_in_label() {
    let generic = TestError::generic(boxed_leaf("why"));
    assert_eq!(generic.message(), "Generic error: why");
    let dep = TestError::dep_generic(boxed_leaf("why"));
    assert_eq!(dep.message(), "Generic dependency error: why");
}

#[test]
fn dep_io_message_embeds_description_and_cause() {
    let err = TestError::dep_io(
        "could not open".to_string(),
        IoFailure {
            message: "entity not found".to_string(),
        },
    );
    assert_eq!(
        err.message(),
        "Dependency IO error: could not open: entity not found"
    );
}

#[test]
fn opt_test_no_cause_builds_an_absent_cause() {
    let err = TestError::opt_test_no_cause(OptionalMessage::from("my message"));
    assert_eq!(err.message(), "Error with optionals: my message: Unknown cause");
    match err.cause() {
        Some(CauseLink::OptBoxed(container)) => assert!(container.cause().is_none()),
        _ => panic!("the chain entry must be the optional-cause container"),
    }
}
