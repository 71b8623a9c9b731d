use rover::dist::{Dist, DistAction, DistError, DistEvent, BUILD_CONTEXT, STRIP_CONTEXT};

fn dist() -> Dist {
    Dist { target: "x86_64-unknown-linux-gnu".to_string() }
}

#[test]
fn run_starts_with_a_build() {
    match dist().run(true, DistEvent::Started) {
        DistAction::Build { target, verbose } => {
            assert_eq!(target, "x86_64-unknown-linux-gnu");
            assert!(verbose);
        }
        _ => panic!("expected a build"),
    }
}

#[test]
fn run_strips_the_built_binary() {
    match dist().run(false, DistEvent::Built("target/rover".to_string())) {
        DistAction::Strip { binary_path, verbose } => {
            assert_eq!(binary_path, "target/rover");
            assert!(!verbose);
        }
        _ => panic!("expected a strip"),
    }
}

#[test]
fn run_finishes_after_strip() {
    assert!(matches!(dist().run(false, DistEvent::Stripped), DistAction::Finish(Ok(()))));
}

#[test]
fn run_reports_failures_with_context() {
    match dist().run(false, DistEvent::BuildFailed("linker".to_string())) {
        DistAction::Finish(Err(e)) => {
            assert_eq!(e.context(), Some(BUILD_CONTEXT));
            assert!(matches!(e, DistError::Build(ref c) if c == "linker"));
        }
        _ => panic!("expected a failure"),
    }
    match dist().run(false, DistEvent::StripFailed("strip".to_string())) {
        DistAction::Finish(Err(e)) => assert_eq!(e.context(), Some(STRIP_CONTEXT)),
        _ => panic!("expected a failure"),
    }
    match dist().run(false, DistEvent::SetupFailed("cargo".to_string())) {
        DistAction::Finish(Err(e)) => assert_eq!(e.context(), None),
        _ => panic!("expected a failure"),
    }
}
