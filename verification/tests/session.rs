use runepl::engine::Engine;
use runepl::session::{format_code, join_line, str_eq, Outcome, Session, Step};

fn new_session() -> Session {
    Session::new(Engine::new().expect("the default engine should build"))
}

fn value_as_i64(outcome: Outcome) -> i64 {
    match outcome {
        Outcome::Value { value, .. } => rune::from_value(value).expect("an integer value"),
        other => panic!("expected a value outcome, got {:?}", other),
    }
}

#[test]
fn str_eq_exact() {
    assert!(str_eq(".clear", ".clear"));
    assert!(!str_eq(".clear", ".clear "));
    assert!(!str_eq(".show", ".help"));
    assert!(str_eq("", ""));
}

#[test]
fn join_line_empty_buffer_is_line_alone() {
    let buffer = String::new();
    assert_eq!(join_line(&buffer, "let x = 1"), "let x = 1");
}

#[test]
fn join_line_joins_with_newline() {
    let buffer = String::from("let x = 1");
    assert_eq!(join_line(&buffer, "x + 1"), "let x = 1\nx + 1");
}

#[test]
fn format_code_wraps_as_entry_routine() {
    assert_eq!(format_code("let x = 1"), "pub fn repl_main__() {\nlet x = 1\n}");
    assert_eq!(format_code(""), "pub fn repl_main__() {\n\n}");
}

#[test]
fn clear_resets_buffer() {
    let mut session = new_session();
    let _ = session.evaluate("let x = 1;");
    assert!(!session.buffer().is_empty());
    let outcome = session.evaluate(".clear");
    assert!(matches!(outcome, Outcome::Cleared));
    assert_eq!(session.buffer(), "");
}

#[test]
fn clear_on_empty_buffer_still_clears() {
    let mut session = new_session();
    let outcome = session.evaluate(".clear");
    assert!(matches!(outcome, Outcome::Cleared));
    assert_eq!(session.buffer(), "");
}

#[test]
fn show_emits_buffer_verbatim_and_does_not_mutate() {
    let mut session = new_session();
    let _ = session.evaluate("let x = 1;");
    let before = session.buffer().to_string();
    match session.evaluate(".show") {
        Outcome::Shown { text } => assert_eq!(text, before),
        other => panic!("expected the buffer back, got {:?}", other),
    }
    assert_eq!(session.buffer(), before);
}

#[test]
fn help_emits_usage_text() {
    let mut session = new_session();
    match session.evaluate(".help") {
        Outcome::Usage { text } => {
            assert_eq!(
                text,
                "runepl - A REPL for Rune.\n\nAvailable commands:\n .show  -- Show the current \
                 full code buffer.\n .clear -- Clear the current full code buffer.\n .help  -- \
                 Show this help.\n\nEverything else is appended as code into the buffer and \
                 executed.\n"
            );
        },
        other => panic!("expected usage text, got {:?}", other),
    }
    assert_eq!(session.buffer(), "");
}

#[test]
fn help_never_reaches_the_engine() {
    let session = new_session();
    // `.help` is decided before any candidate program exists: the step it
    // yields carries nothing to compile.
    assert!(matches!(session.prepare(".help"), Step::Help));
    assert!(matches!(session.prepare(".clear"), Step::Clear));
    assert!(matches!(session.prepare(".show"), Step::Show));
}

#[test]
fn meta_commands_match_exactly() {
    let mut session = new_session();
    // A trailing space means the line is script source, not a meta command,
    // and this one does not compile.
    let outcome = session.evaluate(".clear ");
    assert!(matches!(outcome, Outcome::CompileFailure { .. }));
    assert_eq!(session.buffer(), "");
}

#[test]
fn prepare_builds_the_wrapped_candidate() {
    let session = new_session();
    match session.prepare("let x = 1") {
        Step::Submit { candidate, program } => {
            assert_eq!(candidate, "let x = 1");
            assert_eq!(program, "pub fn repl_main__() {\nlet x = 1\n}");
        },
        other => panic!("expected a submission, got {:?}", other),
    }
}

#[test]
fn accepted_line_grows_buffer_and_returns_value() {
    let mut session = new_session();
    let result = value_as_i64(session.evaluate("1 + 1"));
    assert_eq!(result, 2);
    assert_eq!(session.buffer(), "1 + 1");
}

#[test]
fn sequencing_recompiles_the_joined_program() {
    let mut session = new_session();
    let _ = session.evaluate("let x = 1;");
    assert_eq!(session.buffer(), "let x = 1;");
    let result = value_as_i64(session.evaluate("x + 1"));
    assert_eq!(result, 2);
    assert_eq!(session.buffer(), "let x = 1;\nx + 1");
}

#[test]
fn invalid_line_leaves_buffer_unchanged() {
    let mut session = new_session();
    let _ = session.evaluate("let x = 1;");
    let outcome = session.evaluate("x +");
    match outcome {
        Outcome::CompileFailure { diagnostic } => assert!(!diagnostic.is_empty()),
        other => panic!("expected a compile failure, got {:?}", other),
    }
    assert_eq!(session.buffer(), "let x = 1;");
}

#[test]
fn rejection_is_idempotent() {
    let mut session = new_session();
    let _ = session.evaluate("let x = 1;");
    let first = session.evaluate("x +");
    let buffer_after_first = session.buffer().to_string();
    let second = session.evaluate("x +");
    match (first, second) {
        (
            Outcome::CompileFailure { diagnostic: d1 },
            Outcome::CompileFailure { diagnostic: d2 },
        ) => assert_eq!(d1, d2),
        other => panic!("expected two compile failures, got {:?}", other),
    }
    assert_eq!(session.buffer(), buffer_after_first);
    assert_eq!(session.buffer(), "let x = 1;");
}

#[test]
fn rejected_line_is_fully_absent() {
    let mut session = new_session();
    let _ = session.evaluate("let x = 1;");
    let rejected = session.evaluate("x +");
    assert!(matches!(rejected, Outcome::CompileFailure { .. }));
    let result = value_as_i64(session.evaluate("x + 2"));
    assert_eq!(result, 3);
    assert_eq!(session.buffer(), "let x = 1;\nx + 2");
}

#[test]
fn runtime_failure_leaves_buffer_unchanged() {
    let mut session = new_session();
    let _ = session.evaluate("let x = 1;");
    // Compiles, but fails while executing: the line is not persisted, so the
    // buffer keeps describing a program that runs to completion.
    let outcome = session.evaluate("1 / 0");
    match outcome {
        Outcome::RuntimeFailure { diagnostic } => assert!(!diagnostic.is_empty()),
        other => panic!("expected a runtime failure, got {:?}", other),
    }
    assert_eq!(session.buffer(), "let x = 1;");
}

#[test]
fn warnings_are_surfaced_and_never_block() {
    let mut session = new_session();
    // A refutable let pattern compiles with a warning; the line is still
    // accepted and executed.
    let outcome = session.evaluate("let [a] = [1];");
    match outcome {
        Outcome::Value { warnings, .. } => {
            let warnings = warnings.expect("a rendered warning");
            assert!(!warnings.is_empty());
        },
        other => panic!("expected a value outcome, got {:?}", other),
    }
    assert_eq!(session.buffer(), "let [a] = [1];");
}
