use ghx::auth::AuthTokenError;
use ghx::auth::EnvDecision;
use ghx::auth::EnvTokenLookup;
use ghx::auth::HelperOutcome;
use ghx::auth::token_from_env;
use ghx::auth::token_from_helper;

#[test]
fn present_override_is_used_verbatim() {
    // The override wins exactly as given, whatever the helper would do.
    let r = token_from_env(EnvTokenLookup::Present("ghp_sample_token".to_string()));
    match r {
        EnvDecision::UseToken(t) => assert_eq!(t, "ghp_sample_token"),
        other => panic!("expected the override to be used, got {:?}", other),
    }
}

#[test]
fn absent_override_defers_to_helper() {
    let r = token_from_env(EnvTokenLookup::Absent);
    assert!(matches!(r, EnvDecision::RunHelper));
}

#[test]
fn unreadable_override_fails_with_env_error() {
    let r = token_from_env(EnvTokenLookup::NotUnicode("not unicode".to_string()));
    match r {
        EnvDecision::Fail(AuthTokenError::EnvVarNotValid(m)) => {
            assert_eq!(m, "not unicode")
        }
        other => panic!("expected an environment failure, got {:?}", other),
    }
}

#[test]
fn helper_stdout_is_trimmed_into_the_token() {
    let outcome = HelperOutcome::Completed {
        success: true,
        stdout: Some("  gho_from_helper\n".to_string()),
        stderr: Some(String::new()),
    };
    assert_eq!(token_from_helper(outcome).unwrap(), "gho_from_helper");
}

#[test]
fn helper_stdout_that_is_not_text_is_its_own_error() {
    let outcome = HelperOutcome::Completed {
        success: true,
        stdout: None,
        stderr: Some(String::new()),
    };
    assert!(matches!(
        token_from_helper(outcome),
        Err(AuthTokenError::GhOutputNotValidUtf8)
    ));
}

#[test]
fn failed_helper_reports_trimmed_stderr() {
    let outcome = HelperOutcome::Completed {
        success: false,
        stdout: Some(String::new()),
        stderr: Some("error: not logged in\n".to_string()),
    };
    match token_from_helper(outcome) {
        Err(AuthTokenError::GhCommandFailed(m)) => {
            assert_eq!(m, "error: not logged in")
        }
        other => panic!("expected a helper failure, got {:?}", other),
    }
}

#[test]
fn failed_helper_with_unreadable_stderr_uses_placeholder() {
    let outcome = HelperOutcome::Completed {
        success: false,
        stdout: Some(String::new()),
        stderr: None,
    };
    match token_from_helper(outcome) {
        Err(AuthTokenError::GhCommandFailed(m)) => assert_eq!(m, "<invalid stderr>"),
        other => panic!("expected a helper failure, got {:?}", other),
    }
}

#[test]
fn missing_helper_executable() {
    assert!(matches!(
        token_from_helper(HelperOutcome::ExecutableNotFound),
        Err(AuthTokenError::CouldntFindGhExecutable)
    ));
}

#[test]
fn helper_invocation_failure_keeps_its_description() {
    match token_from_helper(HelperOutcome::InvocationFailed("permission denied".to_string())) {
        Err(AuthTokenError::CouldntExecuteGhCommand(m)) => {
            assert_eq!(m, "permission denied")
        }
        other => panic!("expected an invocation failure, got {:?}", other),
    }
}
