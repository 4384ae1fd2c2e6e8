use pageinfo::capture::{
    capture_transition, content_type_of, nav_content_type, CaptureAction, CaptureConfig,
    CaptureError, CaptureEvent, CaptureState, CaptureVerdict, NavigationOutcome,
};
use pageinfo::cookies::CookieRecord;

fn header(name: &str, value: &str) -> (String, String) {
    (name.to_string(), value.to_string())
}

fn config(inject_cookies: bool, want_screenshot: bool) -> CaptureConfig {
    CaptureConfig {
        inject_cookies,
        want_screenshot,
        host: "example.com".to_string(),
    }
}

#[test]
fn content_type_first_match_wins_case_insensitively() {
    let headers = vec![
        header("Server", "nginx"),
        header("Content-Type", "text/html; charset=utf-8"),
        header("content-type", "application/json"),
    ];
    assert_eq!(
        content_type_of(&headers),
        Some("text/html; charset=utf-8".to_string())
    );
}

#[test]
fn content_type_absent_when_no_header_matches() {
    let headers = vec![header("Server", "nginx"), header("Content-Length", "12")];
    assert_eq!(content_type_of(&headers), None);
    assert_eq!(content_type_of(&Vec::new()), None);
}

#[test]
fn no_response_and_nav_error_have_no_content_type() {
    assert_eq!(nav_content_type(&NavigationOutcome::NoResponse), None);
    let err = NavigationOutcome::NavError {
        message: "net::ERR_NAME_NOT_RESOLVED".to_string(),
    };
    assert_eq!(nav_content_type(&err), None);
}

#[test]
fn successful_capture_closes_context_and_carries_result() {
    let cfg = config(false, false);
    let (s, a) = capture_transition(CaptureState::Start, CaptureEvent::Begin, &cfg);
    match &a {
        CaptureAction::OpenContext { cookies } => assert!(cookies.is_empty()),
        _ => panic!("expected the context to be opened"),
    }
    let (s, a) = capture_transition(s, CaptureEvent::ContextOpened, &cfg);
    assert!(matches!(a, CaptureAction::Navigate));
    let outcome = NavigationOutcome::Response {
        headers: vec![header("content-type", "text/html")],
    };
    let (s, a) = capture_transition(s, CaptureEvent::Navigated { outcome }, &cfg);
    assert!(matches!(a, CaptureAction::ReadContent));
    let (s, a) = capture_transition(
        s,
        CaptureEvent::ContentRead {
            content: Some("<html></html>".to_string()),
        },
        &cfg,
    );
    assert!(matches!(a, CaptureAction::CloseContext));
    let (s, a) = capture_transition(s, CaptureEvent::ContextClosed, &cfg);
    assert!(matches!(a, CaptureAction::Stop));
    match s {
        CaptureState::Finished {
            verdict: CaptureVerdict::Captured { result },
        } => {
            assert_eq!(result.content, Some("<html></html>".to_string()));
            assert_eq!(result.content_type, Some("text/html".to_string()));
        }
        _ => panic!("expected a captured verdict"),
    }
}

#[test]
fn navigation_error_still_reads_content() {
    let cfg = config(false, false);
    let (s, _) = capture_transition(CaptureState::Start, CaptureEvent::Begin, &cfg);
    let (s, _) = capture_transition(s, CaptureEvent::ContextOpened, &cfg);
    let outcome = NavigationOutcome::NavError {
        message: "timeout".to_string(),
    };
    let (s, a) = capture_transition(s, CaptureEvent::Navigated { outcome }, &cfg);
    assert!(matches!(a, CaptureAction::ReadContent));
    let (s, _) = capture_transition(s, CaptureEvent::ContentRead { content: None }, &cfg);
    let (s, _) = capture_transition(s, CaptureEvent::ContextClosed, &cfg);
    match s {
        CaptureState::Finished {
            verdict: CaptureVerdict::Captured { result },
        } => {
            assert_eq!(result.content, None);
            assert_eq!(result.content_type, None);
        }
        _ => panic!("expected a degraded captured verdict"),
    }
}

#[test]
fn screenshot_failure_is_fatal_to_the_capture() {
    let cfg = config(false, true);
    let (s, _) = capture_transition(CaptureState::Start, CaptureEvent::Begin, &cfg);
    let (s, _) = capture_transition(s, CaptureEvent::ContextOpened, &cfg);
    let outcome = NavigationOutcome::Response {
        headers: vec![header("content-type", "text/html")],
    };
    let (s, _) = capture_transition(s, CaptureEvent::Navigated { outcome }, &cfg);
    let (s, a) = capture_transition(
        s,
        CaptureEvent::ContentRead {
            content: Some("<html></html>".to_string()),
        },
        &cfg,
    );
    assert!(matches!(a, CaptureAction::TakeScreenshot));
    let (s, a) = capture_transition(s, CaptureEvent::ScreenshotDone { ok: false }, &cfg);
    assert!(matches!(a, CaptureAction::CloseContext));
    let (s, _) = capture_transition(s, CaptureEvent::ContextClosed, &cfg);
    match s {
        CaptureState::Finished {
            verdict: CaptureVerdict::Failed { error },
        } => assert!(matches!(error, CaptureError::Screenshot)),
        _ => panic!("expected a screenshot failure verdict"),
    }
}

#[test]
fn unreadable_cookie_store_is_a_configuration_error() {
    let cfg = config(true, false);
    let (s, a) = capture_transition(CaptureState::Start, CaptureEvent::Begin, &cfg);
    assert!(matches!(a, CaptureAction::ReadCookieStore));
    let (s, a) = capture_transition(
        s,
        CaptureEvent::CookieStoreUnreadable {
            message: "no such file".to_string(),
        },
        &cfg,
    );
    assert!(matches!(a, CaptureAction::Stop));
    match s {
        CaptureState::Finished {
            verdict: CaptureVerdict::Failed { error },
        } => match error {
            CaptureError::Configuration { message } => assert_eq!(message, "no such file"),
            _ => panic!("expected a configuration error"),
        },
        _ => panic!("expected a failed verdict"),
    }
}

#[test]
fn environment_failure_ends_the_capture() {
    let cfg = config(false, false);
    let (s, _) = capture_transition(CaptureState::Start, CaptureEvent::Begin, &cfg);
    let (s, a) = capture_transition(
        s,
        CaptureEvent::EnvironmentFailed {
            message: "browser binaries missing".to_string(),
        },
        &cfg,
    );
    assert!(matches!(a, CaptureAction::Stop));
    match s {
        CaptureState::Finished {
            verdict: CaptureVerdict::Failed { error },
        } => match error {
            CaptureError::Environment { message } => {
                assert_eq!(message, "browser binaries missing")
            }
            _ => panic!("expected an environment error"),
        },
        _ => panic!("expected a failed verdict"),
    }
}

#[test]
fn cookie_store_contents_are_filtered_before_injection() {
    let cfg = config(true, false);
    let (s, _) = capture_transition(CaptureState::Start, CaptureEvent::Begin, &cfg);
    let records = vec![
        CookieRecord {
            host: "example.com".to_string(),
            path: "/".to_string(),
            name: "sid".to_string(),
            value: "abc".to_string(),
            secure: true,
            http_only: true,
            has_expires: true,
            persistent: true,
            creation_utc: 0,
            expiry_utc: 0,
        },
        CookieRecord {
            host: "example.com".to_string(),
            path: "/".to_string(),
            name: "hollow".to_string(),
            value: String::new(),
            secure: false,
            http_only: false,
            has_expires: false,
            persistent: false,
            creation_utc: 0,
            expiry_utc: 0,
        },
        CookieRecord {
            host: "other.org".to_string(),
            path: "/".to_string(),
            name: "foreign".to_string(),
            value: "zzz".to_string(),
            secure: false,
            http_only: false,
            has_expires: false,
            persistent: false,
            creation_utc: 0,
            expiry_utc: 0,
        },
    ];
    let (_, a) = capture_transition(s, CaptureEvent::CookieStoreRead { records }, &cfg);
    match a {
        CaptureAction::OpenContext { cookies } => {
            assert_eq!(cookies.len(), 1);
            assert_eq!(cookies[0].name, "sid");
            assert_eq!(cookies[0].value, "abc");
            assert!(cookies[0].http_only);
        }
        _ => panic!("expected the context to be opened with filtered cookies"),
    }
}
