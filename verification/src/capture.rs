//! Navigation & capture engine, as decisions: classify the outcome of a
//! navigation, extract the response content-type, degrade failed steps to
//! absent values, and drive one browser session from opening to guaranteed
//! teardown. The browser work itself is performed by the caller, which feeds
//! each outcome back as an event.

use vstd::prelude::*;
use vstd::string::StrSliceExecFns;
use crate::cookies::{CookieRecord, SessionCookie, spec_injectable, spec_selected};
use crate::text::eq_ignore_ascii_case;

verus! {

/// What one navigation attempt came to: a response with headers, a completed
/// navigation without a response object, or a transport/navigation error.
pub enum NavigationOutcome {
    Response { headers: Vec<(String, String)> },
    NoResponse,
    NavError { message: String },
}

/// The artifact of a capture: rendered content, when it could be read, and
/// the response content-type, when one was seen.
pub struct CaptureResult {
    pub content: Option<String>,
    pub content_type: Option<String>,
}

/// The header name is `content-type`, compared without regard to ASCII case.
pub open spec fn is_content_type_name(name: Seq<char>) -> bool {
    eq_ignore_ascii_case(name, "content-type"@)
}

/// The value of the first `content-type` header, scanning in order.
pub open spec fn spec_content_type(hs: Seq<(String, String)>) -> Option<String>
    decreases hs.len(),
{
    if hs.len() == 0 {
        None
    } else if is_content_type_name(hs[0].0@) {
        Some(hs[0].1)
    } else {
        spec_content_type(hs.drop_first())
    }
}

/// Scan response headers for the first `content-type` entry, case-insensitively.
pub fn content_type_of(headers: &Vec<(String, String)>) -> (r: Option<String>)
    ensures
        r == spec_content_type(headers@),
{
    let n: usize = headers.len();
    proof {
        assert(headers@.subrange(0, n as int) =~= headers@);
    }
    let mut i: usize = 0;
    while i < n
        invariant
            0 <= i <= n == headers@.len(),
            spec_content_type(headers@) == spec_content_type(
                headers@.subrange(i as int, n as int),
            ),
            forall|j: int| 0 <= j < i ==> !is_content_type_name(headers@[j].0@),
        decreases n - i,
    {
        proof {
            assert(headers@.subrange(i as int, n as int)[0] == headers@[i as int]);
            assert(headers@.subrange(i as int, n as int).drop_first() =~= headers@.subrange(
                i + 1,
                n as int,
            ));
        }
        if crate::text::str_eq_ignore_ascii_case(headers[i].0.as_str(), "content-type") {
            proof {
                reveal_strlit("content-type");
            }
            return Some(headers[i].1.clone());
        }
        proof {
            reveal_strlit("content-type");
        }
        i = i + 1;
    }
    proof {
        assert(headers@.subrange(n as int, n as int).len() == 0);
    }
    None
}

/// The content-type a navigation outcome carries: only a response object has
/// headers to scan; no response and a navigation error yield none.
pub open spec fn spec_nav_content_type(nav: NavigationOutcome) -> Option<String> {
    match nav {
        NavigationOutcome::Response { headers } => spec_content_type(headers@),
        NavigationOutcome::NoResponse => None,
        NavigationOutcome::NavError { .. } => None,
    }
}

/// Classify a navigation outcome into the content-type it makes available.
pub fn nav_content_type(nav: &NavigationOutcome) -> (r: Option<String>)
    ensures
        r == spec_nav_content_type(*nav),
{
    match nav {
        NavigationOutcome::Response { headers } => content_type_of(headers),
        NavigationOutcome::NoResponse => None,
        NavigationOutcome::NavError { .. } => None,
    }
}

/// Why a capture task ended without a result.
pub enum CaptureError {
    /// Browser engine, browser, or context could not be brought up.
    Environment { message: String },
    /// Cookie injection was requested but the store was missing or malformed.
    Configuration { message: String },
    /// A requested screenshot could not be taken.
    Screenshot,
}

/// How a finished capture task ended.
pub enum CaptureVerdict {
    Captured { result: CaptureResult },
    Failed { error: CaptureError },
}

/// Where the capture task stands between two events.
pub enum CaptureState {
    /// Nothing begun.
    Start,
    /// The cookie store is being read.
    AwaitingCookies,
    /// Engine, browser, and context are being brought up.
    AwaitingContext,
    /// The page is navigating.
    AwaitingNavigation,
    /// The outcome is classified; the rendered content is being read.
    AwaitingContent { content_type: Option<String> },
    /// The screenshot is being taken.
    AwaitingScreenshot { content_type: Option<String>, content: Option<String> },
    /// The verdict stands; the context is open and must be closed.
    Closing { verdict: CaptureVerdict },
    /// The task is over and no live resource remains.
    Finished { verdict: CaptureVerdict },
}

/// What the world reported back for the last action.
pub enum CaptureEvent {
    Begin,
    CookieStoreRead { records: Vec<CookieRecord> },
    CookieStoreUnreadable { message: String },
    ContextOpened,
    EnvironmentFailed { message: String },
    Navigated { outcome: NavigationOutcome },
    ContentRead { content: Option<String> },
    ScreenshotDone { ok: bool },
    ContextClosed,
}

/// What the caller is to do next.
pub enum CaptureAction {
    ReadCookieStore,
    OpenContext { cookies: Vec<SessionCookie> },
    Navigate,
    ReadContent,
    TakeScreenshot,
    CloseContext,
    Stop,
}

/// Per-invocation capture configuration: whether to inject cookies, whether a
/// screenshot was requested, and the target host cookies are matched against.
pub struct CaptureConfig {
    pub inject_cookies: bool,
    pub want_screenshot: bool,
    pub host: String,
}

/// A live browsing context belongs to the state: one is open from the
/// moment the world reports `ContextOpened` until it reports
/// `ContextClosed`.
pub open spec fn context_open(s: CaptureState) -> bool {
    match s {
        CaptureState::Start => false,
        CaptureState::AwaitingCookies => false,
        CaptureState::AwaitingContext => false,
        CaptureState::AwaitingNavigation => true,
        CaptureState::AwaitingContent { .. } => true,
        CaptureState::AwaitingScreenshot { .. } => true,
        CaptureState::Closing { .. } => true,
        CaptureState::Finished { .. } => false,
    }
}

/// The event answers the pending action of the state.
pub open spec fn accepts(state: CaptureState, event: CaptureEvent) -> bool {
    match (state, event) {
        (CaptureState::Start, CaptureEvent::Begin) => true,
        (CaptureState::AwaitingCookies, CaptureEvent::CookieStoreRead { .. }) => true,
        (CaptureState::AwaitingCookies, CaptureEvent::CookieStoreUnreadable { .. }) => true,
        (CaptureState::AwaitingContext, CaptureEvent::ContextOpened) => true,
        (CaptureState::AwaitingContext, CaptureEvent::EnvironmentFailed { .. }) => true,
        (CaptureState::AwaitingNavigation, CaptureEvent::Navigated { .. }) => true,
        (CaptureState::AwaitingContent { .. }, CaptureEvent::ContentRead { .. }) => true,
        (CaptureState::AwaitingScreenshot { .. }, CaptureEvent::ScreenshotDone { .. }) => true,
        (CaptureState::Closing { .. }, CaptureEvent::ContextClosed) => true,
        _ => false,
    }
}

/// One step of the capture task: fold the event into the state and name the
/// next action. Cookie selection, value filtering, and content-type
/// classification happen where their events arrive; every path that opened a
/// context passes through `Closing`, so the context is always released.
pub fn capture_transition(state: CaptureState, event: CaptureEvent, config: &CaptureConfig) -> (r:
    (CaptureState, CaptureAction))
    requires
        accepts(state, event),
    ensures
// Law: the context is released on every path. The task is never told to
// stop while a context is open, and an open context is only given up by
// the close the world confirms.

        r.1 is Stop ==> !context_open(r.0),
        context_open(state) && !context_open(r.0) ==> event is ContextClosed,
        (match (state, event) {
            (CaptureState::Start, CaptureEvent::Begin) => {
                if config.inject_cookies {
                    r.0 is AwaitingCookies && r.1 is ReadCookieStore
                } else {
                    r.0 is AwaitingContext && (r.1 matches CaptureAction::OpenContext { cookies }
                        && cookies@.len() == 0)
                }
            },
            (CaptureState::AwaitingCookies, CaptureEvent::CookieStoreRead { records }) => {
                r.0 is AwaitingContext && (r.1 matches CaptureAction::OpenContext { cookies }
                    && cookies@ == spec_injectable(spec_selected(records@, config.host@)))
            },
            (CaptureState::AwaitingCookies, CaptureEvent::CookieStoreUnreadable { message }) => {
                (r.0 matches CaptureState::Finished {
                    verdict: CaptureVerdict::Failed {
                        error: CaptureError::Configuration { message: m },
                    },
                } && m == message) && r.1 is Stop
            },
            (CaptureState::AwaitingContext, CaptureEvent::ContextOpened) => {
                r.0 is AwaitingNavigation && r.1 is Navigate
            },
            (CaptureState::AwaitingContext, CaptureEvent::EnvironmentFailed { message }) => {
                (r.0 matches CaptureState::Finished {
                    verdict: CaptureVerdict::Failed {
                        error: CaptureError::Environment { message: m },
                    },
                } && m == message) && r.1 is Stop
            },
            (CaptureState::AwaitingNavigation, CaptureEvent::Navigated { outcome }) => {
                (r.0 matches CaptureState::AwaitingContent { content_type } && content_type
                    == spec_nav_content_type(outcome)) && r.1 is ReadContent
            },
            (CaptureState::AwaitingContent { content_type }, CaptureEvent::ContentRead {
                content,
            }) => {
                if config.want_screenshot {
                    (r.0 matches CaptureState::AwaitingScreenshot { content_type: t, content: c }
                        && t == content_type && c == content) && r.1 is TakeScreenshot
                } else {
                    (r.0 matches CaptureState::Closing {
                        verdict: CaptureVerdict::Captured { result },
                    } && result.content == content && result.content_type == content_type)
                        && r.1 is CloseContext
                }
            },
            (
                CaptureState::AwaitingScreenshot { content_type, content },
                CaptureEvent::ScreenshotDone { ok },
            ) => {
                if ok {
                    (r.0 matches CaptureState::Closing {
                        verdict: CaptureVerdict::Captured { result },
                    } && result.content == content && result.content_type == content_type)
                        && r.1 is CloseContext
                } else {
                    (r.0 matches CaptureState::Closing {
                        verdict: CaptureVerdict::Failed { error },
                    } && error is Screenshot) && r.1 is CloseContext
                }
            },
            (CaptureState::Closing { verdict }, CaptureEvent::ContextClosed) => {
                (r.0 matches CaptureState::Finished { verdict: v } && v == verdict)
                    && r.1 is Stop
            },
            _ => true,
        }),
{
    match (state, event) {
        (CaptureState::Start, CaptureEvent::Begin) => {
            if config.inject_cookies {
                (CaptureState::AwaitingCookies, CaptureAction::ReadCookieStore)
            } else {
                (
                    CaptureState::AwaitingContext,
                    CaptureAction::OpenContext { cookies: Vec::new() },
                )
            }
        },
        (CaptureState::AwaitingCookies, CaptureEvent::CookieStoreRead { records }) => {
            let selected = crate::cookies::select_cookies(&records, &config.host);
            let cookies = crate::cookies::injectable_cookies(selected);
            (CaptureState::AwaitingContext, CaptureAction::OpenContext { cookies })
        },
        (CaptureState::AwaitingCookies, CaptureEvent::CookieStoreUnreadable { message }) => {
            (
                CaptureState::Finished {
                    verdict: CaptureVerdict::Failed {
                        error: CaptureError::Configuration { message },
                    },
                },
                CaptureAction::Stop,
            )
        },
        (CaptureState::AwaitingContext, CaptureEvent::ContextOpened) => {
            (CaptureState::AwaitingNavigation, CaptureAction::Navigate)
        },
        (CaptureState::AwaitingContext, CaptureEvent::EnvironmentFailed { message }) => {
            (
                CaptureState::Finished {
                    verdict: CaptureVerdict::Failed {
                        error: CaptureError::Environment { message },
                    },
                },
                CaptureAction::Stop,
            )
        },
        (CaptureState::AwaitingNavigation, CaptureEvent::Navigated { outcome }) => {
            let content_type = nav_content_type(&outcome);
            (CaptureState::AwaitingContent { content_type }, CaptureAction::ReadContent)
        },
        (CaptureState::AwaitingContent { content_type }, CaptureEvent::ContentRead { content }) => {
            if config.want_screenshot {
                (
                    CaptureState::AwaitingScreenshot { content_type, content },
                    CaptureAction::TakeScreenshot,
                )
            } else {
                (
                    CaptureState::Closing {
                        verdict: CaptureVerdict::Captured {
                            result: CaptureResult { content, content_type },
                        },
                    },
                    CaptureAction::CloseContext,
                )
            }
        },
        (
            CaptureState::AwaitingScreenshot { content_type, content },
            CaptureEvent::ScreenshotDone { ok },
        ) => {
            if ok {
                (
                    CaptureState::Closing {
                        verdict: CaptureVerdict::Captured {
                            result: CaptureResult { content, content_type },
                        },
                    },
                    CaptureAction::CloseContext,
                )
            } else {
                (
                    CaptureState::Closing {
                        verdict: CaptureVerdict::Failed { error: CaptureError::Screenshot },
                    },
                    CaptureAction::CloseContext,
                )
            }
        },
        (CaptureState::Closing { verdict }, CaptureEvent::ContextClosed) => {
            (CaptureState::Finished { verdict }, CaptureAction::Stop)
        },
        (other_state, _) => (other_state, CaptureAction::Stop),
    }
}

} // verus!
