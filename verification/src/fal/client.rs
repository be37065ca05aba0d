//! Rules of the video-generation service client: prompt validation, the
//! errors it reports, how a failed submission and a status reply are read,
//! and when a failed submission is retried.
use vstd::prelude::*;
use std::time::Duration;
use crate::fal::retry::{
    backoff_delay_nanos, backoff_nanos, duration_from_nanos, duration_nanos, nanos_of, DURATION_MAX_NANOS, min_int,
};
use crate::text::{
    chars_are, contains, contains_text, find, lowercase, push_str, push_u64, str_chars, to_lowercase, to_uppercase, trim,
    trim_chars, uppercase, decimal,
};

verus! {

/// Environment variable holding the service's API key.
pub const FAL_API_KEY_ENV: &'static str = "FAL_API_KEY";

/// Default base URL of the service.
pub const FAL_API_BASE_URL: &'static str = "https://queue.fal.run";

/// Default model for video generation.
pub const DEFAULT_MODEL: &'static str = "fal-ai/fast-svd-lcm";

/// Errors of the video-generation service client.
#[derive(Debug)]
pub enum FalError {
    NotImplemented,
    MissingApiKey,
    /// A failed HTTP request, with its message
    HttpError(String),
    ApiError(String),
    Timeout,
    /// A failed file operation, with its message
    IoError(String),
    RateLimit { message: String, retry_after_secs: Option<u64> },
    NetworkError { message: String, attempts: u32 },
    ContentPolicyViolation { message: String },
    EmptyPrompt,
    InvalidPrompt { reason: String },
}

pub open spec fn fal_message(e: FalError) -> Seq<char> {
    match e {
        FalError::NotImplemented => "fal.ai feature not yet implemented"@,
        FalError::MissingApiKey => "API key not configured"@,
        FalError::HttpError(m) => "HTTP request failed: "@ + m@,
        FalError::ApiError(m) => "API error: "@ + m@,
        FalError::Timeout => "Generation timed out"@,
        FalError::IoError(m) => "IO error: "@ + m@,
        FalError::RateLimit { message, .. } => "Rate limited: "@ + message@,
        FalError::NetworkError { message, attempts } => "Network error: "@ + message@ + " (after "@ + decimal(
            attempts as nat,
        ) + " attempts)"@,
        FalError::ContentPolicyViolation { message } => "Content policy violation: "@ + message@,
        FalError::EmptyPrompt => "Empty prompt"@,
        FalError::InvalidPrompt { reason } => "Invalid prompt: "@ + reason@,
    }
}

impl FalError {
    /// The user-facing message of this error.
    pub fn to_string(&self) -> (r: String)
        ensures
            r@ == fal_message(*self),
    {
        let mut s = String::new();
        match self {
            FalError::NotImplemented => push_str(&mut s, "fal.ai feature not yet implemented"),
            FalError::MissingApiKey => push_str(&mut s, "API key not configured"),
            FalError::HttpError(m) => {
                push_str(&mut s, "HTTP request failed: ");
                push_str(&mut s, m.as_str());
            },
            FalError::ApiError(m) => {
                push_str(&mut s, "API error: ");
                push_str(&mut s, m.as_str());
            },
            FalError::Timeout => push_str(&mut s, "Generation timed out"),
            FalError::IoError(m) => {
                push_str(&mut s, "IO error: ");
                push_str(&mut s, m.as_str());
            },
            FalError::RateLimit { message, .. } => {
                push_str(&mut s, "Rate limited: ");
                push_str(&mut s, message.as_str());
            },
            FalError::NetworkError { message, attempts } => {
                push_str(&mut s, "Network error: ");
                push_str(&mut s, message.as_str());
                push_str(&mut s, " (after ");
                push_u64(&mut s, *attempts as u64);
                push_str(&mut s, " attempts)");
            },
            FalError::ContentPolicyViolation { message } => {
                push_str(&mut s, "Content policy violation: ");
                push_str(&mut s, message.as_str());
            },
            FalError::EmptyPrompt => push_str(&mut s, "Empty prompt"),
            FalError::InvalidPrompt { reason } => {
                push_str(&mut s, "Invalid prompt: ");
                push_str(&mut s, reason.as_str());
            },
        }
        s
    }
}

/// Check a prompt before it is sent: it must hold something besides
/// whitespace.
pub fn validate_prompt(prompt: &str) -> (r: Result<(), FalError>)
    ensures
        r is Ok <==> trim(prompt@).len() > 0,
        r matches Err(e) ==> e is EmptyPrompt,
{
    let chars = str_chars(prompt);
    let trimmed = trim_chars(chars.as_slice());
    if trimmed.len() == 0 {
        Err(FalError::EmptyPrompt)
    } else {
        Ok(())
    }
}

/// The requested video size of a generation: a (width, height) pair when
/// both are given, and none (the service's default) when either is missing.
pub fn video_size(width: Option<u32>, height: Option<u32>) -> (r: Option<(u32, u32)>)
    ensures
        r == (match (width, height) {
            (Some(w), Some(h)) => Some((w, h)),
            _ => None::<(u32, u32)>,
        }),
{
    match (width, height) {
        (Some(w), Some(h)) => Some((w, h)),
        _ => None,
    }
}

/// A client needs an API key: an empty key is refused as missing.
pub fn check_api_key(api_key: &str) -> (r: Result<(), FalError>)
    ensures
        api_key@.len() == 0 <==> r matches Err(FalError::MissingApiKey),
        api_key@.len() != 0 <==> r is Ok,
{
    if api_key.unicode_len() == 0 {
        Err(FalError::MissingApiKey)
    } else {
        Ok(())
    }
}

/// Reply of the service's queue to a submission.
#[derive(Debug)]
pub struct QueueResponse {
    /// The unique request ID for polling.
    pub request_id: String,
    /// URL to check status (optional).
    pub status_url: Option<String>,
}

/// Status of a video generation request.
#[derive(Debug, Clone, PartialEq, Eq)]
pub enum GenerationStatus {
    /// Request is queued for processing.
    Pending,
    /// Video is being generated.
    InProgress,
    /// Generation completed successfully.
    Completed { video_url: String },
    /// Generation failed with an error.
    Failed { error: String },
}

/// Words that, in lowercase, mark a refusal by the content policy.
pub open spec fn policy_keywords() -> Seq<Seq<char>> {
    seq![
        "content policy"@,
        "policy violation"@,
        "inappropriate"@,
        "not allowed"@,
        "prohibited"@,
        "blocked"@,
        "unsafe"@,
        "violates"@,
        "moderation"@,
        "nsfw"@,
    ]
}

/// Whether lowercase error text holds one of the policy keywords.
pub open spec fn names_policy(lower: Seq<char>) -> bool {
    exists|k: int| 0 <= k < policy_keywords().len() && contains(lower, #[trigger] policy_keywords()[k])
}

/// Whether lowercase error text holds one of the policy keywords.
pub fn mentions_content_policy(lower: &str) -> (b: bool)
    ensures
        b == names_policy(lower@),
{
    let s = str_chars(lower);
    let t = s.as_slice();
    let ghost k = policy_keywords();
    let b = contains_text(t, "content policy") || contains_text(t, "policy violation") || contains_text(t, "inappropriate") || contains_text(
        t,
        "not allowed",
    ) || contains_text(t, "prohibited") || contains_text(t, "blocked") || contains_text(t, "unsafe") || contains_text(t, "violates") || contains_text(
        t,
        "moderation",
    ) || contains_text(t, "nsfw");
    proof {
        if b {
            if contains(lower@, k[0]) {
            } else if contains(lower@, k[1]) {
            } else if contains(lower@, k[2]) {
            } else if contains(lower@, k[3]) {
            } else if contains(lower@, k[4]) {
            } else if contains(lower@, k[5]) {
            } else if contains(lower@, k[6]) {
            } else if contains(lower@, k[7]) {
            } else if contains(lower@, k[8]) {
            } else {
                assert(contains(lower@, k[9]));
            }
        } else {
            assert forall|j: int| 0 <= j < k.len() implies !contains(lower@, #[trigger] k[j]) by {
                assert(j == 0 || j == 1 || j == 2 || j == 3 || j == 4 || j == 5 || j == 6 || j == 7 || j == 8
                    || j == 9);
            }
        }
    }
    b
}

/// Whether an error message reports a content-policy refusal, ignoring case.
pub fn is_content_policy_error(error_text: &str) -> (b: bool)
    ensures
        b == names_policy(lowercase(error_text@)),
{
    let lower = to_lowercase(error_text);
    mentions_content_policy(lower.as_str())
}

pub open spec fn opt_text(s: Option<String>) -> Option<Seq<char>> {
    match s {
        Some(t) => Some(t@),
        None => None,
    }
}

/// Error of a submission that the service answered with a failure status
/// `code` (shown as `status`), the reply's body if it could be read, and
/// its `Retry-After` seconds if given: too many requests is a rate limit;
/// a bad or forbidden request that names the content policy is a policy
/// refusal; anything else is an API error.
pub fn submission_failure(code: u16, status: &str, body: Option<String>, retry_after_secs: Option<u64>) -> (e:
    FalError)
    ensures
        code == 429 ==> (e matches FalError::RateLimit { message, retry_after_secs: r } && r == retry_after_secs
            && message@ == match opt_text(body) {
            Some(b) => b,
            None => "Rate limit exceeded"@,
        }),
        code != 429 ==> {
            let text = match opt_text(body) {
                Some(b) => b,
                None => "Unknown error"@,
            };
            if (code == 400 || code == 403) && names_policy(lowercase(text)) {
                e matches FalError::ContentPolicyViolation { message } && message@ == text
            } else {
                e matches FalError::ApiError(m) && m@ == "API request failed with status "@ + status@ + ": "@
                    + text
            }
        },
{
    if code == 429 {
        let message = match body {
            Some(b) => b,
            None => String::from_str("Rate limit exceeded"),
        };
        return FalError::RateLimit { message, retry_after_secs };
    }
    let text = match body {
        Some(b) => b,
        None => String::from_str("Unknown error"),
    };
    if (code == 400 || code == 403) && is_content_policy_error(text.as_str()) {
        return FalError::ContentPolicyViolation { message: text };
    }
    let mut m = String::from_str("API request failed with status ");
    push_str(&mut m, status);
    push_str(&mut m, ": ");
    push_str(&mut m, text.as_str());
    FalError::ApiError(m)
}

/// The reading of a status reply whose status word, in uppercase, is
/// `upper`: `PENDING`/`IN_QUEUE` are pending, `PROCESSING`/`IN_PROGRESS` in
/// progress, `COMPLETED`/`OK` completed with the video URL (or else the
/// response URL; an API error when there is neither), `FAILED`/`ERROR`
/// failed with the reply's error message (or a default message); any other
/// word is an API error naming it.
pub open spec fn status_reading(
    upper: Seq<char>,
    video_url: Option<Seq<char>>,
    response_url: Option<Seq<char>>,
    error: Option<Seq<char>>,
    r: Result<GenerationStatus, FalError>,
) -> bool {
    if upper == "PENDING"@ || upper == "IN_QUEUE"@ {
        r == Ok::<GenerationStatus, FalError>(GenerationStatus::Pending)
    } else if upper == "PROCESSING"@ || upper == "IN_PROGRESS"@ {
        r == Ok::<GenerationStatus, FalError>(GenerationStatus::InProgress)
    } else if upper == "COMPLETED"@ || upper == "OK"@ {
        match video_url {
            Some(u) => r matches Ok(GenerationStatus::Completed { video_url: v }) && v@ == u,
            None => match response_url {
                Some(u) => r matches Ok(GenerationStatus::Completed { video_url: v }) && v@ == u,
                None => r matches Err(FalError::ApiError(m)) && m@
                    == "Generation completed but no video URL in response"@,
            },
        }
    } else if upper == "FAILED"@ || upper == "ERROR"@ {
        r matches Ok(GenerationStatus::Failed { error: m }) && m@ == match error {
            Some(t) => t,
            None => "Unknown error occurred during generation"@,
        }
    } else {
        r matches Err(FalError::ApiError(m)) && m@ == "Unknown generation status: "@ + upper
    }
}

/// Reads the status reply of a generation request, its status word already
/// in uppercase: `PENDING`/`IN_QUEUE` are pending, `PROCESSING`/`IN_PROGRESS`
/// in progress, `COMPLETED`/`OK` completed with the video URL (or else the
/// response URL), `FAILED`/`ERROR` failed with the reply's error message;
/// any other word is an API error.
pub fn status_from_reply(
    upper: &str,
    video_url: Option<String>,
    response_url: Option<String>,
    error: Option<String>,
) -> (r: Result<GenerationStatus, FalError>)
    ensures
        status_reading(upper@, opt_text(video_url), opt_text(response_url), opt_text(error), r),
{
    let u = str_chars(upper);
    let t = u.as_slice();
    if chars_are(t, "PENDING") || chars_are(t, "IN_QUEUE") {
        Ok(GenerationStatus::Pending)
    } else if chars_are(t, "PROCESSING") || chars_are(t, "IN_PROGRESS") {
        Ok(GenerationStatus::InProgress)
    } else if chars_are(t, "COMPLETED") || chars_are(t, "OK") {
        match video_url {
            Some(v) => Ok(GenerationStatus::Completed { video_url: v }),
            None => match response_url {
                Some(v) => Ok(GenerationStatus::Completed { video_url: v }),
                None => Err(FalError::ApiError(String::from_str("Generation completed but no video URL in response"))),
            },
        }
    } else if chars_are(t, "FAILED") || chars_are(t, "ERROR") {
        let m = match error {
            Some(e) => e,
            None => String::from_str("Unknown error occurred during generation"),
        };
        Ok(GenerationStatus::Failed { error: m })
    } else {
        let mut m = String::from_str("Unknown generation status: ");
        push_str(&mut m, upper);
        Err(FalError::ApiError(m))
    }
}

/// Reads the status reply of a generation request, ignoring the case of
/// its status word; see `status_from_reply`.
pub fn parse_status_reply(
    status: &str,
    video_url: Option<String>,
    response_url: Option<String>,
    error: Option<String>,
) -> (r: Result<GenerationStatus, FalError>)
    ensures
        status_reading(uppercase(status@), opt_text(video_url), opt_text(response_url), opt_text(error), r),
{
    let upper = to_uppercase(status);
    status_from_reply(upper.as_str(), video_url, response_url, error)
}

/// Nanoseconds to wait before retrying after rate limit number `attempt`
/// (from 0): the server's `Retry-After` seconds if given, capped at `max`,
/// else the exponential backoff.
pub open spec fn rate_limit_wait(attempt: nat, retry_after_secs: Option<u64>, base: int, max: int) -> int {
    match retry_after_secs {
        Some(secs) => min_int(secs * 1_000_000_000, max),
        None => backoff_nanos(attempt, base, max),
    }
}

fn rate_limit_wait_nanos(attempt: u32, retry_after_secs: Option<u64>, base: u128, max: u128) -> (n: u128)
    requires
        base <= DURATION_MAX_NANOS,
        max <= DURATION_MAX_NANOS,
    ensures
        n == rate_limit_wait(attempt as nat, retry_after_secs, base as int, max as int),
        n <= DURATION_MAX_NANOS,
{
    match retry_after_secs {
        Some(secs) => {
            assert(secs * 1_000_000_000 <= DURATION_MAX_NANOS) by (nonlinear_arith)
                requires
                    secs <= u64::MAX,
            ;
            let wait = (secs as u128) * 1_000_000_000;
            if wait <= max {
                wait
            } else {
                max
            }
        },
        None => backoff_delay_nanos(attempt, base, max),
    }
}

/// After rate limit number `attempt` (from 0) of at most `max_retries`
/// retries: `None` to give up, else the wait before the next try.
pub fn rate_limit_retry(attempt: u32, max_retries: u32, retry_after_secs: Option<u64>, base: Duration, max: Duration) -> (r:
    Option<Duration>)
    ensures
        attempt >= max_retries ==> r is None,
        attempt < max_retries ==> (r matches Some(d) && duration_nanos(d) == rate_limit_wait(
            attempt as nat,
            retry_after_secs,
            duration_nanos(base),
            duration_nanos(max),
        )),
{
    if attempt >= max_retries {
        return None;
    }
    let n = rate_limit_wait_nanos(attempt, retry_after_secs, nanos_of(base), nanos_of(max));
    Some(duration_from_nanos(n))
}

/// After transient network failure number `attempt` (from 0) of at most
/// `max_retries` retries: `None` to give up, else the backoff before the
/// next try.
pub fn network_retry(attempt: u32, max_retries: u32, base: Duration, max: Duration) -> (r: Option<Duration>)
    ensures
        attempt >= max_retries ==> r is None,
        attempt < max_retries ==> (r matches Some(d) && duration_nanos(d) == backoff_nanos(
            attempt as nat,
            duration_nanos(base),
            duration_nanos(max),
        )),
{
    if attempt >= max_retries {
        return None;
    }
    let n = backoff_delay_nanos(attempt, nanos_of(base), nanos_of(max));
    proof {
        assert(n <= DURATION_MAX_NANOS) by {
            assert(backoff_nanos(attempt as nat, duration_nanos(base), duration_nanos(max)) <= DURATION_MAX_NANOS);
        }
    }
    Some(duration_from_nanos(n))
}

/// The failures seen so far by a submission that retries on both network
/// failures and rate limits.
#[derive(Debug, Clone, Copy, PartialEq, Eq, Structural)]
pub struct RetryCounts {
    pub network: u32,
    pub rate_limit: u32,
}

/// A retryable failure of one submission.
#[derive(Debug)]
pub enum RetryEvent {
    /// A transient network failure, with its message
    NetworkFailure { message: String },
    /// A rate-limit reply
    RateLimited { message: String, retry_after_secs: Option<u64> },
}

/// What to do after a retryable failure.
#[derive(Debug)]
pub enum RetryDecision {
    /// Wait, then submit again
    Wait(Duration),
    /// Stop and report this error
    GiveUp(FalError),
}

/// One step of the retry policy for both network failures (at most
/// `network_retries` retries) and rate limits (at most `rate_limit_retries`):
/// counts the failure, then waits the backoff (for a rate limit, the
/// server's `Retry-After` if given) or gives up with the failure as error.
pub fn next_retry(
    counts: RetryCounts,
    event: RetryEvent,
    network_retries: u32,
    rate_limit_retries: u32,
    base: Duration,
    max: Duration,
) -> (r: (RetryCounts, RetryDecision))
    requires
        event is NetworkFailure ==> counts.network < u32::MAX,
        event is RateLimited ==> counts.rate_limit < u32::MAX,
    ensures
        match event {
            RetryEvent::NetworkFailure { message } => {
                &&& r.0 == RetryCounts { network: (counts.network + 1) as u32, ..counts }
                &&& if counts.network + 1 > network_retries {
                    r.1 matches RetryDecision::GiveUp(FalError::NetworkError { message: m, attempts })
                        && m@ == message@ && attempts == counts.network + 1
                } else {
                    r.1 matches RetryDecision::Wait(d) && duration_nanos(d) == backoff_nanos(
                        counts.network as nat,
                        duration_nanos(base),
                        duration_nanos(max),
                    )
                }
            },
            RetryEvent::RateLimited { message, retry_after_secs } => {
                &&& r.0 == RetryCounts { rate_limit: (counts.rate_limit + 1) as u32, ..counts }
                &&& if counts.rate_limit + 1 > rate_limit_retries {
                    r.1 matches RetryDecision::GiveUp(FalError::RateLimit { message: m, retry_after_secs: s })
                        && m@ == message@ && s == retry_after_secs
                } else {
                    r.1 matches RetryDecision::Wait(d) && duration_nanos(d) == rate_limit_wait(
                        counts.rate_limit as nat,
                        retry_after_secs,
                        duration_nanos(base),
                        duration_nanos(max),
                    )
                }
            },
        },
{
    match event {
        RetryEvent::NetworkFailure { message } => {
            let attempts = counts.network + 1;
            let next = RetryCounts { network: attempts, rate_limit: counts.rate_limit };
            if attempts > network_retries {
                (next, RetryDecision::GiveUp(FalError::NetworkError { message, attempts }))
            } else {
                let n = backoff_delay_nanos(counts.network, nanos_of(base), nanos_of(max));
                proof {
                    assert(backoff_nanos(counts.network as nat, duration_nanos(base), duration_nanos(max))
                        <= DURATION_MAX_NANOS);
                }
                (next, RetryDecision::Wait(duration_from_nanos(n)))
            }
        },
        RetryEvent::RateLimited { message, retry_after_secs } => {
            let attempts = counts.rate_limit + 1;
            let next = RetryCounts { network: counts.network, rate_limit: attempts };
            if attempts > rate_limit_retries {
                (next, RetryDecision::GiveUp(FalError::RateLimit { message, retry_after_secs }))
            } else {
                let n = rate_limit_wait_nanos(counts.rate_limit, retry_after_secs, nanos_of(base), nanos_of(max));
                (next, RetryDecision::Wait(duration_from_nanos(n)))
            }
        },
    }
}

} // verus!
