//! What the library makes of a finished `git` or `gh` process.
use vstd::prelude::*;
use vstd::utf8::{decode_utf8, valid_utf8};
use crate::text::{contains_chars, contains_spec, chars_of, lower_chars, lower_spec, trim, trim_spec};
use crate::types::{CommandOutput, DataError, DataErrorView};

verus! {

/// The text that lossy UTF-8 decoding gives for some bytes.
pub uninterp spec fn utf8_lossy(b: Seq<u8>) -> Seq<char>;

/// Decodes bytes as UTF-8, with replacement characters for invalid
/// sequences (`String::from_utf8_lossy`). Claims that the result is a
/// function of the bytes alone, and is the exact decoding when the bytes are
/// valid UTF-8; how invalid sequences are replaced is not stated.
#[verifier::external_body]
pub(crate) fn decode_lossy(b: &[u8]) -> (r: String)
    ensures
        r@ == utf8_lossy(b@),
        valid_utf8(b@) ==> r@ == decode_utf8(b@),
{
    String::from_utf8_lossy(b).into_owned()
}

/// The trimmed standard output of a `git` run that succeeded.
pub open spec fn git_text(r: Result<CommandOutput, String>) -> Option<Seq<char>> {
    match r {
        Ok(o) => if o.success {
            Some(trim_spec(utf8_lossy(o.stdout@)))
        } else {
            None
        },
        Err(_) => None,
    }
}

/// The standard output of a `git` run that succeeded, decoded as it is.
pub open spec fn git_raw_text(r: Result<CommandOutput, String>) -> Option<Seq<char>> {
    match r {
        Ok(o) => if o.success {
            Some(utf8_lossy(o.stdout@))
        } else {
            None
        },
        Err(_) => None,
    }
}

/// The decoded, untrimmed output of a `git` run when it succeeded, else why
/// it failed.
pub fn run_git_raw(r: &Result<CommandOutput, String>) -> (x: Result<String, DataError>)
    ensures
        match x {
            Ok(s) => git_raw_text(*r) == Some(s@),
            Err(e) => git_raw_text(*r) is None && e@ == git_error(*r),
        },
{
    match r {
        Ok(o) => {
            if o.success {
                Ok(decode_lossy(o.stdout.as_slice()))
            } else {
                Err(DataError::CommandFailed(decode_lossy(o.stderr.as_slice())))
            }
        },
        Err(e) => Err(DataError::LaunchFailed(e.clone())),
    }
}

/// Why a `git` run gave no text.
pub open spec fn git_error(r: Result<CommandOutput, String>) -> DataErrorView {
    match r {
        Ok(o) => DataErrorView::CommandFailed(utf8_lossy(o.stderr@)),
        Err(e) => DataErrorView::LaunchFailed(e@),
    }
}

/// The text of a `git` run: its trimmed standard output when it succeeded,
/// else why it failed.
pub fn run_git_result(r: &Result<CommandOutput, String>) -> (x: Result<String, DataError>)
    ensures
        match x {
            Ok(s) => git_text(*r) == Some(s@),
            Err(e) => git_text(*r) is None && e@ == git_error(*r),
        },
{
    match r {
        Ok(o) => {
            if o.success {
                let s = decode_lossy(o.stdout.as_slice());
                Ok(trim(s.as_str()))
            } else {
                Err(DataError::CommandFailed(decode_lossy(o.stderr.as_slice())))
            }
        },
        Err(e) => Err(DataError::LaunchFailed(e.clone())),
    }
}

/// The non-empty text of a successful `git` run.
pub open spec fn git_opt_text(r: Result<CommandOutput, String>) -> Option<Seq<char>> {
    match git_text(r) {
        Some(s) => if s.len() > 0 {
            Some(s)
        } else {
            None
        },
        None => None,
    }
}

/// The text of a `git` run if it succeeded with non-empty output.
pub fn run_git_opt(r: &Result<CommandOutput, String>) -> (x: Option<String>)
    ensures
        match x {
            Some(s) => git_opt_text(*r) == Some(s@),
            None => git_opt_text(*r) is None,
        },
{
    match run_git_result(r) {
        Ok(s) => {
            if s.as_str().is_empty() {
                None
            } else {
                Some(s)
            }
        },
        Err(_) => None,
    }
}

/// Whether the working directory is inside a git work tree: the probe
/// `git rev-parse --is-inside-work-tree` succeeded.
pub fn is_git_repo(probe: &Result<CommandOutput, String>) -> (b: bool)
    ensures
        b == git_text(*probe) is Some,
{
    run_git_result(probe).is_ok()
}

/// Failure messages of `gh` that are worth retrying: server errors, rate
/// limits, timeouts and dropped connections.
pub open spec fn is_transient_spec(stderr: Seq<char>) -> bool {
    let s = lower_spec(stderr);
    ||| contains_spec(s, "http 5"@)
    ||| contains_spec(s, "http 429"@)
    ||| contains_spec(s, "http 408"@)
    ||| contains_spec(s, "timeout"@)
    ||| contains_spec(s, "timed out"@)
    ||| contains_spec(s, "connection reset"@)
    ||| contains_spec(s, "connection refused"@)
    ||| contains_spec(s, "temporarily unavailable"@)
}

/// Whether a `gh` failure looks transient.
pub fn is_transient(stderr: &str) -> (b: bool)
    ensures
        b == is_transient_spec(stderr@),
{
    let raw = chars_of(stderr);
    let s = lower_chars(&raw);
    contains_chars(&s, &chars_of("http 5")) || contains_chars(&s, &chars_of("http 429"))
        || contains_chars(&s, &chars_of("http 408")) || contains_chars(&s, &chars_of("timeout"))
        || contains_chars(&s, &chars_of("timed out")) || contains_chars(
        &s,
        &chars_of("connection reset"),
    ) || contains_chars(&s, &chars_of("connection refused")) || contains_chars(
        &s,
        &chars_of("temporarily unavailable"),
    )
}

/// The most attempts a `gh` call gets.
pub const GH_MAX_ATTEMPTS: u32 = 3;

/// The pause before the first retry.
pub const GH_FIRST_DELAY_MS: u64 = 300;

/// Where a sequence of `gh` attempts stands.
#[derive(Clone, Copy, Debug)]
pub struct GhRetry {
    /// The number of the attempt about to be judged, from 1.
    pub attempt: u32,
    /// The pause before the next attempt, should this one fail transiently.
    pub delay_ms: u64,
}

/// What to do after a `gh` attempt.
#[derive(Debug)]
pub enum GhStep {
    /// Stop, with the attempt's standard output or the failure.
    Finish(Result<Vec<u8>, DataError>),
    /// Sleep for `delay_ms`, then run the command again in state `next`.
    Retry { delay_ms: u64, next: GhRetry },
}

/// An attempt is retried when it ran but failed with an error that looks
/// transient, and it was not the last attempt allowed.
pub open spec fn retries(s: GhRetry, out: Result<CommandOutput, String>) -> bool {
    &&& out matches Ok(o)
    &&& !o.success
    &&& s.attempt < GH_MAX_ATTEMPTS
    &&& is_transient_spec(utf8_lossy(o.stderr@))
}

/// The state of the next attempt: its number one higher, its pause three
/// times as long (saturating).
pub open spec fn next_retry(s: GhRetry) -> GhRetry {
    GhRetry {
        attempt: (s.attempt + 1) as u32,
        delay_ms: if s.delay_ms * 3 <= u64::MAX {
            (s.delay_ms * 3) as u64
        } else {
            u64::MAX
        },
    }
}

impl GhRetry {
    /// The state before the first attempt.
    pub fn new() -> (r: GhRetry)
        ensures
            r.attempt == 1,
            r.delay_ms == GH_FIRST_DELAY_MS,
    {
        GhRetry { attempt: 1, delay_ms: GH_FIRST_DELAY_MS }
    }

    /// Judges one attempt. A success gives its output; a launch failure
    /// stops at once; an unsuccessful run is retried after a pause when its
    /// error looks transient and attempts remain, the pause tripling each
    /// time; otherwise it fails with its trimmed error text.
    pub fn step(&self, out: &Result<CommandOutput, String>) -> (r: GhStep)
        requires
            1 <= self.attempt <= GH_MAX_ATTEMPTS,
        ensures
            r is Retry <==> retries(*self, *out),
            r matches GhStep::Retry { delay_ms, next } ==> delay_ms == self.delay_ms && next
                == next_retry(*self),
            match *out {
                Err(e) => r matches GhStep::Finish(Err(x)) && x@ == DataErrorView::LaunchFailed(e@),
                Ok(o) => if o.success {
                    r matches GhStep::Finish(Ok(b)) && b@ == o.stdout@
                } else if self.attempt < GH_MAX_ATTEMPTS && is_transient_spec(utf8_lossy(o.stderr@)) {
                    r matches GhStep::Retry { delay_ms, next } && delay_ms == self.delay_ms
                        && next.attempt == self.attempt + 1 && next.delay_ms == (if self.delay_ms
                        * 3 <= u64::MAX {
                        self.delay_ms * 3
                    } else {
                        u64::MAX as int
                    })
                } else {
                    r matches GhStep::Finish(Err(x)) && x@ == DataErrorView::CommandFailed(
                        trim_spec(utf8_lossy(o.stderr@)),
                    )
                },
            },
    {
        match out {
            Err(e) => GhStep::Finish(Err(DataError::LaunchFailed(e.clone()))),
            Ok(o) => {
                if o.success {
                    GhStep::Finish(Ok(o.stdout.clone()))
                } else {
                    let stderr = decode_lossy(o.stderr.as_slice());
                    if self.attempt < GH_MAX_ATTEMPTS && is_transient(stderr.as_str()) {
                        let next_delay: u64 = if self.delay_ms <= u64::MAX / 3 {
                            self.delay_ms * 3
                        } else {
                            u64::MAX
                        };
                        GhStep::Retry {
                            delay_ms: self.delay_ms,
                            next: GhRetry { attempt: self.attempt + 1, delay_ms: next_delay },
                        }
                    } else {
                        GhStep::Finish(Err(DataError::CommandFailed(trim(stderr.as_str()))))
                    }
                }
            },
        }
    }
}

} // verus!
