//! Judging the response of a service health check.
use vstd::prelude::*;
use vstd::string::*;
use crate::config::ResolvedServiceConfig;
use crate::status::ServiceStatus;
use crate::text::push_decimal;
use crate::text::decimal;

verus! {

/// Whether the regular expression `pattern` matches somewhere in `body`, as the `regex`
/// crate decides it; `None` when `pattern` is not a valid regular expression.
pub uninterp spec fn regex_match_outcome(pattern: Seq<char>, body: Seq<char>) -> Option<bool>;

/// Compiles `pattern` with `regex::Regex::new` and, when it compiles, tests it against
/// `body` with `Regex::is_match`. The result is named by [`regex_match_outcome`]:
/// `None` for a pattern that does not compile, otherwise whether it matches.
#[verifier::external_body]
fn regex_is_match(pattern: &str, body: &str) -> (r: Option<bool>)
    ensures
        r == regex_match_outcome(pattern@, body@),
{
    match regex::Regex::new(pattern) {
        Ok(re) => Some(re.is_match(body)),
        Err(_) => None,
    }
}

/// Whether a status code counts as success: one of the expected codes, or any 2xx code
/// when none are configured.
pub open spec fn spec_status_code_ok(expected: Option<Seq<u16>>, code: u16) -> bool {
    match expected {
        Some(codes) => codes.contains(code),
        None => 200 <= code && code < 300,
    }
}

/// With an expected list, a status code is accepted exactly when some entry of the list
/// is that code (every listed code, the first included, is accepted); without one, exactly
/// the codes from 200 to 299 are.
pub proof fn lemma_status_code_accepted(expected: Option<Seq<u16>>, code: u16)
    ensures
        match expected {
            Some(codes) => spec_status_code_ok(expected, code) <==> exists|i: int|
                0 <= i < codes.len() && #[trigger] codes[i] == code,
            None => spec_status_code_ok(expected, code) <==> (200 <= code && code <= 299),
        },
        expected matches Some(codes) ==> forall|i: int|
            0 <= i < codes.len() ==> spec_status_code_ok(expected, #[trigger] codes[i]),
{
    if let Some(codes) = expected {
        if exists|i: int| 0 <= i < codes.len() && #[trigger] codes[i] == code {
            let i = choose|i: int| 0 <= i < codes.len() && #[trigger] codes[i] == code;
            assert(codes.contains(code));
        }
        assert forall|i: int| 0 <= i < codes.len() implies spec_status_code_ok(expected, #[trigger] codes[i]) by {
            assert(codes.contains(codes[i]));
        }
    }
}

pub fn status_code_ok(expected: &Option<Vec<u16>>, code: u16) -> (b: bool)
    ensures
        b == spec_status_code_ok(
            match expected {
                Some(v) => Some(v@),
                None => None,
            },
            code,
        ),
{
    match expected {
        None => 200 <= code && code < 300,
        Some(codes) => {
            let mut i: usize = 0;
            while i < codes.len()
                invariant
                    0 <= i <= codes@.len(),
                    *expected == Some(*codes),
                    forall|j: int| 0 <= j < i ==> codes@[j] != code,
                decreases codes@.len() - i,
            {
                if codes[i] == code {
                    assert(codes@[i as int] == code);
                    assert(codes@.contains(code));
                    return true;
                }
                i = i + 1;
            }
            false
        },
    }
}

/// A check's status from whether the status code was accepted and, when a body pattern is
/// configured, the outcome of matching it (`Some(None)` for a pattern that does not
/// compile): down for a refused code, degraded for a body that does not match or a broken
/// pattern, up otherwise.
pub open spec fn spec_response_status(status_ok: bool, pattern_outcome: Option<Option<bool>>) -> ServiceStatus {
    if !status_ok {
        ServiceStatus::Down
    } else {
        match pattern_outcome {
            None => ServiceStatus::Up,
            Some(Some(true)) => ServiceStatus::Up,
            Some(_) => ServiceStatus::Degraded,
        }
    }
}

pub fn response_status(status_ok: bool, pattern_outcome: Option<Option<bool>>) -> (s: ServiceStatus)
    ensures
        s == spec_response_status(status_ok, pattern_outcome),
{
    if !status_ok {
        return ServiceStatus::Down;
    }
    match pattern_outcome {
        None => ServiceStatus::Up,
        Some(Some(true)) => ServiceStatus::Up,
        Some(_) => ServiceStatus::Degraded,
    }
}

/// Judges a response to a service check by its status code and body.
pub fn evaluate_response(config: &ResolvedServiceConfig, status_code: u16, body: &str) -> (s: ServiceStatus)
    ensures
        s == spec_response_status(
            spec_status_code_ok(
                match config.expected_status {
                    Some(v) => Some(v@),
                    None => None,
                },
                status_code,
            ),
            match config.body_pattern {
                Some(p) => Some(regex_match_outcome(p@, body@)),
                None => None,
            },
        ),
{
    let ok = status_code_ok(&config.expected_status, status_code);
    if !ok {
        return response_status(false, None);
    }
    let outcome = match &config.body_pattern {
        Some(p) => Some(regex_is_match(p.as_str(), body)),
        None => None,
    };
    response_status(true, outcome)
}

/// The error a check with a response records: `Unexpected status code: {code}` unless the
/// service is up.
pub open spec fn spec_check_error(status: ServiceStatus, status_code: u16) -> Option<Seq<char>> {
    if status == ServiceStatus::Up {
        None
    } else {
        Some("Unexpected status code: "@ + decimal(status_code as nat))
    }
}

pub fn check_error_message(status: ServiceStatus, status_code: u16) -> (m: Option<String>)
    ensures
        match m {
            Some(s) => spec_check_error(status, status_code) == Some(s@),
            None => spec_check_error(status, status_code) is None,
        },
{
    if status == ServiceStatus::Up {
        None
    } else {
        let mut s = String::from_str("Unexpected status code: ");
        push_decimal(&mut s, status_code as u64);
        Some(s)
    }
}

} // verus!
