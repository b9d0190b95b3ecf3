//! Classification of the browser engine's health probe.
//!
//! The probe itself — a bounded-timeout request to the engine's control
//! endpoint — is network I/O and lives outside.  It hands back what it
//! observed; this module turns the observation into the health report the
//! HTTP layer serves, and never anything else: available exactly when the
//! engine answered with a success status, unavailable (with the reason)
//! otherwise.

use vstd::prelude::*;

verus! {

/// True exactly when an HTTP status code counts as success (2xx).
pub open spec fn spec_is_success_status(code: u16) -> bool {
    200 <= code < 300
}

/// Classifies an HTTP status code as success, as the probe does.
pub fn is_success_status(code: u16) -> (r: bool)
    ensures
        r == spec_is_success_status(code),
{
    200 <= code && code < 300
}

/// What the probe of the engine's control endpoint observed.
pub enum ProbeOutcome {
    /// No control endpoint is configured, so nothing was probed.
    NotConfigured,
    /// The endpoint answered with this HTTP status code.
    Responded(u16),
    /// Connection failure or timeout: no answer at all.
    Unreachable,
}

/// The engine counts as available exactly when the probe got a success
/// status back.
pub open spec fn spec_available(p: ProbeOutcome) -> bool {
    match p {
        ProbeOutcome::Responded(code) => spec_is_success_status(code),
        _ => false,
    }
}

/// The body text the health endpoint serves for an observation.
pub open spec fn spec_health_body(p: ProbeOutcome) -> Seq<char> {
    match p {
        ProbeOutcome::NotConfigured => "Chromium connection URL not configured"@,
        ProbeOutcome::Responded(code) => if spec_is_success_status(code) {
            "OK"@
        } else {
            "Chromium instance unreachable"@
        },
        ProbeOutcome::Unreachable => "Chromium instance unreachable"@,
    }
}

/// The health report handed to the HTTP layer: the status code to serve,
/// whether the engine is available, and the body text.
pub struct HealthReport {
    pub http_status: u16,
    pub available: bool,
    pub body: String,
}

/// Turns a probe observation into the health report.  A success answer
/// maps to available with status 200 and body "OK"; an error answer, an
/// unreachable endpoint and a missing configuration all map to status 503
/// with the matching body.  Every observation resolves to a report —
/// nothing escapes this boundary.
pub fn evaluate_health(p: &ProbeOutcome) -> (r: HealthReport)
    ensures
        r.available == spec_available(*p),
        r.available ==> r.http_status == 200,
        !r.available ==> r.http_status == 503,
        r.body@ == spec_health_body(*p),
{
    match p {
        ProbeOutcome::NotConfigured => HealthReport {
            http_status: 503,
            available: false,
            body: "Chromium connection URL not configured".to_owned(),
        },
        ProbeOutcome::Responded(code) => {
            if is_success_status(*code) {
                HealthReport { http_status: 200, available: true, body: "OK".to_owned() }
            } else {
                HealthReport {
                    http_status: 503,
                    available: false,
                    body: "Chromium instance unreachable".to_owned(),
                }
            }
        }
        ProbeOutcome::Unreachable => HealthReport {
            http_status: 503,
            available: false,
            body: "Chromium instance unreachable".to_owned(),
        },
    }
}

} // verus!
