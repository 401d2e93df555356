//! The checks on one certificate: its identity attributes against configured
//! expectations, and its remaining validity against a threshold policy.

use crate::check::{CheckResult, LowerLevels, Severity, Verdict};
use crate::decimal::{append_decimal, decimal};
use crate::duration::{duration_seconds, duration_whole_days, not_longer, whole_days_of};
use crate::x509::{name_text, render_name, render_time, time_text};
use time::Duration;
use vstd::prelude::*;
use vstd::string::*;
use x509_parser::time::ASN1Time;
use x509_parser::x509::X509Name;

verus! {

/// The identity attributes of a certificate that can be checked.
#[derive(Clone, Copy, Debug, PartialEq, Eq, Structural)]
pub enum Attribute {
    Serial,
    Subject,
    Issuer,
}

impl Attribute {
    /// The name of the attribute in messages.
    pub open spec fn label(self) -> Seq<char> {
        match self {
            Attribute::Serial => "Serial"@,
            Attribute::Subject => "Subject"@,
            Attribute::Issuer => "Issuer"@,
        }
    }

    /// The message for an observed value that is the expected one. The subject
    /// stands alone, the other attributes follow their name.
    pub open spec fn match_message(self, observed: Seq<char>) -> Seq<char> {
        match self {
            Attribute::Serial => "Serial "@ + observed,
            Attribute::Subject => observed,
            Attribute::Issuer => "Issuer "@ + observed,
        }
    }

    /// The message for an observed value that differs from the expected one.
    pub open spec fn mismatch_message(
        self,
        observed: Seq<char>,
        expected: Seq<char>,
    ) -> Seq<char> {
        self.label() + " is "@ + observed + " but expected "@ + expected
    }

    /// The outcome of comparing an observed value with an optional expectation:
    /// nothing without an expectation, `Okay` where the two are the same text,
    /// a `Warning` where they differ.
    pub open spec fn verdict(
        self,
        observed: Seq<char>,
        expected: Option<Seq<char>>,
    ) -> Option<Verdict> {
        match expected {
            None => None,
            Some(e) => if observed == e {
                Some(Verdict { severity: Severity::Okay, message: self.match_message(observed) })
            } else {
                Some(
                    Verdict {
                        severity: Severity::Warning,
                        message: self.mismatch_message(observed, e),
                    },
                )
            },
        }
    }

    /// Without an expectation there is no result, whatever was observed.
    pub proof fn lemma_no_expectation_no_result(self, observed: Seq<char>)
        ensures
            self.verdict(observed, None) is None,
    {
    }

    /// An observed value that is the expected one is `Okay`.
    pub proof fn lemma_match_is_okay(self, value: Seq<char>)
        ensures
            self.verdict(value, Some(value)) is Some,
            self.verdict(value, Some(value)).unwrap().severity == Severity::Okay,
    {
    }

    /// An observed value that differs from the expected one is a `Warning`.
    pub proof fn lemma_mismatch_is_warning(self, observed: Seq<char>, expected: Seq<char>)
        requires
            observed != expected,
        ensures
            self.verdict(observed, Some(expected)) is Some,
            self.verdict(observed, Some(expected)).unwrap().severity == Severity::Warning,
    {
    }

    fn label_text(self) -> (s: &'static str)
        ensures
            s@ == self.label(),
    {
        match self {
            Attribute::Serial => "Serial",
            Attribute::Subject => "Subject",
            Attribute::Issuer => "Issuer",
        }
    }
}

/// The text of an optional string.
pub open spec fn text_of(s: Option<String>) -> Option<Seq<char>> {
    match s {
        None => None,
        Some(s) => Some(s@),
    }
}

/// An optional check result as a plain value.
pub open spec fn verdict_of(r: Option<CheckResult>) -> Option<Verdict> {
    match r {
        None => None,
        Some(r) => Some(r@),
    }
}

/// Compares the observed text of an attribute with the expected one, if there
/// is one. The comparison is exact.
pub fn compare_attribute(
    attribute: Attribute,
    observed: String,
    expected: Option<String>,
) -> (r: Option<CheckResult>)
    ensures
        verdict_of(r) == attribute.verdict(observed@, text_of(expected)),
        r is None <==> expected is None,
{
    match expected {
        None => None,
        Some(expected) => {
            if observed == expected {
                let message = match attribute {
                    Attribute::Serial => String::from_str("Serial ").concat(observed.as_str()),
                    Attribute::Subject => observed,
                    Attribute::Issuer => String::from_str("Issuer ").concat(observed.as_str()),
                };
                Some(CheckResult::ok(message))
            } else {
                let mut message = String::from_str(attribute.label_text());
                message.append(" is ");
                message.append(observed.as_str());
                message.append(" but expected ");
                message.append(expected.as_str());
                Some(CheckResult::warn(message))
            }
        },
    }
}

/// Checks the serial number of a certificate.
pub fn check_details_serial(serial: String, expected: Option<String>) -> (r: Option<CheckResult>)
    ensures
        verdict_of(r) == Attribute::Serial.verdict(serial@, text_of(expected)),
        r is None <==> expected is None,
{
    compare_attribute(Attribute::Serial, serial, expected)
}

/// Checks the subject of a certificate, by its display form.
pub fn check_details_subject(subject: &X509Name, expected: Option<String>) -> (r: Option<CheckResult>)
    ensures
        verdict_of(r) == Attribute::Subject.verdict(name_text(subject), text_of(expected)),
        r is None <==> expected is None,
{
    match expected {
        None => None,
        Some(expected) => compare_attribute(
            Attribute::Subject,
            render_name(subject),
            Some(expected),
        ),
    }
}

/// Checks the issuer of a certificate, by its display form.
pub fn check_details_issuer(issuer: &X509Name, expected: Option<String>) -> (r: Option<CheckResult>)
    ensures
        verdict_of(r) == Attribute::Issuer.verdict(name_text(issuer), text_of(expected)),
        r is None <==> expected is None,
{
    match expected {
        None => None,
        Some(expected) => compare_attribute(Attribute::Issuer, render_name(issuer), Some(expected)),
    }
}

/// The message for a certificate that has expired.
pub open spec fn expired_message(not_after: Seq<char>) -> Seq<char> {
    "Certificate expired ("@ + not_after + ")"@
}

/// The message for a certificate that is still valid for `days` whole days.
pub open spec fn expires_message(days: int, not_after: Seq<char>) -> Seq<char> {
    "Certificate expires in "@ + decimal(days) + " day(s) ("@ + not_after + ")"@
}

/// The outcome of the validity check. A certificate without time left is
/// critical whatever the policy says; otherwise the policy classifies the time
/// left, and the message counts its whole days.
pub open spec fn validity_verdict(
    time_to_expiration: Option<Duration>,
    levels: LowerLevels<Duration>,
    not_after: Seq<char>,
) -> Verdict {
    match time_to_expiration {
        None => Verdict { severity: Severity::Critical, message: expired_message(not_after) },
        Some(left) => Verdict {
            severity: levels.classify(left),
            message: expires_message(whole_days_of(duration_seconds(left)), not_after),
        },
    }
}

/// With less time left the validity check never gets milder, under one
/// policy: no time left is the least there is.
pub proof fn lemma_validity_monotonic(
    less: Option<Duration>,
    more: Option<Duration>,
    levels: LowerLevels<Duration>,
    not_after: Seq<char>,
)
    requires
        less is None || (more is Some && not_longer(less.unwrap(), more.unwrap())),
    ensures
        validity_verdict(less, levels, not_after).severity.rank() >= validity_verdict(
            more,
            levels,
            not_after,
        ).severity.rank(),
{
}

/// Builds the message for a certificate that has expired.
pub fn expired_text(not_after: &str) -> (message: String)
    ensures
        message@ == expired_message(not_after@),
{
    let mut message = String::from_str("Certificate expired (");
    message.append(not_after);
    message.append(")");
    message
}

/// Builds the message for a certificate that is still valid for `days` whole
/// days.
pub fn expires_text(days: i64, not_after: &str) -> (message: String)
    ensures
        message@ == expires_message(days as int, not_after@),
{
    let mut message = String::from_str("Certificate expires in ");
    append_decimal(&mut message, days);
    message.append(" day(s) (");
    message.append(not_after);
    message.append(")");
    message
}

/// Checks the time left until the certificate expires against the policy.
/// `None` stands for a certificate that has expired.
pub fn check_validity_not_after(
    time_to_expiration: Option<Duration>,
    levels: LowerLevels<Duration>,
    not_after: ASN1Time,
) -> (r: CheckResult)
    ensures
        r@ == validity_verdict(time_to_expiration, levels, time_text(not_after)),
        time_to_expiration is None ==> r.severity == Severity::Critical,
{
    let not_after = render_time(&not_after);
    match time_to_expiration {
        None => CheckResult::crit(expired_text(not_after.as_str())),
        Some(left) => {
            let days = duration_whole_days(&left);
            CheckResult::from_levels(&levels, &left, expires_text(days, not_after.as_str()))
        },
    }
}

} // verus!
