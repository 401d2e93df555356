//! The certificate values that pass through this crate, and their rendering by
//! the `x509_parser` crate.

use vstd::prelude::*;
use x509_parser::time::ASN1Time;
use x509_parser::x509::X509Name;

verus! {

#[verifier::external_type_specification]
#[verifier::external_body]
pub struct ExX509Name<'a>(x509_parser::x509::X509Name<'a>);

#[verifier::external_type_specification]
#[verifier::external_body]
pub struct ExASN1Time(x509_parser::time::ASN1Time);

/// The display form of a distinguished name, such as `CN=example.com`.
pub uninterp spec fn name_text(name: &X509Name) -> Seq<char>;

/// The display form of a certificate timestamp.
pub uninterp spec fn time_text(time: ASN1Time) -> Seq<char>;

/// Renders a name through the `Display` impl of `x509_parser::x509::X509Name`.
/// Not proved: that the text depends on the name alone.
#[verifier::external_body]
pub(crate) fn render_name(name: &X509Name) -> (text: String)
    ensures
        text@ == name_text(name),
{
    name.to_string()
}

/// Renders a timestamp through the `Display` impl of
/// `x509_parser::time::ASN1Time`. Not proved: that the text depends on the
/// timestamp alone.
#[verifier::external_body]
pub(crate) fn render_time(time: &ASN1Time) -> (text: String)
    ensures
        text@ == time_text(*time),
{
    time.to_string()
}

} // verus!
