//! The identity on the certificate that a host presents, read without any
//! judgement of trust.

use vstd::prelude::*;
use x509_parser::prelude::{FromDer, X509Certificate};

verus! {

/// How version 3 is encoded in a certificate's version field.
pub const VERSION_3: u32 = 2;

/// What the identity check reads of a decoded certificate.
#[derive(Debug, Clone, PartialEq, Eq)]
pub struct CertificateSummary {
    /// The version field as encoded: 0, 1 or 2 for versions 1, 2 and 3.
    pub version: u32,
    /// How many bytes of the input follow the certificate.
    pub trailing: usize,
    /// The subject's first Common Name, where that is a text string.
    pub common_name: Option<String>,
}

/// What decoding a certificate from `der` yields: the encoded version, the
/// number of bytes left over and the subject's first Common Name as text; or
/// `None` where `der` does not decode.
pub uninterp spec fn decoded_certificate(der: Seq<u8>) -> Option<(int, int, Option<Seq<char>>)>;

/// The identity to report for a decoded certificate.
pub open spec fn subject_of(decoded: Option<(int, int, Option<Seq<char>>)>) -> Option<Seq<char>> {
    match decoded {
        Some((version, trailing, common_name)) => if version == 2 && trailing == 0 {
            common_name
        } else {
            None
        },
        None => None,
    }
}

/// The identity to report for what a peer presented.
pub open spec fn presented_subject(peer_certificate: Option<Seq<u8>>) -> Option<Seq<char>> {
    match peer_certificate {
        Some(der) => subject_of(decoded_certificate(der)),
        None => None,
    }
}

/// The bytes that a peer presented, if it presented any.
pub open spec fn presented_bytes(peer_certificate: Option<&[u8]>) -> Option<Seq<u8>> {
    match peer_certificate {
        Some(der) => Some(der@),
        None => None,
    }
}

/// The summary seen as plain values.
pub open spec fn summary_view(summary: Option<CertificateSummary>) -> Option<
    (int, int, Option<Seq<char>>),
> {
    match summary {
        Some(s) => Some(
            (
                s.version as int,
                s.trailing as int,
                match s.common_name {
                    Some(name) => Some(name@),
                    None => None,
                },
            ),
        ),
        None => None,
    }
}

/// Calls x509-parser's `X509Certificate::from_der` and copies out of its
/// result the version field, the length of the remaining input and the first
/// attribute of `subject().iter_common_name()`, read with `as_str`. The
/// contract only names the outcome: it depends on `der` alone.
#[verifier::external_body]
fn decode_certificate(der: &[u8]) -> (summary: Option<CertificateSummary>)
    ensures
        summary_view(summary) == decoded_certificate(der@),
{
    match X509Certificate::from_der(der) {
        Ok((rest, cert)) => Some(
            CertificateSummary {
                version: cert.version().0,
                trailing: rest.len(),
                common_name: cert.subject().iter_common_name().next().and_then(
                    |cn| cn.as_str().ok(),
                ).map(|name| name.to_string()),
            },
        ),
        Err(_) => None,
    }
}

/// The Common Name of a decoded certificate, provided that it is of version 3
/// and nothing follows it in the input.
pub fn subject_from_summary(summary: Option<CertificateSummary>) -> (subject: Option<String>)
    ensures
        subject.is_some() == subject_of(summary_view(summary)).is_some(),
        subject matches Some(name) ==> subject_of(summary_view(summary)) == Some(name@),
{
    match summary {
        Some(s) => {
            if s.version != VERSION_3 || s.trailing != 0 {
                None
            } else {
                s.common_name
            }
        },
        None => None,
    }
}

/// The identity on the certificate that a peer presented, if it presented one.
pub fn extract_subject(peer_certificate: Option<&[u8]>) -> (subject: Option<String>)
    ensures
        subject.is_some() == presented_subject(presented_bytes(peer_certificate)).is_some(),
        subject matches Some(name) ==> presented_subject(presented_bytes(peer_certificate))
            == Some(name@),
{
    match peer_certificate {
        Some(der) => subject_from_summary(decode_certificate(der)),
        None => None,
    }
}

/// No identity is reported for a certificate of another version than 3, nor
/// for one that is followed by further bytes.
pub proof fn malformed_certificate_has_no_subject(
    version: int,
    trailing: int,
    common_name: Option<Seq<char>>,
)
    requires
        version != 2 || trailing != 0,
    ensures
        subject_of(Some((version, trailing, common_name))) is None,
{
}

} // verus!
