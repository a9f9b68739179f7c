//! The result for one host: how it is put together, resolved against the
//! table of builds, and written as a line.

use crate::address::{is_ip_address, is_ip_literal};
use crate::catalog::{lookup_in, VersionCatalog};
use crate::certificate::{extract_subject, presented_bytes, presented_subject};
use crate::stamp::{body_timestamp, parse_build_stamp};
use vstd::prelude::*;
use vstd::string::StringExecFns;

verus! {

/// What is known of one host. A field that was not obtained is `None`.
#[derive(Debug, Clone, PartialEq, Eq)]
pub struct ProbeOutcome {
    pub host_address: String,
    pub resolved_version: Option<String>,
    pub build_timestamp: Option<String>,
    pub certificate_subject: Option<String>,
    pub diagnostic: Option<String>,
}

/// What to do with a host.
#[derive(Debug, Clone, PartialEq, Eq)]
pub enum HostAction {
    /// Report this result; the host is not contacted.
    Report(ProbeOutcome),
    /// Contact the host.
    Probe,
}

/// What the attempt to fetch the resource from a host gave.
#[derive(Debug, Clone, PartialEq, Eq)]
pub enum Fetched {
    /// The host could not be reached, or the transfer broke off.
    Failed { description: String },
    /// The host answered.
    Answered { peer_certificate: Option<Vec<u8>>, body: Vec<u8> },
}

/// The characters of an optional text.
pub open spec fn text_of(field: Option<String>) -> Option<Seq<char>> {
    match field {
        Some(s) => Some(s@),
        None => None,
    }
}

/// A field as it is written: its text, or `Unknown`.
pub open spec fn or_unknown(field: Option<Seq<char>>) -> Seq<char> {
    match field {
        Some(s) => s,
        None => "Unknown"@,
    }
}

/// What stands in the identity slot of a line: the certificate's subject,
/// or else the diagnostic.
pub open spec fn identity_slot(subject: Option<Seq<char>>, diagnostic: Option<Seq<char>>) -> Option<
    Seq<char>,
> {
    match subject {
        Some(s) => Some(s),
        None => diagnostic,
    }
}

/// The line for a result: four fields, separated by commas.
pub open spec fn rendered_line(outcome: ProbeOutcome) -> Seq<char> {
    outcome.host_address@ + ","@ + or_unknown(text_of(outcome.resolved_version)) + ","@
        + or_unknown(text_of(outcome.build_timestamp)) + ","@ + or_unknown(
        identity_slot(text_of(outcome.certificate_subject), text_of(outcome.diagnostic)),
    )
}

/// Decides whether a host is contacted: only a token that reads as an IP
/// address is. For any other token the result is ready at once.
pub fn plan_host(host: &str) -> (action: HostAction)
    ensures
        is_ip_address(host@) ==> action is Probe,
        !is_ip_address(host@) ==> (action matches HostAction::Report(o) && o.host_address@ == host@
            && o.resolved_version is None && o.build_timestamp is None
            && o.certificate_subject is None && text_of(o.diagnostic) == Some(
            "Invalid IP address"@,
        )),
{
    if is_ip_literal(host) {
        HostAction::Probe
    } else {
        HostAction::Report(
            ProbeOutcome {
                host_address: String::from_str(host),
                resolved_version: None,
                build_timestamp: None,
                certificate_subject: None,
                diagnostic: Some(String::from_str("Invalid IP address")),
            },
        )
    }
}

/// The result for a host that could not be reached.
pub fn network_failure(host: &str, description: String) -> (outcome: ProbeOutcome)
    ensures
        outcome.host_address@ == host@,
        outcome.resolved_version is None,
        outcome.build_timestamp is None,
        outcome.certificate_subject is None,
        outcome.diagnostic == Some(description),
{
    ProbeOutcome {
        host_address: String::from_str(host),
        resolved_version: None,
        build_timestamp: None,
        certificate_subject: None,
        diagnostic: Some(description),
    }
}

/// The result for a host that answered: the identity on the certificate it
/// presented and the build stamp of the body it sent, each read
/// independently of the other.
pub fn process_response(host: &str, peer_certificate: Option<&[u8]>, body: &[u8]) -> (outcome:
    ProbeOutcome)
    ensures
        outcome.host_address@ == host@,
        outcome.resolved_version is None,
        text_of(outcome.build_timestamp) == body_timestamp(body@),
        text_of(outcome.certificate_subject) == presented_subject(
            presented_bytes(peer_certificate),
        ),
        outcome.diagnostic is None,
{
    let certificate_subject = extract_subject(peer_certificate);
    let build_timestamp = parse_build_stamp(body).build_timestamp();
    ProbeOutcome {
        host_address: String::from_str(host),
        resolved_version: None,
        build_timestamp,
        certificate_subject,
        diagnostic: None,
    }
}

/// Sets the release of a result from its build time: the first row of the
/// table with exactly that text, or nothing where no row has it or the
/// result has no build time.
pub fn resolve(outcome: ProbeOutcome, catalog: &VersionCatalog) -> (resolved: ProbeOutcome)
    ensures
        resolved.host_address == outcome.host_address,
        resolved.build_timestamp == outcome.build_timestamp,
        resolved.certificate_subject == outcome.certificate_subject,
        resolved.diagnostic == outcome.diagnostic,
        text_of(resolved.resolved_version) == match outcome.build_timestamp {
            Some(t) => lookup_in(catalog@, t@),
            None => None,
        },
{
    let resolved_version = match &outcome.build_timestamp {
        Some(t) => catalog.lookup(t.as_str()),
        None => None,
    };
    ProbeOutcome {
        host_address: outcome.host_address,
        resolved_version,
        build_timestamp: outcome.build_timestamp,
        certificate_subject: outcome.certificate_subject,
        diagnostic: outcome.diagnostic,
    }
}

/// The result for a host that was contacted, resolved against the table.
pub fn conclude(host: &str, fetched: &Fetched, catalog: &VersionCatalog) -> (outcome: ProbeOutcome)
    ensures
        outcome.host_address@ == host@,
        match *fetched {
            Fetched::Failed { description } => {
                &&& outcome.resolved_version is None
                &&& outcome.build_timestamp is None
                &&& outcome.certificate_subject is None
                &&& text_of(outcome.diagnostic) == Some(description@)
            },
            Fetched::Answered { peer_certificate, body } => {
                &&& text_of(outcome.build_timestamp) == body_timestamp(body@)
                &&& text_of(outcome.resolved_version) == match body_timestamp(body@) {
                    Some(t) => lookup_in(catalog@, t),
                    None => None,
                }
                &&& text_of(outcome.certificate_subject) == presented_subject(
                    match peer_certificate {
                        Some(der) => Some(der@),
                        None => None,
                    },
                )
                &&& outcome.diagnostic is None
            },
        },
{
    match fetched {
        Fetched::Failed { description } => network_failure(host, description.clone()),
        Fetched::Answered { peer_certificate, body } => {
            let presented: Option<&[u8]> = match peer_certificate {
                Some(der) => Some(der.as_slice()),
                None => None,
            };
            resolve(process_response(host, presented, body.as_slice()), catalog)
        },
    }
}

/// The text of a field, or `Unknown`.
fn field_text(field: &Option<String>) -> (text: &str)
    ensures
        text@ == or_unknown(text_of(*field)),
{
    match field {
        Some(s) => s.as_str(),
        None => "Unknown",
    }
}

/// Writes a result as one line, without a line end.
pub fn render(outcome: &ProbeOutcome) -> (line: String)
    ensures
        line@ == rendered_line(*outcome),
{
    let mut line = outcome.host_address.clone();
    line.append(",");
    line.append(field_text(&outcome.resolved_version));
    line.append(",");
    line.append(field_text(&outcome.build_timestamp));
    line.append(",");
    match &outcome.certificate_subject {
        Some(s) => line.append(s.as_str()),
        None => line.append(field_text(&outcome.diagnostic)),
    }
    line
}

} // verus!
