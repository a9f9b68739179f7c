//! The build stamp embedded in the header of a gzip container.

use chrono::{TimeZone, Utc};
use vstd::prelude::*;
use vstd::string::StringExecFns;

verus! {

/// A response shorter than this carries no stamp.
pub const MIN_BODY_LEN: usize = 16;

/// What a response body yields.
#[derive(Debug, Clone, PartialEq, Eq)]
pub enum BuildStamp {
    /// The body has fewer than `MIN_BODY_LEN` bytes.
    TooShortResponse,
    /// The body does not start with the container signature.
    BadMagic,
    /// The embedded second count has no calendar date.
    TimestampOutOfRange,
    /// The build time, in RFC 3339 form with a numeric offset.
    Timestamp(String),
}

/// The body starts with the gzip identifier, the deflate method and the flag
/// byte that announces a file name.
pub open spec fn has_signature(body: Seq<u8>) -> bool {
    &&& body.len() >= 4
    &&& body[0] == 0x1f
    &&& body[1] == 0x8b
    &&& body[2] == 0x08
    &&& body[3] == 0x08
}

/// Four bytes read as an unsigned little-endian number.
pub open spec fn le32(b0: u8, b1: u8, b2: u8, b3: u8) -> int {
    b0 as int + 256 * (b1 as int) + 65536 * (b2 as int) + 16777216 * (b3 as int)
}

/// The second count that stands at offset 4 of the body.
pub open spec fn embedded_epoch(body: Seq<u8>) -> int
    recommends
        body.len() >= 8,
{
    le32(body[4], body[5], body[6], body[7])
}

/// The RFC 3339 text of the UTC instant `secs` seconds after the Unix epoch,
/// or `None` where that instant has no calendar date.
pub uninterp spec fn rfc3339_utc(secs: int) -> Option<Seq<char>>;

/// The text that a stamp contributes to a result, if any.
pub open spec fn stamp_text(stamp: BuildStamp) -> Option<Seq<char>> {
    match stamp {
        BuildStamp::TooShortResponse => None,
        BuildStamp::BadMagic => Some("Invalid gzip header"@),
        BuildStamp::TimestampOutOfRange => None,
        BuildStamp::Timestamp(t) => Some(t@),
    }
}

/// The text that the body of a response contributes to a result.
pub open spec fn body_timestamp(body: Seq<u8>) -> Option<Seq<char>> {
    if body.len() < 16 {
        None
    } else if !has_signature(body) {
        Some("Invalid gzip header"@)
    } else {
        rfc3339_utc(embedded_epoch(body))
    }
}

/// Calls chrono's `Utc.timestamp_opt(secs, 0)`, keeps the single instant it
/// maps to, and renders it with `DateTime::to_rfc3339`. The contract only
/// names the outcome: the text depends on `secs` alone. Every `u32` lies
/// within the four-digit years that the rendering accepts.
#[verifier::external_body]
fn render_epoch(secs: u32) -> (text: Option<String>)
    ensures
        match text {
            Some(t) => rfc3339_utc(secs as int) == Some(t@),
            None => rfc3339_utc(secs as int) is None,
        },
{
    Utc.timestamp_opt(i64::from(secs), 0).single().map(|d| d.to_rfc3339())
}

/// Checks the length, then the signature, and reads the second count.
pub fn read_epoch(body: &[u8]) -> (r: Result<u32, BuildStamp>)
    ensures
        body@.len() < 16 ==> r == Err::<u32, BuildStamp>(BuildStamp::TooShortResponse),
        body@.len() >= 16 && !has_signature(body@) ==> r == Err::<u32, BuildStamp>(
            BuildStamp::BadMagic,
        ),
        body@.len() >= 16 && has_signature(body@) ==> r == Ok::<u32, BuildStamp>(
            embedded_epoch(body@) as u32,
        ) && 0 <= embedded_epoch(body@) <= u32::MAX,
{
    if body.len() < MIN_BODY_LEN {
        return Err(BuildStamp::TooShortResponse);
    }
    if body[0] != 0x1f || body[1] != 0x8b || body[2] != 0x08 || body[3] != 0x08 {
        return Err(BuildStamp::BadMagic);
    }
    let b0: u32 = body[4] as u32;
    let b1: u32 = body[5] as u32;
    let b2: u32 = body[6] as u32;
    let b3: u32 = body[7] as u32;
    Ok(b0 + 256 * b1 + 65536 * b2 + 16777216 * b3)
}

/// The stamp for a second count whose rendering is already known.
pub fn stamp_from_rendering(rendered: Option<String>) -> (stamp: BuildStamp)
    ensures
        match rendered {
            Some(t) => stamp == BuildStamp::Timestamp(t),
            None => stamp is TimestampOutOfRange,
        },
{
    match rendered {
        Some(t) => BuildStamp::Timestamp(t),
        None => BuildStamp::TimestampOutOfRange,
    }
}

/// Extracts the build stamp of a response body. The length is judged first,
/// then the signature; only then is the second count read and rendered.
pub fn parse_build_stamp(body: &[u8]) -> (stamp: BuildStamp)
    ensures
        body@.len() < 16 ==> stamp is TooShortResponse,
        body@.len() >= 16 && !has_signature(body@) ==> stamp is BadMagic,
        body@.len() >= 16 && has_signature(body@) ==> match rfc3339_utc(embedded_epoch(body@)) {
            Some(text) => stamp matches BuildStamp::Timestamp(t) && t@ == text,
            None => stamp is TimestampOutOfRange,
        },
        stamp_text(stamp) == body_timestamp(body@),
{
    match read_epoch(body) {
        Ok(secs) => stamp_from_rendering(render_epoch(secs)),
        Err(refusal) => refusal,
    }
}

impl BuildStamp {
    /// The text that goes into a result's timestamp field.
    pub fn build_timestamp(&self) -> (text: Option<String>)
        ensures
            text.is_some() == stamp_text(*self).is_some(),
            text matches Some(t) ==> stamp_text(*self) == Some(t@),
    {
        match self {
            BuildStamp::TooShortResponse => None,
            BuildStamp::BadMagic => Some(String::from_str("Invalid gzip header")),
            BuildStamp::TimestampOutOfRange => None,
            BuildStamp::Timestamp(t) => Some(t.clone()),
        }
    }
}

} // verus!
