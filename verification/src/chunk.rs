//! Chunk records: the length-prefixed, compression-tagged bytes of one chunk.

use vstd::prelude::*;
use crate::error::RegionError;
use crate::header::be_u32;
use vstd::slice::slice_subrange;
use vstd::slice::slice_to_vec;

verus! {

/// Bytes of a chunk record before its payload: four of length, one of tag.
pub const RECORD_PREFIX: usize = 5;

/// Compression tag of a payload stored as it is.
pub const SCHEME_RAW: u8 = 0;

/// Compression tag of a zlib stream.
pub const SCHEME_ZLIB: u8 = 2;

/// Later compression tag that this decoder also reads as stored as it is.
pub const SCHEME_RAW_ALT: u8 = 3;

/// A chunk record taken apart: its compression tag and its payload.
#[derive(Debug, PartialEq, Eq)]
pub struct ChunkRecord {
    /// The compression tag.
    pub scheme: u8,
    /// The bytes after the tag, still compressed.
    pub payload: Vec<u8>,
}

/// What inflating the zlib stream `data` yields: the bytes, or `None` where
/// the inflater reports an error.
pub uninterp spec fn zlib_inflated(data: Seq<u8>) -> Option<Seq<u8>>;

/// The result of decoding the payload `data` under the tag `scheme`, where
/// `inflated` is what inflating `data` as a zlib stream yields.
pub open spec fn decoded(data: Seq<u8>, scheme: u8, inflated: Option<Seq<u8>>) -> Result<
    Seq<u8>,
    RegionError,
> {
    if scheme == 0 || scheme == 3 {
        Ok(data)
    } else if scheme == 2 {
        match inflated {
            Some(bytes) => Ok(bytes),
            None => Err(RegionError::Decompression),
        }
    } else {
        Err(RegionError::UnsupportedScheme)
    }
}

/// A decoding outcome with its bytes as a sequence.
pub open spec fn outcome_view(outcome: Result<Vec<u8>, RegionError>) -> Result<
    Seq<u8>,
    RegionError,
> {
    match outcome {
        Ok(bytes) => Ok(bytes@),
        Err(e) => Err(e),
    }
}

/// The length that the record at the start of `span` declares: tag and
/// payload together.
pub open spec fn declared_length(span: Seq<u8>) -> int {
    be_u32(span[0], span[1], span[2], span[3])
}

/// Whether `span` holds the whole record that starts it: the prefix, and as
/// many bytes after the length field as that field declares.
pub open spec fn record_fits(span: Seq<u8>) -> bool {
    span.len() >= 5 && span.len() >= 4 + declared_length(span)
}

/// The compression tag of the record at the start of `span`.
pub open spec fn record_scheme(span: Seq<u8>) -> u8 {
    span[4]
}

/// Where the payload of the record at the start of `span` ends. A record
/// that declares no byte at all has an empty payload.
pub open spec fn payload_end(span: Seq<u8>) -> int {
    if declared_length(span) >= 1 {
        4 + declared_length(span)
    } else {
        5
    }
}

/// The payload of the record at the start of `span`.
pub open spec fn record_payload(span: Seq<u8>) -> Seq<u8> {
    span.subrange(5, payload_end(span))
}

/// Calls `inflate::inflate_bytes_zlib` on `data`. Its answer is taken as a
/// function of `data` alone, named `zlib_inflated`: the bytes it inflated to,
/// or `None` where it returned an error message. Nothing is claimed of which
/// streams it accepts: it reports a bad header, a bad block and a wrong
/// checksum, but of a stream that stops early it hands back the bytes
/// inflated so far.
#[verifier::external_body]
fn inflate_zlib(data: &[u8]) -> (inflated: Option<Vec<u8>>)
    ensures
        match inflated {
            Some(bytes) => zlib_inflated(data@) == Some(bytes@),
            None => zlib_inflated(data@) is None,
        },
{
    inflate::inflate_bytes_zlib(data).ok()
}

/// Turns what the inflater gave into a decoding outcome: the bytes, or the
/// decompression error where it gave none.
pub fn inflated_or_error(inflated: Option<Vec<u8>>) -> (outcome: Result<Vec<u8>, RegionError>)
    ensures
        match inflated {
            Some(bytes) => outcome == Ok::<Vec<u8>, RegionError>(bytes),
            None => outcome == Err::<Vec<u8>, RegionError>(RegionError::Decompression),
        },
{
    match inflated {
        Some(bytes) => Ok(bytes),
        None => Err(RegionError::Decompression),
    }
}

/// Decodes the payload `data` of a chunk record under its compression tag.
/// Tags 0 and 3 hand the payload back as it is, tag 2 inflates it as a zlib
/// stream, and every other tag is refused. `data` is left as it was.
pub fn decompress_chunk(data: &mut Vec<u8>, scheme: u8) -> (outcome: Result<Vec<u8>, RegionError>)
    ensures
        final(data)@ == old(data)@,
        outcome_view(outcome) == decoded(old(data)@, scheme, zlib_inflated(old(data)@)),
        scheme == 0 || scheme == 3 ==> outcome.is_ok() && outcome.unwrap()@ == old(data)@,
        scheme != 0 && scheme != 2 && scheme != 3 ==> outcome == Err::<Vec<u8>, RegionError>(
            RegionError::UnsupportedScheme,
        ),
{
    if scheme == SCHEME_RAW || scheme == SCHEME_RAW_ALT {
        Ok(data.clone())
    } else if scheme == SCHEME_ZLIB {
        inflated_or_error(inflate_zlib(data.as_slice()))
    } else {
        Err(RegionError::UnsupportedScheme)
    }
}

/// The result of decoding the record at the start of `span`: a record that
/// does not fit in `span` is refused whatever its tag and payload are.
pub open spec fn record_decoded(span: Seq<u8>) -> Result<Seq<u8>, RegionError> {
    if record_fits(span) {
        decoded(record_payload(span), record_scheme(span), zlib_inflated(record_payload(span)))
    } else {
        Err(RegionError::TruncatedRecord)
    }
}

/// Takes apart the chunk record at the start of `span`, the bytes reserved
/// for one chunk. Bytes of `span` after the record are not looked at.
pub fn parse_chunk_record(span: &[u8]) -> (record: Result<ChunkRecord, RegionError>)
    ensures
        !record_fits(span@) <==> record == Err::<ChunkRecord, RegionError>(
            RegionError::TruncatedRecord,
        ),
        record_fits(span@) <==> record.is_ok(),
        record matches Ok(rec) ==> rec.scheme == record_scheme(span@) && rec.payload@
            == record_payload(span@),
{
    if span.len() < RECORD_PREFIX {
        return Err(RegionError::TruncatedRecord);
    }
    let b0: u64 = span[0] as u64;
    let b1: u64 = span[1] as u64;
    let b2: u64 = span[2] as u64;
    let b3: u64 = span[3] as u64;
    let declared: u64 = b0 * 0x100_0000 + b1 * 0x1_0000 + b2 * 0x100 + b3;
    let available: u64 = span.len() as u64;
    if available < 4 + declared {
        return Err(RegionError::TruncatedRecord);
    }
    let end: usize = if declared >= 1 {
        (4 + declared) as usize
    } else {
        RECORD_PREFIX
    };
    let payload: Vec<u8> = slice_to_vec(slice_subrange(span, RECORD_PREFIX, end));
    Ok(ChunkRecord { scheme: span[4], payload })
}

/// Decodes the chunk record at the start of `span`: takes it apart, then
/// decodes its payload under its tag.
pub fn decode_record(span: &[u8]) -> (outcome: Result<Vec<u8>, RegionError>)
    ensures
        outcome_view(outcome) == record_decoded(span@),
        !record_fits(span@) ==> outcome == Err::<Vec<u8>, RegionError>(
            RegionError::TruncatedRecord,
        ),
{
    match parse_chunk_record(span) {
        Ok(record) => {
            let mut payload: Vec<u8> = record.payload;
            decompress_chunk(&mut payload, record.scheme)
        },
        Err(e) => Err(e),
    }
}

/// A record that declares more bytes than `span` holds after the length
/// field is refused as truncated, whatever its tag and whatever its payload
/// would inflate to.
pub proof fn overlong_record_is_truncated(span: Seq<u8>)
    requires
        span.len() < 5 || declared_length(span) > span.len() - 4,
    ensures
        record_decoded(span) == Err::<Seq<u8>, RegionError>(RegionError::TruncatedRecord),
{
}

/// Tags 0 and 3 give the payload back unchanged, whatever it holds.
pub proof fn raw_tags_pass_through(data: Seq<u8>, inflated: Option<Seq<u8>>)
    ensures
        decoded(data, 0, inflated) == Ok::<Seq<u8>, RegionError>(data),
        decoded(data, 3, inflated) == Ok::<Seq<u8>, RegionError>(data),
{
}

/// Every tag but 0, 2 and 3 is refused, whatever the payload holds.
pub proof fn other_tags_are_refused(data: Seq<u8>, scheme: u8, inflated: Option<Seq<u8>>)
    requires
        scheme != 0 && scheme != 2 && scheme != 3,
    ensures
        decoded(data, scheme, inflated) == Err::<Seq<u8>, RegionError>(
            RegionError::UnsupportedScheme,
        ),
{
}

} // verus!
