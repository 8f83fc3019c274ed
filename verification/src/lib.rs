//! Extracts pixel width and height from a JPEG byte stream.
//!
//! A single linear pass walks the stream's marker segments, skipping each
//! by its declared length, until it reaches the baseline start-of-frame
//! segment (marker code `0xC0`), whose payload records the image height
//! and width as big-endian 16-bit values.

use vstd::prelude::*;

verus! {

/// Every marker is introduced by this prefix byte.
pub const MARKER_PREFIX: u8 = 0xFF;

/// Start-of-image marker code: `0xFF 0xD8` opens every JPEG stream.
pub const SOI_CODE: u8 = 0xD8;

/// Start-of-frame (baseline) marker code: its segment holds the dimensions.
pub const SOF0_CODE: u8 = 0xC0;

/// Why a scan could not produce image dimensions.
#[derive(Clone, Copy, Debug, PartialEq, Eq, Structural)]
pub enum ParseError {
    /// The buffer does not begin with the start-of-image signature,
    /// or is shorter than the two signature bytes.
    InvalidSignature,
    /// A segment's declared or fixed-size fields run past the end of
    /// the buffer at the point they are read.
    UnexpectedEndOfInput,
    /// The buffer was exhausted without a start-of-frame marker.
    SofNotFound,
}

/// Pixel dimensions read from a baseline start-of-frame segment.
#[derive(Clone, Copy, Debug, PartialEq, Eq, Structural)]
pub struct JpegMetadata {
    pub width: u16,
    pub height: u16,
}

/// The big-endian 16-bit value stored in two consecutive bytes.
pub open spec fn be16(hi: u8, lo: u8) -> u16 {
    (hi * 256 + lo) as u16
}

/// Result of walking marker segments from cursor position `i`.
///
/// A byte other than the marker prefix at the cursor is stepped over one
/// byte at a time; a skippable segment advances the cursor by its declared
/// length plus the two marker bytes; a declared length that runs past the
/// end of the buffer exhausts the scan.
pub open spec fn spec_scan_from(s: Seq<u8>, i: int) -> Result<JpegMetadata, ParseError>
    decreases s.len() - i,
{
    if i + 1 >= s.len() {
        Err(ParseError::SofNotFound)
    } else if s[i] != MARKER_PREFIX {
        spec_scan_from(s, i + 1)
    } else if s[i + 1] == SOF0_CODE {
        if i + 8 >= s.len() {
            Err(ParseError::UnexpectedEndOfInput)
        } else {
            Ok(JpegMetadata {
                width: be16(s[i + 7], s[i + 8]),
                height: be16(s[i + 5], s[i + 6]),
            })
        }
    } else if i + 3 >= s.len() {
        Err(ParseError::UnexpectedEndOfInput)
    } else {
        let next = i + 2 + be16(s[i + 2], s[i + 3]);
        if next + 1 >= s.len() {
            Err(ParseError::SofNotFound)
        } else {
            spec_scan_from(s, next)
        }
    }
}

/// What a scan of the whole buffer returns: the signature is checked,
/// then the marker segments are walked from the byte after it.
pub open spec fn spec_scan(s: Seq<u8>) -> Result<JpegMetadata, ParseError> {
    if s.len() < 2 || s[0] != MARKER_PREFIX || s[1] != SOI_CODE {
        Err(ParseError::InvalidSignature)
    } else {
        spec_scan_from(s, 2)
    }
}

impl JpegMetadata {
    /// Scan `bytes` as a JPEG stream and return the width and height
    /// recorded in its first baseline start-of-frame segment.
    ///
    /// The buffer may be empty, truncated or arbitrary noise: the scan
    /// never reads out of bounds and answers every input with either
    /// dimensions or a `ParseError`.
    pub fn from_bytes(bytes: &[u8]) -> (r: Result<Self, ParseError>)
        ensures
            r == spec_scan(bytes@),
    {
        if bytes.len() < 2 || bytes[0] != MARKER_PREFIX || bytes[1] != SOI_CODE {
            return Err(ParseError::InvalidSignature);
        }
        let mut i: usize = 2;
        while i < bytes.len() - 1
            invariant
                2 <= i,
                bytes@.len() >= 2,
                bytes@[0] == MARKER_PREFIX,
                bytes@[1] == SOI_CODE,
                spec_scan_from(bytes@, i as int) == spec_scan_from(bytes@, 2),
            decreases bytes@.len() - i,
        {
            if bytes[i] == MARKER_PREFIX {
                let code = bytes[i + 1];
                if code == SOF0_CODE {
                    if bytes.len() - i <= 8 {
                        return Err(ParseError::UnexpectedEndOfInput);
                    }
                    let height: u16 = (bytes[i + 5] as u16) * 256 + (bytes[i + 6] as u16);
                    let width: u16 = (bytes[i + 7] as u16) * 256 + (bytes[i + 8] as u16);
                    return Ok(JpegMetadata { width, height });
                }
                if bytes.len() - i <= 3 {
                    return Err(ParseError::UnexpectedEndOfInput);
                }
                let segment_length: usize =
                    (bytes[i + 2] as usize) * 256 + (bytes[i + 3] as usize);
                if bytes.len() - i <= segment_length + 3 {
                    return Err(ParseError::SofNotFound);
                }
                i = i + segment_length + 2;
            } else {
                i = i + 1;
            }
        }
        Err(ParseError::SofNotFound)
    }
}

/// A buffer with fewer than two bytes cannot hold the start-of-image
/// signature, so a scan rejects it.
pub proof fn lemma_short_buffer_rejected(s: Seq<u8>)
    requires
        s.len() < 2,
    ensures
        spec_scan(s) == Err::<JpegMetadata, ParseError>(ParseError::InvalidSignature),
{
}

/// A buffer whose first two bytes are not the start-of-image signature is
/// rejected, whatever follows them.
pub proof fn lemma_wrong_signature_rejected(s: Seq<u8>)
    requires
        s.len() >= 2,
        s[0] != MARKER_PREFIX || s[1] != SOI_CODE,
    ensures
        spec_scan(s) == Err::<JpegMetadata, ParseError>(ParseError::InvalidSignature),
{
}

/// A start-of-frame marker whose fixed fields run past the end of the
/// buffer ends the scan with `UnexpectedEndOfInput`: fewer than seven
/// bytes follow the marker code.
pub proof fn lemma_truncated_sof_rejected(s: Seq<u8>, i: int)
    requires
        0 <= i,
        i + 1 < s.len(),
        s[i] == MARKER_PREFIX,
        s[i + 1] == SOF0_CODE,
        i + 8 >= s.len(),
    ensures
        spec_scan_from(s, i) == Err::<JpegMetadata, ParseError>(ParseError::UnexpectedEndOfInput),
{
}

/// The first start-of-frame marker wins: once the scan stands on one whose
/// fields are in bounds, it returns that segment's dimensions at once, and
/// no byte beyond those fields -- a later start-of-frame among them -- can
/// influence the result.
pub proof fn lemma_first_sof_wins(s: Seq<u8>, i: int)
    requires
        0 <= i,
        i + 8 < s.len(),
        s[i] == MARKER_PREFIX,
        s[i + 1] == SOF0_CODE,
    ensures
        spec_scan_from(s, i) == Ok::<JpegMetadata, ParseError>(JpegMetadata {
            width: be16(s[i + 7], s[i + 8]),
            height: be16(s[i + 5], s[i + 6]),
        }),
{
}

/// Marker scanning over bytes that hold no marker prefix steps through
/// them one at a time and reaches the end of the buffer with no frame.
pub proof fn lemma_filler_exhausts(s: Seq<u8>, i: int)
    requires
        0 <= i,
        forall|j: int| i <= j < s.len() ==> s[j] != MARKER_PREFIX,
    ensures
        spec_scan_from(s, i) == Err::<JpegMetadata, ParseError>(ParseError::SofNotFound),
    decreases s.len() - i,
{
    if i + 1 < s.len() {
        lemma_filler_exhausts(s, i + 1);
    }
}

/// A buffer that opens with the signature and then holds only bytes that
/// are not marker prefixes is scanned to exhaustion: no frame is found.
pub proof fn lemma_no_marker_after_signature(s: Seq<u8>)
    requires
        s.len() >= 2,
        s[0] == MARKER_PREFIX,
        s[1] == SOI_CODE,
        forall|j: int| 2 <= j < s.len() ==> s[j] != MARKER_PREFIX,
    ensures
        spec_scan(s) == Err::<JpegMetadata, ParseError>(ParseError::SofNotFound),
{
    lemma_filler_exhausts(s, 2);
}

/// Scanning is a pure function of the buffer's contents: two buffers with
/// equal bytes scan to equal results, so repeating a scan on the same
/// bytes repeats its result.
pub proof fn lemma_scan_deterministic(s1: Seq<u8>, s2: Seq<u8>)
    requires
        s1 == s2,
    ensures
        spec_scan(s1) == spec_scan(s2),
{
}

} // verus!

