//! Turning a frame file into an upload of bounded size.
//!
//! A JPEG source that is already small enough is passed through byte for
//! byte. Any other source is decoded to 8-bit RGB and encoded as JPEG at
//! falling quality until the result fits: from 100 down by a fixed step,
//! never below a floor, whose attempt is always made before giving up. The
//! color profile of a JPEG source is embedded in the re-encoding.

use vstd::prelude::*;

use crate::codec::{
    decode_rgb8, decoded_rgb8, decoded_size, decodes, embedded_icc_profile, encode_jpeg, is_jpeg, jpeg_encoding,
    jpeg_signature, probe_dimensions, read_icc_profile,
};
use crate::config::{JPEG_QUALITY_STEP, MAX_JPEG_SIZE, MIN_JPEG_QUALITY};
use crate::error::FrameError;

verus! {

/// Image dimensions in pixels.
#[derive(Debug, Clone, Copy, PartialEq, Eq, Structural)]
pub struct FrameDimensions {
    pub width: u32,
    pub height: u32,
}

/// A frame ready for upload.
#[derive(Debug)]
pub struct ProcessedFrame {
    pub jpeg_data: Vec<u8>,
    pub dimensions: FrameDimensions,
    /// The JPEG quality that was used, or `None` where the source was kept.
    pub quality_used: Option<u8>,
}

/// The limits that a recompression works under.
#[derive(Debug, Clone, Copy, PartialEq, Eq, Structural)]
pub struct CompressionSettings {
    /// Largest size in bytes that an upload may have.
    pub max_size: usize,
    /// Lowest quality tried.
    pub min_quality: u8,
    /// Drop in quality between two attempts; at least 1.
    pub quality_step: u8,
}

impl CompressionSettings {
    /// The limits that the bot posts with.
    pub fn standard() -> (r: CompressionSettings)
        ensures
            r.max_size == MAX_JPEG_SIZE,
            r.min_quality == MIN_JPEG_QUALITY,
            r.quality_step == JPEG_QUALITY_STEP,
    {
        CompressionSettings {
            max_size: MAX_JPEG_SIZE,
            min_quality: MIN_JPEG_QUALITY,
            quality_step: JPEG_QUALITY_STEP,
        }
    }
}

/// A decoded image as 8-bit RGB samples, three per pixel, row by row,
/// with the color profile to embed when it is encoded.
#[derive(Debug, Clone)]
pub struct RgbFrame {
    pub width: u32,
    pub height: u32,
    pub pixels: Vec<u8>,
    /// ICC profile of the source; empty where it has none.
    pub icc_profile: Vec<u8>,
}

impl RgbFrame {
    pub open spec fn wf(&self) -> bool {
        self.pixels@.len() == 3 * (self.width as int) * (self.height as int)
    }
}

/// Why a quality search ended without a JPEG.
#[derive(Debug, Clone, Copy, PartialEq, Eq, Structural)]
pub enum SearchFailure {
    /// The encoder refused the pixels.
    Encode,
    /// The JPEG was still too large at the lowest quality.
    TooLarge,
}

/// What to do after an attempt.
#[derive(Debug, Clone, Copy, PartialEq, Eq, Structural)]
pub enum SearchStep {
    /// The JPEG fits: keep it.
    Accept,
    /// Too large: try again at this quality.
    Retry { quality: u8 },
    /// Too large at the lowest quality: give up.
    GiveUp,
}

/// The quality tried after `quality`: one step lower, but not below the
/// floor.
pub open spec fn next_quality(quality: u8, min_quality: u8, step: u8) -> u8 {
    if quality - step <= min_quality {
        min_quality
    } else {
        (quality - step) as u8
    }
}

pub open spec fn search_step_spec(encoded_len: nat, quality: u8, settings: CompressionSettings) -> SearchStep {
    if encoded_len <= settings.max_size {
        SearchStep::Accept
    } else if quality <= settings.min_quality {
        SearchStep::GiveUp
    } else {
        SearchStep::Retry { quality: next_quality(quality, settings.min_quality, settings.quality_step) }
    }
}

/// The outcome of searching from `quality` downwards: the first JPEG that
/// fits, with its quality. A step of 0 would make no progress and ends the
/// search.
pub open spec fn quality_search(
    pixels: Seq<u8>,
    width: u32,
    height: u32,
    icc_profile: Seq<u8>,
    quality: u8,
    settings: CompressionSettings,
) -> Result<(Seq<u8>, u8), SearchFailure>
    decreases quality,
{
    match jpeg_encoding(pixels, width, height, icc_profile, quality) {
        None => Err(SearchFailure::Encode),
        Some(jpeg) => match search_step_spec(jpeg.len(), quality, settings) {
            SearchStep::Accept => Ok((jpeg, quality)),
            SearchStep::GiveUp => Err(SearchFailure::TooLarge),
            SearchStep::Retry { quality: next } => if next < quality {
                quality_search(pixels, width, height, icc_profile, next, settings)
            } else {
                Err(SearchFailure::TooLarge)
            },
        },
    }
}

/// The search over a frame's pixels, from quality 100.
pub open spec fn frame_search(frame: RgbFrame, settings: CompressionSettings) -> Result<(Seq<u8>, u8), SearchFailure> {
    quality_search(frame.pixels@, frame.width, frame.height, frame.icc_profile@, 100, settings)
}

/// How a recompression result stands to the search outcome.
pub open spec fn matches_search(
    r: Result<(Vec<u8>, u8), FrameError>,
    outcome: Result<(Seq<u8>, u8), SearchFailure>,
    frame_num: u32,
    max_size: usize,
) -> bool {
    match r {
        Ok((jpeg, quality)) => outcome == Ok::<(Seq<u8>, u8), SearchFailure>((jpeg@, quality)),
        Err(FrameError::CompressionFailed { frame, max_size: m }) => outcome == Err::<(Seq<u8>, u8), SearchFailure>(
            SearchFailure::TooLarge,
        ) && frame == frame_num && m == max_size,
        Err(FrameError::Image(_)) => outcome == Err::<(Seq<u8>, u8), SearchFailure>(SearchFailure::Encode),
    }
}

/// Decides what follows an attempt at `quality` that gave `encoded_len`
/// bytes.
pub fn search_step(encoded_len: usize, quality: u8, settings: &CompressionSettings) -> (r: SearchStep)
    ensures
        r == search_step_spec(encoded_len as nat, quality, *settings),
{
    if encoded_len <= settings.max_size {
        SearchStep::Accept
    } else if quality <= settings.min_quality {
        SearchStep::GiveUp
    } else {
        let lowered = quality.saturating_sub(settings.quality_step);
        if lowered <= settings.min_quality {
            SearchStep::Retry { quality: settings.min_quality }
        } else {
            SearchStep::Retry { quality: lowered }
        }
    }
}

/// Encodes the frame as JPEG at falling quality until it fits under
/// `settings.max_size`.
pub fn compress_to_jpeg(frame: &RgbFrame, frame_num: u32, settings: &CompressionSettings) -> (r: Result<(Vec<u8>, u8), FrameError>)
    requires
        frame.wf(),
        settings.quality_step >= 1,
    ensures
        matches_search(r, frame_search(*frame, *settings), frame_num, settings.max_size),
{
    let mut quality: u8 = 100;
    loop
        invariant
            frame.wf(),
            settings.quality_step >= 1,
            frame_search(*frame, *settings) == quality_search(frame.pixels@, frame.width, frame.height, frame.icc_profile@, quality, *settings),
        decreases quality,
    {
        let jpeg = match encode_jpeg(frame.pixels.as_slice(), frame.width, frame.height, frame.icc_profile.as_slice(), quality) {
            Ok(bytes) => bytes,
            Err(e) => {
                return Err(FrameError::Image(e));
            },
        };
        match search_step(jpeg.len(), quality, settings) {
            SearchStep::Accept => {
                return Ok((jpeg, quality));
            },
            SearchStep::GiveUp => {
                return Err(FrameError::CompressionFailed { frame: frame_num, max_size: settings.max_size });
            },
            SearchStep::Retry { quality: next } => {
                quality = next;
            },
        }
    }
}


/// Whether a frame number is usual: numbering starts at 1, so 0 deserves a
/// warning, though it is still processed.
pub fn validate_frame_number(frame: u32) -> (r: bool)
    ensures
        r == (frame != 0),
{
    frame != 0
}

/// Reads the dimensions of a source that is kept as it is.
pub fn get_image_dimensions(jpeg_data: Vec<u8>, frame_num: u32) -> (r: Result<ProcessedFrame, FrameError>)
    ensures
        r is Ok <==> decodes(jpeg_data@),
        r matches Ok(p) ==> p.jpeg_data@ == jpeg_data@ && p.quality_used is None && (
        p.dimensions.width,
        p.dimensions.height,
        ) == decoded_size(jpeg_data@),
        r matches Err(e) ==> e is Image,
{
    let (width, height) = match probe_dimensions(jpeg_data.as_slice()) {
        Ok(size) => size,
        Err(e) => {
            return Err(FrameError::Image(e));
        },
    };
    Ok(ProcessedFrame { jpeg_data, dimensions: FrameDimensions { width, height }, quality_used: None })
}

/// The color profile that recompression embeds: that of a JPEG source,
/// where it has one; none otherwise.
pub open spec fn profile_to_embed(jpeg_data: Seq<u8>) -> Seq<u8> {
    if jpeg_signature(jpeg_data) {
        match embedded_icc_profile(jpeg_data) {
            Some(profile) => profile,
            None => Seq::empty(),
        }
    } else {
        Seq::empty()
    }
}

/// Whether `r` is what recompressing an 8-bit RGB buffer of the given size
/// with the given profile yields.
pub open spec fn recompressed_from(
    r: Result<ProcessedFrame, FrameError>,
    pixels: Seq<u8>,
    width: u32,
    height: u32,
    icc_profile: Seq<u8>,
    frame_num: u32,
    settings: CompressionSettings,
) -> bool {
    &&& pixels.len() == 3 * (width as int) * (height as int)
    &&& match r {
        Ok(p) => p.dimensions == FrameDimensions { width, height } && (p.quality_used matches Some(q)
            && quality_search(pixels, width, height, icc_profile, 100, settings) == Ok::<
            (Seq<u8>, u8),
            SearchFailure,
        >((p.jpeg_data@, q))),
        Err(FrameError::CompressionFailed { frame, max_size }) => frame == frame_num && max_size
            == settings.max_size && quality_search(pixels, width, height, icc_profile, 100, settings)
            == Err::<(Seq<u8>, u8), SearchFailure>(SearchFailure::TooLarge),
        Err(FrameError::Image(_)) => quality_search(pixels, width, height, icc_profile, 100, settings)
            == Err::<(Seq<u8>, u8), SearchFailure>(SearchFailure::Encode),
    }
}

/// What recompressing the source `jpeg_data` yields: a decoding error
/// where it does not decode; else the search outcome on its decoded 8-bit
/// RGB pixels with the source's profile, reported with the decoded size.
pub open spec fn recompression_outcome(
    r: Result<ProcessedFrame, FrameError>,
    jpeg_data: Seq<u8>,
    frame_num: u32,
    settings: CompressionSettings,
) -> bool {
    if !decodes(jpeg_data) {
        r matches Err(FrameError::Image(_))
    } else {
        recompressed_from(
            r,
            decoded_rgb8(jpeg_data),
            decoded_size(jpeg_data).0,
            decoded_size(jpeg_data).1,
            profile_to_embed(jpeg_data),
            frame_num,
            settings,
        )
    }
}

/// Decodes the source, converts it to 8-bit RGB, keeps the color profile
/// of a JPEG source, and searches for a JPEG that fits.
pub fn process_jpeg_recompression(jpeg_data: Vec<u8>, frame_num: u32, settings: &CompressionSettings) -> (r: Result<
    ProcessedFrame,
    FrameError,
>)
    requires
        settings.quality_step >= 1,
    ensures
        recompression_outcome(r, jpeg_data@, frame_num, *settings),
{
    let (width, height, pixels) = match decode_rgb8(jpeg_data.as_slice()) {
        Ok(decoded) => decoded,
        Err(e) => {
            return Err(FrameError::Image(e));
        },
    };
    let icc_profile = if is_jpeg(jpeg_data.as_slice()) {
        match read_icc_profile(jpeg_data.as_slice()) {
            Some(profile) => profile,
            None => Vec::new(),
        }
    } else {
        Vec::new()
    };
    let frame = RgbFrame { width, height, pixels, icc_profile };
    match compress_to_jpeg(&frame, frame_num, settings) {
        Ok((jpeg, quality)) => Ok(
            ProcessedFrame { jpeg_data: jpeg, dimensions: FrameDimensions { width, height }, quality_used: Some(quality) },
        ),
        Err(e) => Err(e),
    }
}

/// What producing the upload for the source `jpeg_data` yields.
pub open spec fn frame_outcome(
    r: Result<ProcessedFrame, FrameError>,
    jpeg_data: Seq<u8>,
    frame_num: u32,
    settings: CompressionSettings,
) -> bool {
    if passes_through(jpeg_data, settings) {
        &&& r is Ok <==> decodes(jpeg_data)
        &&& r matches Ok(p) ==> p.jpeg_data@ == jpeg_data && p.quality_used is None && (
            p.dimensions.width,
            p.dimensions.height,
        ) == decoded_size(jpeg_data)
        &&& r matches Err(e) ==> e is Image
    } else {
        recompression_outcome(r, jpeg_data, frame_num, settings)
    }
}

/// Produces the upload for a frame from the bytes of its source file: the
/// source itself where it is a JPEG that already fits under
/// `settings.max_size`, else the first JPEG re-encoding that fits. The
/// dimensions reported are those of the source on both paths.
pub fn process_frame(jpeg_data: Vec<u8>, frame_num: u32, settings: &CompressionSettings) -> (r: Result<ProcessedFrame, FrameError>)
    requires
        settings.quality_step >= 1,
    ensures
        frame_outcome(r, jpeg_data@, frame_num, *settings),
{
    if jpeg_data.len() <= settings.max_size && is_jpeg(jpeg_data.as_slice()) {
        get_image_dimensions(jpeg_data, frame_num)
    } else {
        process_jpeg_recompression(jpeg_data, frame_num, settings)
    }
}

/// Whether a source is uploaded as it is: a JPEG no larger than the limit.
pub open spec fn passes_through(jpeg_data: Seq<u8>, settings: CompressionSettings) -> bool {
    jpeg_data.len() <= settings.max_size && jpeg_signature(jpeg_data)
}

/// The search gives up for size only after the floor quality itself was
/// tried and still gave a JPEG over the limit: the floor is never skipped.
pub proof fn lemma_too_large_only_after_floor(
    pixels: Seq<u8>,
    width: u32,
    height: u32,
    icc_profile: Seq<u8>,
    quality: u8,
    settings: CompressionSettings,
)
    requires
        settings.quality_step >= 1,
        settings.min_quality <= quality,
        quality_search(pixels, width, height, icc_profile, quality, settings) == Err::<(Seq<u8>, u8), SearchFailure>(
            SearchFailure::TooLarge,
        ),
    ensures
        jpeg_encoding(pixels, width, height, icc_profile, settings.min_quality) matches Some(jpeg) && jpeg.len()
            > settings.max_size,
    decreases quality,
{
    if quality > settings.min_quality {
        let next = next_quality(quality, settings.min_quality, settings.quality_step);
        lemma_too_large_only_after_floor(pixels, width, height, icc_profile, next, settings);
    }
}

/// A JPEG that the search returns fits under the limit, is the encoding at
/// the quality reported, and that quality lies between the floor and the
/// starting quality.
pub proof fn lemma_search_result_fits(
    pixels: Seq<u8>,
    width: u32,
    height: u32,
    icc_profile: Seq<u8>,
    quality: u8,
    settings: CompressionSettings,
)
    requires
        settings.min_quality <= quality,
    ensures
        quality_search(pixels, width, height, icc_profile, quality, settings) matches Ok((jpeg, q)) ==> {
            &&& jpeg.len() <= settings.max_size
            &&& jpeg_encoding(pixels, width, height, icc_profile, q) == Some(jpeg)
            &&& settings.min_quality <= q <= quality
        },
    decreases quality,
{
    if quality > settings.min_quality {
        let next = next_quality(quality, settings.min_quality, settings.quality_step);
        if next < quality {
            lemma_search_result_fits(pixels, width, height, icc_profile, next, settings);
        }
    }
}

/// Two recompressions of the same pixels under the same limits agree: both
/// succeed or neither does, and on success with the same bytes and the same
/// quality.
pub proof fn lemma_compress_deterministic(
    r1: Result<(Vec<u8>, u8), FrameError>,
    r2: Result<(Vec<u8>, u8), FrameError>,
    frame: RgbFrame,
    frame_num: u32,
    settings: CompressionSettings,
)
    requires
        matches_search(r1, frame_search(frame, settings), frame_num, settings.max_size),
        matches_search(r2, frame_search(frame, settings), frame_num, settings.max_size),
    ensures
        r1 is Ok <==> r2 is Ok,
        r1 matches Ok((jpeg1, q1)) ==> r2 matches Ok((jpeg2, q2)) && jpeg1@ == jpeg2@ && q1 == q2,
        r1 matches Err(FrameError::CompressionFailed { .. }) <==> r2 matches Err(
            FrameError::CompressionFailed { .. },
        ),
{
}

/// Two uploads produced from the same source bytes under the same limits
/// agree: both succeed or neither does; on success with the same bytes, the
/// same dimensions and the same quality; on failure with the same kind of
/// error.
pub proof fn lemma_process_frame_deterministic(
    r1: Result<ProcessedFrame, FrameError>,
    r2: Result<ProcessedFrame, FrameError>,
    jpeg_data: Seq<u8>,
    frame_num: u32,
    settings: CompressionSettings,
)
    requires
        frame_outcome(r1, jpeg_data, frame_num, settings),
        frame_outcome(r2, jpeg_data, frame_num, settings),
    ensures
        r1 is Ok <==> r2 is Ok,
        r1 matches Ok(p1) ==> r2 matches Ok(p2) && p1.jpeg_data@ == p2.jpeg_data@ && p1.dimensions == p2.dimensions
            && p1.quality_used == p2.quality_used,
        r1 matches Err(FrameError::CompressionFailed { .. }) <==> r2 matches Err(
            FrameError::CompressionFailed { .. },
        ),
{
}

} // verus!
