//! Settings of a conversion and what a conversion reports back.

use std::time::SystemTime;
use vstd::prelude::*;
use vstd::string::*;

verus! {

/// A point in time, as the operating system counts it. Only carried through, never read.
#[verifier::external_type_specification]
#[verifier::external_body]
pub struct ExSystemTime(SystemTime);

/// How the raw image data is stored.
#[derive(Clone, Copy, Debug, PartialEq, Eq, Structural)]
pub enum DngCompression {
    Uncompressed,
    Lossless,
}

/// Which photometric interpretation the written raw image has.
#[derive(Clone, Copy, Debug, PartialEq, Eq, Structural)]
pub enum DngPhotometricConversion {
    /// As the decoder delivered it.
    Original,
    /// Linear (demosaiced) data.
    Linear,
}

/// Which part of the sensor area is kept.
#[derive(Clone, Copy, Debug, PartialEq, Eq, Structural)]
pub enum CropMode {
    /// The whole sensor area.
    Uncropped,
    ActiveArea,
    Best,
}

/// Width and height, in pixels.
#[derive(Clone, Copy, Debug, PartialEq, Eq, Structural)]
pub struct Dim2 {
    pub w: usize,
    pub h: usize,
}

impl Dim2 {
    pub fn new(w: usize, h: usize) -> (r: Dim2)
        ensures
            r == (Dim2 { w, h }),
    {
        Dim2 { w, h }
    }
}

/// DNG version 1.4.
pub const DNG_VERSION_V1_4: [u8; 4] = [1, 4, 0, 0];

/// Parameters for DNG conversion.
#[derive(Clone, Debug)]
pub struct ConvertParams {
    /// Embed the original: the compressed raw file, or the original that a DNG embeds already.
    pub embedded: bool,
    pub compression: DngCompression,
    pub photometric_conversion: DngPhotometricConversion,
    pub apply_scaling: bool,
    pub crop: CropMode,
    pub predictor: u8,
    /// Write the two previews.
    pub preview: bool,
    /// Write a thumbnail into the root directory.
    pub thumbnail: bool,
    /// Artist that a conversion records.
    pub artist: Option<String>,
    /// Software that a conversion records.
    pub software: String,
    /// Which image of the input is converted.
    pub index: usize,
    pub keep_mtime: bool,
    /// DNG version written into the file (e.g. `[1, 4, 0, 0]` for 1.4).
    pub dng_version: [u8; 4],
    /// Bounding box (width, height) for the medium preview (SubIFD1).
    pub preview_medium: Dim2,
    /// Bounding box (width, height) for the full preview (SubIFD2).
    pub preview_full: Dim2,
    /// JPEG quality (0..=100) used for embedded previews.
    pub jpeg_quality: u8,
    /// Deterministic seed, from which the `ModifyDate` tag is derived together with the input
    /// name, so that identical input and settings give identical output. A DNG that has the tag
    /// already keeps it when its preview is replaced.
    pub seed: String,
    /// Emit a linear (demosaiced) DNG when supported by the decoder.
    pub linear: bool,
}

impl Default for ConvertParams {
    fn default() -> (r: ConvertParams)
        ensures
            r.embedded,
            r.compression == DngCompression::Lossless,
            r.photometric_conversion == DngPhotometricConversion::Original,
            !r.apply_scaling,
            r.crop == CropMode::Best,
            r.predictor == 1,
            r.preview,
            r.thumbnail,
            r.artist is None,
            r.software@ == "DNGLab"@,
            r.index == 0,
            !r.keep_mtime,
            r.dng_version@ == seq![1u8, 4u8, 0u8, 0u8],
            r.preview_medium == (Dim2 { w: 1024, h: 1024 }),
            r.preview_full == (Dim2 { w: 4000, h: 3000 }),
            r.jpeg_quality == 92,
            r.seed@ == Seq::<char>::empty(),
            !r.linear,
    {
        let version: [u8; 4] = DNG_VERSION_V1_4;
        assert(version@ =~= seq![1u8, 4u8, 0u8, 0u8]);
        ConvertParams {
            embedded: true,
            compression: DngCompression::Lossless,
            photometric_conversion: DngPhotometricConversion::Original,
            apply_scaling: false,
            crop: CropMode::Best,
            predictor: 1,
            preview: true,
            thumbnail: true,
            artist: None,
            software: "DNGLab".to_owned(),
            index: 0,
            keep_mtime: false,
            dng_version: version,
            preview_medium: Dim2::new(1024, 1024),
            preview_full: Dim2::new(4000, 3000),
            jpeg_quality: 92,
            seed: String::new(),
            linear: false,
        }
    }
}

/// Information surfaced from a completed conversion.
///
/// Lets callers reuse work the converter already performed (such as the metadata pass) instead
/// of running the decoder again.
#[derive(Clone, Debug)]
pub struct ConvertInfo {
    /// Embedded "last modified" timestamp recovered from the input's metadata, if the decoder
    /// was able to find one.
    pub last_modified: Option<SystemTime>,
}

impl Default for ConvertInfo {
    fn default() -> (r: ConvertInfo)
        ensures
            r.last_modified is None,
    {
        ConvertInfo { last_modified: None }
    }
}

} // verus!
