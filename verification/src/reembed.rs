//! Replacing the preview of a DNG file from the command line.

use vstd::prelude::*;
use vstd::string::*;

use crate::image::{conversion_for, RawPhotometricInterpretation};
use crate::params::{
    ConvertParams, CropMode, Dim2, DngCompression, DngPhotometricConversion, DNG_VERSION_V1_4,
};
use crate::text::joined;

verus! {

/// What the command line says. `P` is the type of a path.
#[derive(Debug)]
pub struct ReembedOptions<P> {
    /// The DNG file whose preview is replaced.
    pub dng: Option<P>,
    /// The edited preview.
    pub preview: Option<P>,
    /// Where the result goes.
    pub output: Option<P>,
    /// The DNG file is there.
    pub dng_exists: bool,
    /// The edited preview is there.
    pub preview_exists: bool,
    pub embedded: bool,
    /// Short for lossless compression, whatever `compression` says.
    pub compress: bool,
    pub compression: Option<DngCompression>,
    pub crop: Option<CropMode>,
    pub predictor: Option<u8>,
    pub preview_enabled: bool,
    pub thumbnail_enabled: bool,
    pub artist: Option<String>,
    pub seed: Option<String>,
}

/// Why a command line is refused.
#[derive(Debug)]
pub enum ReembedError<P> {
    /// A switch is missing; the text says which.
    InvalidCmdSwitch(String),
    /// A file is missing.
    NotFound(P),
}

/// What is to be done.
#[derive(Debug)]
pub struct ReembedPlan<P> {
    pub dng: P,
    pub preview: P,
    pub output: P,
    pub params: ConvertParams,
}

/// The grounds on which a command line is refused.
pub enum Refusal {
    NoDng,
    NoPreview,
    DngNotFound,
    PreviewNotFound,
    NoCompression,
    NoCrop,
    NoPredictor,
}

/// The first ground that holds, if any does.
pub open spec fn refusal<P>(options: ReembedOptions<P>) -> Option<Refusal> {
    if options.dng is None {
        Some(Refusal::NoDng)
    } else if options.preview is None {
        Some(Refusal::NoPreview)
    } else if !options.dng_exists {
        Some(Refusal::DngNotFound)
    } else if !options.preview_exists {
        Some(Refusal::PreviewNotFound)
    } else if !options.compress && options.compression is None {
        Some(Refusal::NoCompression)
    } else if options.crop is None {
        Some(Refusal::NoCrop)
    } else if options.predictor is None {
        Some(Refusal::NoPredictor)
    } else {
        None
    }
}

/// `error` tells the ground `ground`.
pub open spec fn reports<P>(
    options: ReembedOptions<P>,
    ground: Refusal,
    error: ReembedError<P>,
) -> bool {
    match ground {
        Refusal::NoDng => error matches ReembedError::InvalidCmdSwitch(text) && text@
            == "No DNG file given (use --dng)"@,
        Refusal::NoPreview => error matches ReembedError::InvalidCmdSwitch(text) && text@
            == "No preview JPEG given (use --preview)"@,
        Refusal::DngNotFound => error == ReembedError::NotFound(options.dng->0),
        Refusal::PreviewNotFound => error == ReembedError::NotFound(options.preview->0),
        Refusal::NoCompression => error matches ReembedError::InvalidCmdSwitch(text) && text@
            == "compression has no default"@,
        Refusal::NoCrop => error matches ReembedError::InvalidCmdSwitch(text) && text@
            == "crop has no default"@,
        Refusal::NoPredictor => error matches ReembedError::InvalidCmdSwitch(text) && text@
            == "predictor has no default"@,
    }
}

/// The parameters that a command line stands for. Sizes and quality of the previews are fixed.
pub open spec fn expresses<P>(
    params: ConvertParams,
    options: ReembedOptions<P>,
    version: Seq<char>,
) -> bool {
    &&& params.embedded == options.embedded
    &&& params.compression == if options.compress {
        DngCompression::Lossless
    } else {
        options.compression->0
    }
    &&& params.photometric_conversion == DngPhotometricConversion::Original
    &&& !params.apply_scaling
    &&& params.crop == options.crop->0
    &&& params.predictor == options.predictor->0
    &&& params.preview == options.preview_enabled
    &&& params.thumbnail == options.thumbnail_enabled
    &&& params.artist == options.artist
    &&& params.software@ == "DNGLab "@ + version
    &&& params.index == 0
    &&& !params.keep_mtime
    &&& params.dng_version@ == seq![1u8, 4u8, 0u8, 0u8]
    &&& params.preview_medium == (Dim2 { w: 1024, h: 1024 })
    &&& params.preview_full == (Dim2 { w: 4000, h: 3000 })
    &&& params.jpeg_quality == 92
    &&& params.seed@ == match options.seed {
        Some(seed) => seed@,
        None => Seq::<char>::empty(),
    }
    &&& !params.linear
}

/// Check a command line and work out what it asks for. Without an output path the DNG file
/// itself is replaced. `version` is that of the program.
pub fn plan_reembed<P: Clone>(options: ReembedOptions<P>, version: &str) -> (r: Result<
    ReembedPlan<P>,
    ReembedError<P>,
>)
    ensures
        r is Err <==> refusal(options) is Some,
        r matches Err(error) ==> reports(options, refusal(options)->0, error),
        r matches Ok(plan) ==> {
            &&& plan.dng == options.dng->0
            &&& plan.preview == options.preview->0
            &&& options.output matches Some(output) ==> plan.output == output
            &&& options.output is None ==> cloned(options.dng->0, plan.output)
            &&& expresses(plan.params, options, version@)
        },
{
    let dng: P = match options.dng {
        Some(path) => path,
        None => {
            return Err(
                ReembedError::InvalidCmdSwitch("No DNG file given (use --dng)".to_owned()),
            );
        },
    };
    let preview: P = match options.preview {
        Some(path) => path,
        None => {
            return Err(
                ReembedError::InvalidCmdSwitch(
                    "No preview JPEG given (use --preview)".to_owned(),
                ),
            );
        },
    };
    let output: P = match options.output {
        Some(path) => path,
        None => dng.clone(),
    };
    if !options.dng_exists {
        return Err(ReembedError::NotFound(dng));
    }
    if !options.preview_exists {
        return Err(ReembedError::NotFound(preview));
    }
    let compression: DngCompression = if options.compress {
        DngCompression::Lossless
    } else {
        match options.compression {
            Some(compression) => compression,
            None => {
                return Err(
                    ReembedError::InvalidCmdSwitch("compression has no default".to_owned()),
                );
            },
        }
    };
    let crop: CropMode = match options.crop {
        Some(crop) => crop,
        None => {
            return Err(ReembedError::InvalidCmdSwitch("crop has no default".to_owned()));
        },
    };
    let predictor: u8 = match options.predictor {
        Some(predictor) => predictor,
        None => {
            return Err(ReembedError::InvalidCmdSwitch("predictor has no default".to_owned()));
        },
    };
    let seed: String = match options.seed {
        Some(seed) => seed,
        None => String::new(),
    };
    let dng_version: [u8; 4] = DNG_VERSION_V1_4;
    assert(dng_version@ =~= seq![1u8, 4u8, 0u8, 0u8]);
    let params = ConvertParams {
        embedded: options.embedded,
        compression,
        photometric_conversion: DngPhotometricConversion::Original,
        apply_scaling: false,
        crop,
        predictor,
        preview: options.preview_enabled,
        thumbnail: options.thumbnail_enabled,
        artist: options.artist,
        software: joined("DNGLab ", version),
        index: 0,
        keep_mtime: false,
        dng_version,
        preview_medium: Dim2::new(1024, 1024),
        preview_full: Dim2::new(4000, 3000),
        jpeg_quality: 92,
        seed,
        linear: false,
    };
    Ok(ReembedPlan { dng, preview, output, params })
}

/// A command line never asks for another interpretation of the raw image than it has: neither
/// scaling nor a linear conversion comes from it.
pub proof fn law_command_keeps_interpretation<P>(
    params: ConvertParams,
    options: ReembedOptions<P>,
    version: Seq<char>,
    photometric: RawPhotometricInterpretation,
)
    requires
        expresses(params, options, version),
    ensures
        !params.apply_scaling,
        conversion_for(params, photometric) == DngPhotometricConversion::Original,
{
}

/// Every switch of the command line lands in its own setting, and the other settings are fixed.
/// The short switch for compression outweighs the long one.
pub proof fn law_command_settings<P>(
    params: ConvertParams,
    options: ReembedOptions<P>,
    version: Seq<char>,
)
    requires
        refusal(options) is None,
        expresses(params, options, version),
    ensures
        params.embedded <==> options.embedded,
        options.compress ==> params.compression == DngCompression::Lossless,
        !options.compress ==> options.compression == Some(params.compression),
        options.crop == Some(params.crop),
        options.predictor == Some(params.predictor),
        params.preview <==> options.preview_enabled,
        params.thumbnail <==> options.thumbnail_enabled,
        params.artist == options.artist,
        params.software@ == "DNGLab "@ + version,
        options.seed matches Some(seed) ==> params.seed@ == seed@,
        options.seed is None ==> params.seed@.len() == 0,
        params.photometric_conversion == DngPhotometricConversion::Original,
        !params.linear,
        !params.apply_scaling,
        !params.keep_mtime,
        params.index == 0,
        params.dng_version@ == seq![1u8, 4u8, 0u8, 0u8],
        params.preview_medium.w == 1024 && params.preview_medium.h == 1024,
        params.preview_full.w == 4000 && params.preview_full.h == 3000,
        params.jpeg_quality == 92,
{
}

/// A command line is good exactly if both files are named and there, and crop, predictor and a
/// compression are settled.
pub proof fn law_good_command<P>(options: ReembedOptions<P>)
    ensures
        refusal(options) is None <==> options.dng is Some && options.preview is Some
            && options.dng_exists && options.preview_exists && (options.compress
            || options.compression is Some) && options.crop is Some && options.predictor is Some,
{
}

/// What is missing is reported, names before files and files before settings: no DNG before no
/// preview, a DNG that is not there before a preview that is not, then compression, crop and
/// predictor. A file that is not there is reported with its own path.
pub proof fn law_first_fault_is_reported<P>(options: ReembedOptions<P>, error: ReembedError<P>)
    requires
        refusal(options) is Some,
        reports(options, refusal(options)->0, error),
    ensures
        error matches ReembedError::InvalidCmdSwitch(text) ==> {
            ||| options.dng is None && text@ == "No DNG file given (use --dng)"@
            ||| options.dng is Some && options.preview is None && text@
                == "No preview JPEG given (use --preview)"@
            ||| options.dng is Some && options.preview is Some && options.dng_exists
                && options.preview_exists && {
                ||| !options.compress && options.compression is None && text@
                    == "compression has no default"@
                ||| (options.compress || options.compression is Some) && options.crop is None
                    && text@ == "crop has no default"@
                ||| (options.compress || options.compression is Some) && options.crop is Some
                    && options.predictor is None && text@ == "predictor has no default"@
            }
        },
        error matches ReembedError::NotFound(path) ==> {
            &&& options.dng is Some
            &&& options.preview is Some
            &&& !options.dng_exists ==> options.dng == Some(path)
            &&& options.dng_exists ==> !options.preview_exists && options.preview == Some(path)
        },
{
}

/// Extension of the file that is written before it replaces the output.
pub fn temp_extension() -> (r: &'static str)
    ensures
        r@ == "dng.tmp"@,
{
    "dng.tmp"
}

/// The steps by which the output is replaced.
#[derive(Clone, Copy, Debug, PartialEq, Eq, Structural)]
pub enum ReplaceStep {
    /// Create the temporary file.
    CreateTemp,
    /// Write the DNG with the new preview into the temporary file.
    Embed,
    /// Flush the temporary file.
    Flush,
    /// Put the temporary file in the place of the output.
    Rename,
    /// Nothing is left to do.
    Finished,
}

impl ReplaceStep {
    /// The step that follows a success.
    pub open spec fn following(self) -> ReplaceStep {
        match self {
            ReplaceStep::CreateTemp => ReplaceStep::Embed,
            ReplaceStep::Embed => ReplaceStep::Flush,
            ReplaceStep::Flush => ReplaceStep::Rename,
            ReplaceStep::Rename => ReplaceStep::Finished,
            ReplaceStep::Finished => ReplaceStep::Finished,
        }
    }

    /// The step changes what stands at the output path.
    pub open spec fn touches_output(self) -> bool {
        self == ReplaceStep::Rename
    }
}

/// Go on to the next step once one is done. A failure ends the replacement and is handed back.
pub fn after_step<E>(step: ReplaceStep, outcome: Result<(), E>) -> (r: Result<ReplaceStep, E>)
    ensures
        outcome is Ok ==> r == Ok::<ReplaceStep, E>(step.following()),
        outcome matches Err(error) ==> r == Err::<ReplaceStep, E>(error),
{
    match outcome {
        Err(error) => Err(error),
        Ok(()) => Ok(
            match step {
                ReplaceStep::CreateTemp => ReplaceStep::Embed,
                ReplaceStep::Embed => ReplaceStep::Flush,
                ReplaceStep::Flush => ReplaceStep::Rename,
                ReplaceStep::Rename | ReplaceStep::Finished => ReplaceStep::Finished,
            },
        ),
    }
}

/// The steps of a replacement, as far as it came.
pub open spec fn is_replacement(steps: Seq<ReplaceStep>) -> bool {
    &&& steps.len() > 0
    &&& steps[0] == ReplaceStep::CreateTemp
    &&& forall|i: int|
        0 <= i < steps.len() - 1 ==> steps[i + 1] == (#[trigger] steps[i]).following()
}

/// The output is untouched until the new file has been created, written and flushed, so that a
/// failure on the way never leaves a half-written file in its place.
pub proof fn law_output_is_replaced_last(steps: Seq<ReplaceStep>, i: int)
    requires
        is_replacement(steps),
        0 <= i < steps.len(),
        steps[i].touches_output(),
    ensures
        i == 3,
        steps[0] == ReplaceStep::CreateTemp,
        steps[1] == ReplaceStep::Embed,
        steps[2] == ReplaceStep::Flush,
{
    if i >= 1 {
        assert(steps[1] == steps[0].following());
    }
    if i >= 2 {
        assert(steps[2] == steps[1].following());
    }
    if i >= 3 {
        assert(steps[3] == steps[2].following());
    }
    if i >= 4 {
        lemma_finished_stays(steps, i);
    }
}

/// A replacement that meets no failure creates the temporary file, fills it, flushes it, puts it
/// in the place of the output, and is finished. Only one of its steps touches the output.
pub proof fn law_replacement_runs_through(steps: Seq<ReplaceStep>, i: int)
    requires
        is_replacement(steps),
        0 <= i < steps.len(),
    ensures
        steps[i] == ReplaceStep::CreateTemp <==> i == 0,
        steps[i] == ReplaceStep::Embed <==> i == 1,
        steps[i] == ReplaceStep::Flush <==> i == 2,
        steps[i] == ReplaceStep::Rename <==> i == 3,
        steps[i] == ReplaceStep::Finished <==> i >= 4,
        steps[i].touches_output() <==> i == 3,
{
    if i >= 4 {
        lemma_finished_stays(steps, i);
    } else {
        if i >= 1 {
            assert(steps[1] == steps[0].following());
        }
        if i >= 2 {
            assert(steps[2] == steps[1].following());
        }
        if i >= 3 {
            assert(steps[3] == steps[2].following());
        }
    }
}

proof fn lemma_finished_stays(steps: Seq<ReplaceStep>, i: int)
    requires
        is_replacement(steps),
        4 <= i < steps.len(),
    ensures
        steps[i] == ReplaceStep::Finished,
    decreases i,
{
    if i > 4 {
        lemma_finished_stays(steps, i - 1);
        assert(steps[i] == steps[i - 1].following());
    } else {
        assert(steps[1] == steps[0].following());
        assert(steps[2] == steps[1].following());
        assert(steps[3] == steps[2].following());
        assert(steps[4] == steps[3].following());
    }
}

} // verus!
