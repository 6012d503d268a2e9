use dng_convert::action::{Action, DecoderDirectory, Reply};
use dng_convert::conversion::{Conversion, Job};
use dng_convert::image::{ImageFacts, RawPhotometricInterpretation, Rect};
use dng_convert::params::{
    ConvertInfo, ConvertParams, Dim2, DngCompression, DngPhotometricConversion,
};
use dng_convert::stage::Stage;
use dng_convert::tags::{TagValue, MAKER_NOTES, MAKER_NOTE_SAFETY, ORIENTATION};
use std::time::{Duration, SystemTime};

/// An input, as the decoder and the writer would present it.
struct Input {
    hints: Vec<&'static str>,
    photometric: RawPhotometricInterpretation,
    raw_tags: bool,
    /// `None`: looking for a preview fails.
    preview: Option<bool>,
    /// `None`: developing fails.
    develop: Option<bool>,
    orientation_loaded: bool,
    dng_root: bool,
    tiff_root: Option<Vec<u16>>,
    safety: Option<Vec<u16>>,
    xpacket: bool,
    /// Name of the embedded original.
    original: Option<&'static str>,
    /// `None`: reading the timestamp fails.
    timestamp: Option<Option<SystemTime>>,
    /// The stage that fails.
    failing: Option<Stage>,
}

fn plain_input() -> Input {
    Input {
        hints: vec![],
        photometric: RawPhotometricInterpretation::Cfa,
        raw_tags: false,
        preview: Some(true),
        develop: Some(true),
        orientation_loaded: true,
        dng_root: false,
        tiff_root: None,
        safety: None,
        xpacket: false,
        original: None,
        timestamp: Some(None),
        failing: None,
    }
}

fn present(answer: Option<bool>) -> Reply<String> {
    match answer {
        Some(found) => Reply::Present(found),
        None => Reply::Failed("preview".to_string()),
    }
}

fn answer(input: &Input, stage: Stage, action: &Action) -> Reply<String> {
    if input.failing == Some(stage) {
        return Reply::Failed(format!("{:?} failed", stage));
    }
    match action {
        Action::ReadImage { .. } => Reply::Image(ImageFacts {
            size: Dim2::new(600, 400),
            active_area: None,
            fuji_rotation_width: Some(300),
            photometric: input.photometric,
            orientation: 6,
            hints: input.hints.iter().map(|hint| hint.to_string()).collect(),
        }),
        Action::Rotate { .. } => Reply::Rotated(Dim2::new(500, 700)),
        Action::FetchDirectory { directory } => match directory {
            DecoderDirectory::VirtualDngRawTags => Reply::Present(input.raw_tags),
            DecoderDirectory::VirtualDngRootTags => Reply::Present(input.dng_root),
            DecoderDirectory::Root => Reply::Tags(input.tiff_root.clone()),
        },
        Action::FindPreview { .. } => present(input.preview),
        Action::DevelopPreview => present(input.develop),
        Action::CheckRootTag { tag } => {
            assert_eq!(*tag, ORIENTATION);
            Reply::Present(input.orientation_loaded)
        }
        Action::FetchEntry { directory, tag } => {
            assert_eq!(*directory, DecoderDirectory::VirtualDngRootTags);
            assert_eq!(*tag, MAKER_NOTE_SAFETY);
            Reply::Entry(input.safety.clone().map(TagValue::Short))
        }
        Action::FetchXpacket { .. } => Reply::Present(input.xpacket),
        Action::FetchOriginal => Reply::Original(input.original.map(|name| name.to_string())),
        Action::ReadLastModified => match input.timestamp {
            Some(time) => Reply::LastModified(time),
            None => Reply::Failed("timestamp".to_string()),
        },
        _ => Reply::Done,
    }
}

/// Drive a conversion to its end: the stages, the actions, and the result.
fn drive(
    job: Job,
    params: &ConvertParams,
    name: &str,
    input: &Input,
) -> (Vec<Stage>, Vec<String>, Result<ConvertInfo, String>) {
    let mut conversion = Conversion::new(job, params, name);
    let mut stages = vec![];
    let mut actions = vec![];
    loop {
        let stage = conversion.stage();
        let action = conversion.action();
        stages.push(stage);
        actions.push(format!("{:?}", action));
        let reply = answer(input, stage, &action);
        assert!(conversion.accepts(&reply));
        if let Some(result) = conversion.resume(reply) {
            assert_eq!(conversion.stage(), Stage::Finished);
            return (stages, actions, result);
        }
    }
}

fn bare() -> ConvertParams {
    ConvertParams { embedded: false, preview: false, thumbnail: false, ..ConvertParams::default() }
}

#[test]
fn default_conversion_of_a_file() {
    let (stages, _, result) =
        drive(Job::ConvertFile, &ConvertParams::default(), "a.nef", &plain_input());
    assert_eq!(
        stages,
        vec![
            Stage::OpenSource,
            Stage::StartCompression,
            Stage::GetDecoder,
            Stage::ReadImage,
            Stage::ReadMetadata,
            Stage::CreateWriter,
            Stage::WriteRawImage,
            Stage::FetchRawTags,
            Stage::FinishRawImage,
            Stage::FindPreview,
            Stage::WriteMediumPreview,
            Stage::FinishMediumPreview,
            Stage::WriteFullPreview,
            Stage::FinishFullPreview,
            Stage::WriteThumbnail,
            Stage::LoadBaseTags,
            Stage::LoadMetadata,
            Stage::CheckOrientation,
            Stage::FetchDngRootTags,
            Stage::FetchTiffRootTags,
            Stage::FetchMakerNoteSafety,
            Stage::FetchXpacket,
            Stage::JoinCompression,
            Stage::WriteOriginal,
            Stage::SetSoftware,
            Stage::SetModifyDate,
            Stage::Close,
            Stage::ReadLastModified,
        ]
    );
    assert_eq!(result.unwrap().last_modified, None);
}

#[test]
fn bare_conversion_of_an_open_source() {
    let (stages, _, result) = drive(Job::ConvertSource, &bare(), "a.nef", &plain_input());
    assert_eq!(
        stages,
        vec![
            Stage::GetDecoder,
            Stage::ReadImage,
            Stage::ReadMetadata,
            Stage::CreateWriter,
            Stage::WriteRawImage,
            Stage::FetchRawTags,
            Stage::FinishRawImage,
            Stage::LoadBaseTags,
            Stage::LoadMetadata,
            Stage::CheckOrientation,
            Stage::FetchDngRootTags,
            Stage::FetchTiffRootTags,
            Stage::FetchMakerNoteSafety,
            Stage::FetchXpacket,
            Stage::SetSoftware,
            Stage::SetModifyDate,
            Stage::Close,
            Stage::ReadLastModified,
        ]
    );
    assert!(result.is_ok());
}

#[test]
fn everything_there_is_gets_copied() {
    let input = Input {
        raw_tags: true,
        orientation_loaded: false,
        dng_root: true,
        tiff_root: Some(vec![256, 51043, 51058]),
        safety: Some(vec![0]),
        xpacket: true,
        ..plain_input()
    };
    let params = ConvertParams { artist: Some("Ann".to_string()), ..bare() };
    let (stages, actions, _) = drive(Job::ConvertFile, &params, "a.nef", &input);
    for stage in [
        Stage::CopyRawTags,
        Stage::SetOrientation,
        Stage::CopyDngRootTags,
        Stage::CopyTiffRootTags,
        Stage::RemoveMakerNotes,
        Stage::WriteXpacket,
        Stage::SetArtist,
    ] {
        assert!(stages.contains(&stage), "{:?}", stage);
    }
    let expected = [
        Action::SetRootTag { tag: ORIENTATION, value: TagValue::Short(vec![6]) },
        Action::CopyTiffRootTags { tags: vec![51043, 51058] },
        Action::RemoveExifTag { tag: MAKER_NOTES },
        Action::SetRootTag { tag: 0x013b, value: TagValue::Ascii("Ann".to_string()) },
        Action::SetRootTag { tag: 0x0131, value: TagValue::Ascii("DNGLab".to_string()) },
    ];
    for action in expected {
        assert!(actions.contains(&format!("{:?}", action)), "{:?}", action);
    }
}

#[test]
fn loaded_orientation_is_kept() {
    let (stages, _, _) = drive(Job::ConvertFile, &bare(), "a.nef", &plain_input());
    assert!(!stages.contains(&Stage::SetOrientation));
}

#[test]
fn empty_tiff_root_copies_nothing() {
    let input = Input { tiff_root: Some(vec![]), ..plain_input() };
    let (_, actions, _) = drive(Job::ConvertFile, &bare(), "a.nef", &input);
    let expected = format!("{:?}", Action::CopyTiffRootTags { tags: vec![] });
    assert!(actions.contains(&expected));
}

#[test]
fn safe_maker_notes_stay() {
    let input = Input { safety: Some(vec![1]), ..plain_input() };
    let (stages, _, _) = drive(Job::ConvertFile, &bare(), "a.nef", &input);
    assert!(!stages.contains(&Stage::RemoveMakerNotes));
}

#[test]
fn embedded_open_source_is_compressed_first() {
    let params = ConvertParams { embedded: true, ..bare() };
    let (stages, actions, _) = drive(Job::ConvertSource, &params, "a.nef", &plain_input());
    assert_eq!(stages[0], Stage::StartCompression);
    assert!(stages.contains(&Stage::JoinCompression));
    assert!(!stages.contains(&Stage::FetchOriginal));
    let expected = format!("{:?}", Action::WriteOriginal { name: "a.nef".to_string() });
    assert!(actions.contains(&expected));
}

#[test]
fn rotation_scales_rotates_and_counts_as_linear() {
    let input = Input { hints: vec!["fuji_rotation_alt", "fuji_rotate_90cw"], ..plain_input() };
    let params = ConvertParams {
        photometric_conversion: DngPhotometricConversion::Linear,
        ..bare()
    };
    let (stages, actions, _) = drive(Job::ConvertFile, &params, "a.raf", &input);
    let at = stages.iter().position(|stage| *stage == Stage::ApplyScaling).unwrap();
    assert_eq!(
        stages[at..at + 5],
        [
            Stage::ApplyScaling,
            Stage::Rotate,
            Stage::AdoptRotation,
            Stage::CreateWriter,
            Stage::WriteRawImage,
        ]
    );
    let rotate = Action::Rotate {
        area: Rect { x: 0, y: 0, size: Dim2::new(600, 400) },
        width: Some(300),
        quarter_turn: true,
    };
    assert_eq!(actions[at + 1], format!("{:?}", rotate));
    assert!(actions[at + 2].contains("size: Dim2 { w: 500, h: 700 }"));
    assert!(actions[at + 4].contains("photometric: Linear"));
}

#[test]
fn scaling_on_request() {
    let params = ConvertParams { apply_scaling: true, ..bare() };
    let (stages, _, _) = drive(Job::ConvertFile, &params, "a.nef", &plain_input());
    assert!(stages.contains(&Stage::ApplyScaling));
    assert!(!stages.contains(&Stage::Rotate));
}

#[test]
fn raw_image_goes_to_root_without_thumbnail() {
    let (_, actions, _) = drive(Job::ConvertFile, &bare(), "a.nef", &plain_input());
    let expected = Action::WriteRawImage {
        on_root: true,
        crop: bare().crop,
        compression: DngCompression::Lossless,
        photometric: DngPhotometricConversion::Original,
        predictor: 1,
    };
    assert!(actions.contains(&format!("{:?}", expected)));
    let params = ConvertParams { thumbnail: true, ..bare() };
    let (_, actions, _) = drive(Job::ConvertFile, &params, "a.nef", &plain_input());
    assert!(actions.iter().any(|action| action.contains("on_root: false")));
}

#[test]
fn linear_request_falls_back_on_a_mosaic() {
    let params = ConvertParams {
        photometric_conversion: DngPhotometricConversion::Linear,
        ..bare()
    };
    let (_, actions, _) = drive(Job::ConvertFile, &params, "a.nrw", &plain_input());
    assert!(actions.iter().any(|action| action.contains("photometric: Original")));
}

#[test]
fn missing_preview_is_developed() {
    let input = Input { preview: Some(false), ..plain_input() };
    let (stages, _, _) = drive(Job::ConvertFile, &ConvertParams::default(), "a.nef", &input);
    assert!(stages.contains(&Stage::DevelopPreview));
    assert!(stages.contains(&Stage::WriteMediumPreview));
    assert!(stages.contains(&Stage::WriteThumbnail));
}

#[test]
fn conversion_goes_on_without_a_preview() {
    for (preview, develop) in [(None, Some(true)), (Some(false), None), (Some(false), Some(false))]
    {
        let input = Input { preview, develop, ..plain_input() };
        let (stages, _, result) =
            drive(Job::ConvertFile, &ConvertParams::default(), "a.nef", &input);
        assert!(!stages.contains(&Stage::WriteMediumPreview));
        assert!(!stages.contains(&Stage::WriteFullPreview));
        assert!(!stages.contains(&Stage::WriteThumbnail));
        assert!(stages.contains(&Stage::Close));
        assert!(result.is_ok());
    }
}

#[test]
fn thumbnail_alone() {
    let params = ConvertParams { preview: false, ..ConvertParams::default() };
    let (stages, _, _) = drive(Job::ConvertFile, &params, "a.nef", &plain_input());
    assert!(!stages.contains(&Stage::WriteMediumPreview));
    assert!(stages.contains(&Stage::WriteThumbnail));
}

#[test]
fn preview_pyramid_sizes() {
    let (_, actions, _) =
        drive(Job::ConvertFile, &ConvertParams::default(), "a.nef", &plain_input());
    let medium = Action::WritePreview { frame: 1, quality: 92, bounds: Dim2::new(1024, 1024) };
    let full = Action::WritePreview { frame: 2, quality: 92, bounds: Dim2::new(4000, 3000) };
    assert!(actions.contains(&format!("{:?}", medium)));
    assert!(actions.contains(&format!("{:?}", full)));
}

#[test]
fn failure_ends_the_conversion() {
    let input = Input { failing: Some(Stage::WriteRawImage), ..plain_input() };
    let (stages, _, result) =
        drive(Job::ConvertFile, &ConvertParams::default(), "a.nef", &input);
    assert_eq!(*stages.last().unwrap(), Stage::WriteRawImage);
    assert_eq!(result.unwrap_err(), "WriteRawImage failed");
}

#[test]
fn every_other_failure_is_reported() {
    let params = ConvertParams::default();
    let (stages, _, _) = drive(Job::ConvertFile, &params, "a.nef", &plain_input());
    for stage in stages {
        let input = Input { failing: Some(stage), ..plain_input() };
        let (_, _, result) = drive(Job::ConvertFile, &params, "a.nef", &input);
        match stage {
            Stage::FindPreview | Stage::ReadLastModified => assert!(result.is_ok()),
            _ => assert_eq!(result.unwrap_err(), format!("{:?} failed", stage)),
        }
    }
}

#[test]
fn timestamp_is_reported() {
    let time = SystemTime::UNIX_EPOCH + Duration::from_secs(1_700_000_000);
    let input = Input { timestamp: Some(Some(time)), ..plain_input() };
    let (_, _, result) = drive(Job::ConvertFile, &bare(), "a.nef", &input);
    assert_eq!(result.unwrap().last_modified, Some(time));
    let input = Input { timestamp: None, ..plain_input() };
    let (_, _, result) = drive(Job::ConvertFile, &bare(), "a.nef", &input);
    assert_eq!(result.unwrap().last_modified, None);
}

#[test]
fn replacing_a_preview() {
    let input = Input {
        hints: vec!["fuji_rotation"],
        preview: None,
        safety: Some(vec![0]),
        ..plain_input()
    };
    let params = ConvertParams { apply_scaling: true, ..ConvertParams::default() };
    let (stages, _, result) = drive(Job::Reembed, &params, "a.dng", &input);
    assert_eq!(
        stages,
        vec![
            Stage::OpenSource,
            Stage::GetDecoder,
            Stage::ReadImage,
            Stage::ReadMetadata,
            Stage::OpenPreview,
            Stage::CreateWriter,
            Stage::WriteRawImage,
            Stage::FetchRawTags,
            Stage::FinishRawImage,
            Stage::WriteMediumPreview,
            Stage::FinishMediumPreview,
            Stage::WriteFullPreview,
            Stage::FinishFullPreview,
            Stage::WriteThumbnail,
            Stage::LoadBaseTags,
            Stage::LoadMetadata,
            Stage::CheckOrientation,
            Stage::FetchDngRootTags,
            Stage::FetchTiffRootTags,
            Stage::FetchXpacket,
            Stage::FetchOriginal,
            Stage::SetModifyDate,
            Stage::Close,
        ]
    );
    assert!(result.is_ok());
}

#[test]
fn embedded_original_keeps_its_name() {
    let input = Input { original: Some("DSC_0001.NRW"), ..plain_input() };
    let (stages, actions, _) = drive(Job::Reembed, &ConvertParams::default(), "a.dng", &input);
    let at = stages.iter().position(|stage| *stage == Stage::FetchOriginal).unwrap();
    assert_eq!(stages[at + 1], Stage::WriteOriginal);
    let expected = Action::WriteOriginal { name: "DSC_0001.NRW".to_string() };
    assert_eq!(actions[at + 1], format!("{:?}", expected));
}

#[test]
fn unwanted_original_is_not_asked_for() {
    let input = Input { original: Some("DSC_0001.NRW"), ..plain_input() };
    let (stages, _, _) = drive(Job::Reembed, &bare(), "a.dng", &input);
    assert!(!stages.contains(&Stage::FetchOriginal));
    assert!(!stages.contains(&Stage::WriteOriginal));
}

#[test]
fn credits_of_the_input_are_carried_over() {
    let input = Input { tiff_root: Some(vec![256, 0x0131, 0x013b, 51043]), ..plain_input() };
    let params = ConvertParams { artist: Some("Ann".to_string()), ..bare() };
    let (stages, actions, _) = drive(Job::Reembed, &params, "a.dng", &input);
    assert!(!stages.contains(&Stage::SetArtist));
    assert!(!stages.contains(&Stage::SetSoftware));
    let at = stages.iter().position(|stage| *stage == Stage::CarryCredits).unwrap();
    let expected = Action::CopyTiffRootTags { tags: vec![0x0131, 0x013b] };
    assert_eq!(actions[at], format!("{:?}", expected));
    assert_eq!(stages[at + 1..], [Stage::SetModifyDate, Stage::Close]);
    let (stages, _, _) = drive(Job::ConvertFile, &params, "a.nef", &input);
    assert!(!stages.contains(&Stage::CarryCredits));
}

#[test]
fn doubtful_maker_notes_go() {
    let input = Input { safety: Some(vec![2]), ..plain_input() };
    let (stages, _, _) = drive(Job::ConvertFile, &bare(), "a.nef", &input);
    assert!(stages.contains(&Stage::RemoveMakerNotes));
}

#[test]
fn reembedding_touches_no_samples() {
    let input = Input { hints: vec!["fuji_rotation"], ..plain_input() };
    let params = ConvertParams { apply_scaling: true, ..bare() };
    let (stages, _, _) = drive(Job::Reembed, &params, "a.dng", &input);
    for stage in [Stage::ApplyScaling, Stage::Rotate, Stage::AdoptRotation] {
        assert!(!stages.contains(&stage));
    }
}

#[test]
fn seed_changes_the_date_alone() {
    let first = ConvertParams { seed: "s".to_string(), ..ConvertParams::default() };
    let second = ConvertParams { seed: "t".to_string(), ..ConvertParams::default() };
    let (stages, a, _) = drive(Job::ConvertFile, &first, "a.nef", &plain_input());
    let (others, b, _) = drive(Job::ConvertFile, &second, "a.nef", &plain_input());
    assert_eq!(stages, others);
    for i in 0..stages.len() {
        if stages[i] == Stage::SetModifyDate {
            assert_ne!(a[i], b[i]);
            assert_eq!(a[i].len(), b[i].len());
        } else {
            assert_eq!(a[i], b[i]);
        }
    }
}

#[test]
fn file_is_an_opened_source() {
    let params = ConvertParams::default();
    let (stages, a, _) = drive(Job::ConvertFile, &params, "a.nef", &plain_input());
    let (_, b, _) = drive(Job::ConvertSource, &params, "a.nef", &plain_input());
    assert_eq!(stages[0], Stage::OpenSource);
    assert_eq!(a[1..], b[..]);
}

#[test]
fn unreadable_preview_ends_the_replacement() {
    let input = Input { failing: Some(Stage::OpenPreview), ..plain_input() };
    let (stages, _, result) = drive(Job::Reembed, &ConvertParams::default(), "a.dng", &input);
    assert_eq!(*stages.last().unwrap(), Stage::OpenPreview);
    assert!(result.is_err());
}

#[test]
fn same_input_gives_the_same_work() {
    let params = ConvertParams { seed: "s".to_string(), ..ConvertParams::default() };
    let first = drive(Job::ConvertFile, &params, "a.nef", &plain_input());
    let second = drive(Job::ConvertFile, &params.clone(), "a.nef", &plain_input());
    assert_eq!(first.1, second.1);
}

#[test]
fn reembedding_keeps_the_date_of_the_conversion() {
    let params = ConvertParams { seed: "seed".to_string(), ..ConvertParams::default() };
    let (_, converted, _) = drive(Job::ConvertFile, &params, "DSC_0001.NRW", &plain_input());
    let date = Action::SetRootTag {
        tag: 0x0132,
        value: TagValue::Ascii("2023:12:15 19:00:49".to_string()),
    };
    assert!(converted.contains(&format!("{:?}", date)));

    let input = Input { tiff_root: Some(vec![0x0131, 0x0132, 256]), ..plain_input() };
    let (stages, replaced, _) = drive(Job::Reembed, &params, "DSC_0001.dng", &input);
    assert!(!stages.contains(&Stage::SetModifyDate));
    let at = stages.iter().position(|stage| *stage == Stage::CarryCredits).unwrap();
    let expected = Action::CopyTiffRootTags { tags: vec![0x0131, 0x0132] };
    assert_eq!(replaced[at], format!("{:?}", expected));
    assert_eq!(stages[at + 1..], [Stage::Close]);
}

#[test]
fn missing_date_is_derived_when_reembedding() {
    let date = Action::SetRootTag {
        tag: 0x0132,
        value: TagValue::Ascii("2022:04:15 17:49:24".to_string()),
    };
    for tiff_root in [None, Some(vec![]), Some(vec![0x0131])] {
        let input = Input { tiff_root, ..plain_input() };
        let (_, actions, _) =
            drive(Job::Reembed, &ConvertParams::default(), "DSC_0001.dng", &input);
        assert!(actions.contains(&format!("{:?}", date)));
    }
}

#[test]
fn conversion_sets_the_date_over_that_of_the_input() {
    let input = Input { tiff_root: Some(vec![0x0132]), ..plain_input() };
    let (stages, _, _) = drive(Job::ConvertFile, &bare(), "a.nef", &input);
    assert!(stages.contains(&Stage::SetModifyDate));
    assert!(!stages.contains(&Stage::CarryCredits));
}

#[test]
fn pyramid_agrees_between_jobs() {
    let first = ConvertParams { seed: "s".to_string(), ..ConvertParams::default() };
    let second = ConvertParams { seed: "t".to_string(), ..ConvertParams::default() };
    let (_, converted, _) = drive(Job::ConvertFile, &first, "DSC_0001.NRW", &plain_input());
    let (_, replaced, _) = drive(Job::Reembed, &second, "DSC_0001.dng", &plain_input());
    let pyramid = |actions: &Vec<String>| -> Vec<String> {
        actions.iter().filter(|action| action.starts_with("WritePreview")).cloned().collect()
    };
    assert_eq!(pyramid(&converted), pyramid(&replaced));
    assert_eq!(pyramid(&converted).len(), 2);
}

#[test]
fn reembedding_shows_the_edited_image() {
    for (preview, thumbnail) in [(false, false), (false, true), (true, false), (true, true)] {
        let params = ConvertParams { preview, thumbnail, ..ConvertParams::default() };
        let (stages, _, _) = drive(Job::Reembed, &params, "a.dng", &plain_input());
        assert!(stages.contains(&Stage::OpenPreview));
        assert!(!stages.contains(&Stage::FindPreview));
        assert!(!stages.contains(&Stage::DevelopPreview));
        assert_eq!(stages.contains(&Stage::WriteMediumPreview), preview);
        assert_eq!(stages.contains(&Stage::WriteFullPreview), preview);
        assert_eq!(stages.contains(&Stage::WriteThumbnail), thumbnail);
    }
}

#[test]
fn replies_of_another_kind_are_not_accepted() {
    let params = ConvertParams::default();
    let conversion = Conversion::new(Job::ConvertFile, &params, "a.nef");
    assert!(conversion.accepts(&Reply::<String>::Done));
    assert!(conversion.accepts(&Reply::Failed("x".to_string())));
    assert!(!conversion.accepts(&Reply::<String>::Present(true)));
}
