use dng_convert::params::{CropMode, Dim2, DngCompression, DngPhotometricConversion};
use dng_convert::reembed::{
    after_step, plan_reembed, temp_extension, ReembedError, ReembedOptions, ReembedPlan,
    ReplaceStep,
};

fn options() -> ReembedOptions<String> {
    ReembedOptions {
        dng: Some("in.dng".to_string()),
        preview: Some("edit.jpg".to_string()),
        output: Some("out.dng".to_string()),
        dng_exists: true,
        preview_exists: true,
        embedded: false,
        compress: false,
        compression: Some(DngCompression::Uncompressed),
        crop: Some(CropMode::ActiveArea),
        predictor: Some(7),
        preview_enabled: true,
        thumbnail_enabled: false,
        artist: Some("A. Photographer".to_string()),
        seed: Some("s".to_string()),
    }
}

fn refused(options: ReembedOptions<String>) -> ReembedError<String> {
    plan_reembed(options, "1.0").unwrap_err()
}

fn switch_text(error: ReembedError<String>) -> String {
    match error {
        ReembedError::InvalidCmdSwitch(text) => text,
        ReembedError::NotFound(path) => panic!("not found: {}", path),
    }
}

#[test]
fn complete_options_give_a_plan() {
    let plan: ReembedPlan<String> = plan_reembed(options(), "0.7.2").unwrap();
    assert_eq!(plan.dng, "in.dng");
    assert_eq!(plan.preview, "edit.jpg");
    assert_eq!(plan.output, "out.dng");
    let params = plan.params;
    assert!(!params.embedded);
    assert_eq!(params.compression, DngCompression::Uncompressed);
    assert_eq!(params.photometric_conversion, DngPhotometricConversion::Original);
    assert!(!params.apply_scaling);
    assert_eq!(params.crop, CropMode::ActiveArea);
    assert_eq!(params.predictor, 7);
    assert!(params.preview);
    assert!(!params.thumbnail);
    assert_eq!(params.artist.as_deref(), Some("A. Photographer"));
    assert_eq!(params.software, "DNGLab 0.7.2");
    assert_eq!(params.index, 0);
    assert!(!params.keep_mtime);
    assert_eq!(params.dng_version, [1, 4, 0, 0]);
    assert_eq!(params.preview_medium, Dim2::new(1024, 1024));
    assert_eq!(params.preview_full, Dim2::new(4000, 3000));
    assert_eq!(params.jpeg_quality, 92);
    assert_eq!(params.seed, "s");
    assert!(!params.linear);
}

#[test]
fn output_defaults_to_the_input() {
    let plan = plan_reembed(ReembedOptions { output: None, ..options() }, "1.0").unwrap();
    assert_eq!(plan.output, "in.dng");
}

#[test]
fn seed_defaults_to_empty() {
    let plan = plan_reembed(ReembedOptions { seed: None, ..options() }, "1.0").unwrap();
    assert_eq!(plan.params.seed, "");
}

#[test]
fn compress_switch_decides() {
    let plan = plan_reembed(ReembedOptions { compress: true, ..options() }, "1.0").unwrap();
    assert_eq!(plan.params.compression, DngCompression::Lossless);
    let plan = plan_reembed(
        ReembedOptions { compress: true, compression: None, ..options() },
        "1.0",
    )
    .unwrap();
    assert_eq!(plan.params.compression, DngCompression::Lossless);
}

#[test]
fn missing_switches_are_named() {
    assert_eq!(
        switch_text(refused(ReembedOptions { dng: None, ..options() })),
        "No DNG file given (use --dng)"
    );
    assert_eq!(
        switch_text(refused(ReembedOptions { preview: None, ..options() })),
        "No preview JPEG given (use --preview)"
    );
    assert_eq!(
        switch_text(refused(ReembedOptions { compression: None, ..options() })),
        "compression has no default"
    );
    assert_eq!(
        switch_text(refused(ReembedOptions { crop: None, ..options() })),
        "crop has no default"
    );
    assert_eq!(
        switch_text(refused(ReembedOptions { predictor: None, ..options() })),
        "predictor has no default"
    );
}

#[test]
fn missing_files_are_named() {
    let error = refused(ReembedOptions { dng_exists: false, ..options() });
    assert!(matches!(error, ReembedError::NotFound(path) if path == "in.dng"));
    let error = refused(ReembedOptions { preview_exists: false, ..options() });
    assert!(matches!(error, ReembedError::NotFound(path) if path == "edit.jpg"));
}

#[test]
fn first_ground_is_reported() {
    let error = refused(ReembedOptions {
        dng_exists: false,
        preview_exists: false,
        crop: None,
        ..options()
    });
    assert!(matches!(error, ReembedError::NotFound(path) if path == "in.dng"));
    let error = refused(ReembedOptions { preview: None, dng_exists: false, ..options() });
    assert_eq!(switch_text(error), "No preview JPEG given (use --preview)");
}

#[test]
fn output_is_replaced_after_the_flush() {
    let mut step = ReplaceStep::CreateTemp;
    let mut steps = vec![];
    while step != ReplaceStep::Finished {
        steps.push(step);
        step = after_step::<()>(step, Ok(())).unwrap();
    }
    assert_eq!(
        steps,
        vec![ReplaceStep::CreateTemp, ReplaceStep::Embed, ReplaceStep::Flush, ReplaceStep::Rename]
    );
    assert_eq!(temp_extension(), "dng.tmp");
}

#[test]
fn failed_step_ends_the_replacement() {
    assert_eq!(after_step(ReplaceStep::Embed, Err("disk full")), Err("disk full"));
}
