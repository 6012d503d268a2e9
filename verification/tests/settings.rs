use dng_convert::image::{
    photometric_conversion, ImageFacts, RawPhotometricInterpretation, Rect, RotatedLayout,
};
use dng_convert::params::{
    ConvertInfo, ConvertParams, CropMode, Dim2, DngCompression, DngPhotometricConversion,
    DNG_VERSION_V1_4,
};
use dng_convert::tags::{
    holds_tag, maker_notes_unsafe, select_carried_tags, select_credit_tags, TagValue, ARTIST,
    FRAME_RATE, MODIFY_DATE, ORIENTATION, SOFTWARE, TIME_CODES, T_STOP,
};
use dng_convert::text::{
    completions_failure, compression_join_failure, input_name, page_file_name,
    preview_open_failure, subcommand_page_name, worker_spawn_failure,
};

#[test]
fn default_parameters() {
    let params = ConvertParams::default();
    assert!(params.embedded);
    assert_eq!(params.compression, DngCompression::Lossless);
    assert_eq!(params.photometric_conversion, DngPhotometricConversion::Original);
    assert!(!params.apply_scaling);
    assert_eq!(params.crop, CropMode::Best);
    assert_eq!(params.predictor, 1);
    assert!(params.preview);
    assert!(params.thumbnail);
    assert_eq!(params.artist, None);
    assert_eq!(params.software, "DNGLab");
    assert_eq!(params.index, 0);
    assert!(!params.keep_mtime);
    assert_eq!(params.dng_version, DNG_VERSION_V1_4);
    assert_eq!(params.dng_version, [1, 4, 0, 0]);
    assert_eq!(params.preview_medium, Dim2::new(1024, 1024));
    assert_eq!(params.preview_full, Dim2::new(4000, 3000));
    assert_eq!(params.jpeg_quality, 92);
    assert_eq!(params.seed, "");
    assert!(!params.linear);
}

#[test]
fn default_info_has_no_timestamp() {
    assert_eq!(ConvertInfo::default().last_modified, None);
}

fn image(hints: &[&str], active_area: Option<Rect>) -> ImageFacts {
    ImageFacts {
        size: Dim2::new(60, 40),
        active_area,
        fuji_rotation_width: None,
        photometric: RawPhotometricInterpretation::Cfa,
        orientation: 1,
        hints: hints.iter().map(|hint| hint.to_string()).collect(),
    }
}

#[test]
fn rotation_follows_the_hints() {
    assert!(!image(&[], None).requires_rotation());
    assert!(!image(&["fuji_rotate_90cw"], None).requires_rotation());
    assert!(image(&["x", "fuji_rotation"], None).requires_rotation());
    assert!(image(&["fuji_rotation_alt"], None).requires_rotation());
    assert!(image(&["fuji_rotate_90cw"], None).requires_quarter_turn());
    assert!(!image(&["fuji_rotation"], None).requires_quarter_turn());
}

#[test]
fn hints_match_as_a_whole() {
    assert!(!image(&["fuji_rotation_other"], None).requires_rotation());
    assert!(!image(&["fuji"], None).find_hint("fuji_rotation"));
}

#[test]
fn demosaic_area_is_the_active_area_or_all() {
    let area = Rect { x: 2, y: 3, size: Dim2::new(10, 20) };
    assert_eq!(image(&[], Some(area)).region_of_interest(), area);
    assert_eq!(
        image(&[], None).region_of_interest(),
        Rect { x: 0, y: 0, size: Dim2::new(60, 40) }
    );
}

#[test]
fn rotated_layout() {
    let layout = RotatedLayout::of_size(Dim2::new(7, 9));
    assert_eq!(layout.size, Dim2::new(7, 9));
    assert_eq!(layout.active_area, None);
    assert_eq!(layout.cpp, 3);
    assert_eq!(layout.whitelevel, [1, 1, 1]);
    assert_eq!(layout.photometric, RawPhotometricInterpretation::LinearRaw);
}

#[test]
fn linear_only_from_linear_data() {
    let mut params = ConvertParams::default();
    let linear = RawPhotometricInterpretation::LinearRaw;
    let cfa = RawPhotometricInterpretation::Cfa;
    let gray = RawPhotometricInterpretation::BlackIsZero;
    assert_eq!(photometric_conversion(&params, linear), DngPhotometricConversion::Original);
    params.photometric_conversion = DngPhotometricConversion::Linear;
    assert_eq!(photometric_conversion(&params, linear), DngPhotometricConversion::Linear);
    assert_eq!(photometric_conversion(&params, cfa), DngPhotometricConversion::Original);
    assert_eq!(photometric_conversion(&params, gray), DngPhotometricConversion::Original);
}

#[test]
fn linear_flag_asks_for_linear() {
    let params = ConvertParams { linear: true, ..ConvertParams::default() };
    assert_eq!(
        photometric_conversion(&params, RawPhotometricInterpretation::LinearRaw),
        DngPhotometricConversion::Linear
    );
    assert_eq!(
        photometric_conversion(&params, RawPhotometricInterpretation::Cfa),
        DngPhotometricConversion::Original
    );
}

#[test]
fn cinema_tags_are_carried() {
    let tags = vec![ORIENTATION, TIME_CODES, 0x9000, FRAME_RATE, T_STOP, 0xffff];
    assert_eq!(select_carried_tags(&tags), vec![51043, 51044, 51058]);
    assert_eq!(select_carried_tags(&vec![]), Vec::<u16>::new());
}

#[test]
fn credits_are_artist_software_and_date() {
    let tags = vec![ORIENTATION, SOFTWARE, TIME_CODES, ARTIST, MODIFY_DATE];
    assert_eq!(select_credit_tags(&tags), vec![0x0131, 0x013b, 0x0132]);
    assert_eq!(select_credit_tags(&vec![ORIENTATION]), Vec::<u16>::new());
}

#[test]
fn tags_are_found_anywhere() {
    assert!(holds_tag(&vec![ORIENTATION, MODIFY_DATE], MODIFY_DATE));
    assert!(holds_tag(&vec![MODIFY_DATE, ORIENTATION], MODIFY_DATE));
    assert!(!holds_tag(&vec![ORIENTATION], MODIFY_DATE));
    assert!(!holds_tag(&vec![], MODIFY_DATE));
}

#[test]
fn maker_notes_go_only_when_declared_unsafe() {
    assert!(maker_notes_unsafe(&Some(TagValue::Short(vec![0]))));
    assert!(maker_notes_unsafe(&Some(TagValue::Short(vec![]))));
    assert!(maker_notes_unsafe(&Some(TagValue::Short(vec![0, 1]))));
    assert!(maker_notes_unsafe(&Some(TagValue::Short(vec![2]))));
    assert!(maker_notes_unsafe(&Some(TagValue::Short(vec![2, 1]))));
    assert!(!maker_notes_unsafe(&Some(TagValue::Short(vec![1]))));
    assert!(!maker_notes_unsafe(&Some(TagValue::Short(vec![1, 0]))));
    assert!(!maker_notes_unsafe(&Some(TagValue::Other)));
    assert!(!maker_notes_unsafe(&Some(TagValue::Ascii("0".to_string()))));
    assert!(!maker_notes_unsafe(&None));
}

#[test]
fn names_and_messages() {
    assert_eq!(input_name(Some("a.nef")), "a.nef");
    assert_eq!(input_name(None), "");
    assert_eq!(preview_open_failure("gone"), "Failed to open preview JPEG: gone");
    assert_eq!(compression_join_failure("Any"), "Failed to join compression thread: Any");
    assert_eq!(worker_spawn_failure("limit"), "Failed to spawn reembed thread: limit");
    assert_eq!(completions_failure("disk"), "completions build failed: disk");
    assert_eq!(subcommand_page_name("dnglab", "convert"), "dnglab-convert");
    assert_eq!(page_file_name("dnglab"), "dnglab.1");
}
