use dng_convert::modify_date::{fnv1a_update, modify_date, ModifyDate, FNV_OFFSET_BASIS};

#[test]
fn fnv1a_known_values() {
    assert_eq!(fnv1a_update(FNV_OFFSET_BASIS, b""), 0xcbf29ce484222325);
    assert_eq!(fnv1a_update(FNV_OFFSET_BASIS, b"a"), 0xaf63dc4c8601ec8c);
    assert_eq!(fnv1a_update(FNV_OFFSET_BASIS, b"foobar"), 0x85944171f73967e8);
}

#[test]
fn fnv1a_in_parts_is_fnv1a_of_the_whole() {
    let first = fnv1a_update(FNV_OFFSET_BASIS, b"foo");
    assert_eq!(fnv1a_update(first, b"bar"), fnv1a_update(FNV_OFFSET_BASIS, b"foobar"));
}

#[test]
fn date_fields_of_a_hash() {
    let date = ModifyDate::from_hash(0xa5198218f512bb2e);
    assert_eq!(
        date,
        ModifyDate { year: 2024, month: 12, day: 11, hour: 13, minute: 44, second: 50 }
    );
}

#[test]
fn date_bounds() {
    let lowest = ModifyDate::from_hash(0);
    assert_eq!(
        lowest,
        ModifyDate { year: 2000, month: 1, day: 1, hour: 0, minute: 0, second: 0 }
    );
    assert_eq!(ModifyDate::from_hash(37).year, 2037);
    assert_eq!(ModifyDate::from_hash(38).year, 2000);
}

#[test]
fn date_text_is_padded() {
    let date = ModifyDate { year: 2003, month: 4, day: 5, hour: 6, minute: 7, second: 8 };
    assert_eq!(date.to_text(), "2003:04:05 06:07:08");
}

#[test]
fn date_without_seed() {
    assert_eq!(modify_date("", "DSC_0001.NRW"), "2024:12:11 13:44:50");
    assert_eq!(modify_date("", ""), "2025:08:15 04:04:16");
}

#[test]
fn date_with_seed() {
    assert_eq!(modify_date("seed", "DSC_0001.NRW"), "2023:12:15 19:00:49");
}

#[test]
fn date_depends_on_the_concatenation_only() {
    assert_eq!(modify_date("seedDSC_", "0001.NRW"), modify_date("seed", "DSC_0001.NRW"));
}

#[test]
fn date_of_another_name() {
    assert_eq!(modify_date("", "DSC_0001.dng"), "2022:04:15 17:49:24");
}

#[test]
fn date_hashes_utf8_bytes() {
    assert_eq!(modify_date("", "gr\u{f6}\u{df}e.raw"), "2008:09:07 05:33:24");
}
