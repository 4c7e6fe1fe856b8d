use threads_bot::http::HttpOutcome;
use threads_bot::store::{
    decode, month_length, plan_decoded, plan_store, prepare_store, public_url, stored_filename, stored_url,
    Timestamp,
};

fn png_bytes() -> Vec<u8> {
    let picture = image::DynamicImage::new_rgb8(3, 2);
    let mut bytes = Vec::new();
    picture
        .write_to(&mut std::io::Cursor::new(&mut bytes), image::ImageFormat::Png)
        .unwrap();
    bytes
}

fn moment(year: i32, month: u32, day: u32, hour: u32, minute: u32, second: u32) -> Timestamp {
    Timestamp::new(year, month, day, hour, minute, second).unwrap()
}

fn has_stored_name_shape(name: &str) -> bool {
    let bytes = name.as_bytes();
    bytes.len() == 25
        && &bytes[0..6] == b"image_"
        && bytes[6..14].iter().all(|b| b.is_ascii_digit())
        && bytes[14] == b'_'
        && bytes[15..21].iter().all(|b| b.is_ascii_digit())
        && &bytes[21..25] == b".png"
}

#[test]
fn timestamp_new_keeps_the_fields() {
    let ts = moment(2024, 5, 6, 7, 8, 9);
    assert_eq!(
        ts,
        Timestamp { year: 2024, month: 5, day: 6, hour: 7, minute: 8, second: 9 }
    );
}

#[test]
fn timestamp_new_refuses_what_the_calendar_lacks() {
    assert!(Timestamp::new(2023, 2, 29, 0, 0, 0).is_none());
    assert!(Timestamp::new(2024, 2, 29, 0, 0, 0).is_some());
    assert!(Timestamp::new(1900, 2, 29, 0, 0, 0).is_none());
    assert!(Timestamp::new(2000, 2, 29, 0, 0, 0).is_some());
    assert!(Timestamp::new(-4, 2, 29, 0, 0, 0).is_some());
    assert!(Timestamp::new(-100, 2, 29, 0, 0, 0).is_none());
    assert!(Timestamp::new(2023, 4, 31, 0, 0, 0).is_none());
    assert!(Timestamp::new(2023, 4, 30, 0, 0, 0).is_some());
    assert!(Timestamp::new(2023, 0, 1, 0, 0, 0).is_none());
    assert!(Timestamp::new(2023, 13, 1, 0, 0, 0).is_none());
    assert!(Timestamp::new(2023, 1, 0, 0, 0, 0).is_none());
    assert!(Timestamp::new(2023, 1, 32, 0, 0, 0).is_none());
    assert!(Timestamp::new(2023, 1, 31, 24, 0, 0).is_none());
    assert!(Timestamp::new(2023, 1, 31, 23, 60, 0).is_none());
    assert!(Timestamp::new(2023, 1, 31, 23, 59, 60).is_none());
    assert!(Timestamp::new(2023, 1, 31, 23, 59, 59).is_some());
    assert!(Timestamp::new(262142, 12, 31, 23, 59, 59).is_some());
    assert!(Timestamp::new(262143, 1, 1, 0, 0, 0).is_none());
    assert!(Timestamp::new(-262143, 1, 1, 0, 0, 0).is_some());
    assert!(Timestamp::new(-262144, 12, 31, 0, 0, 0).is_none());
}

#[test]
fn timestamp_new_agrees_with_the_calendar_of_chrono() {
    for year in [-262144, -262143, -401, -400, -100, -4, -1, 0, 1, 4, 100, 1900, 2000, 2023, 2024, 262142, 262143] {
        for month in 0..14u32 {
            for day in [0u32, 1, 28, 29, 30, 31, 32] {
                let ours = Timestamp::new(year, month, day, 12, 0, 0).is_some();
                let theirs = chrono::NaiveDate::from_ymd_opt(year, month, day).is_some();
                assert_eq!(ours, theirs, "{}-{}-{}", year, month, day);
            }
        }
    }
}

#[test]
fn month_length_knows_leap_years() {
    assert_eq!(month_length(2024, 2), 29);
    assert_eq!(month_length(2023, 2), 28);
    assert_eq!(month_length(2100, 2), 28);
    assert_eq!(month_length(2400, 2), 29);
    assert_eq!(month_length(-400, 2), 29);
    assert_eq!(month_length(-1, 2), 28);
    assert_eq!(month_length(2023, 1), 31);
    assert_eq!(month_length(2023, 4), 30);
    assert_eq!(month_length(2023, 6), 30);
    assert_eq!(month_length(2023, 9), 30);
    assert_eq!(month_length(2023, 11), 30);
    assert_eq!(month_length(2023, 12), 31);
    assert_eq!(month_length(i32::MAX, 2), 28);
    assert_eq!(month_length(i32::MIN, 2), 29);
    assert_eq!(month_length(2023, 0), 31);
}

#[test]
fn now_is_a_second_of_the_calendar() {
    let now = Timestamp::now();
    assert_eq!(
        Timestamp::new(now.year, now.month, now.day, now.hour, now.minute, now.second),
        Some(now)
    );
    assert!(now.year >= 2024);
}

#[test]
fn stored_filename_writes_the_second() {
    assert_eq!(stored_filename(&moment(2024, 5, 6, 7, 8, 9)), "image_20240506_070809.png");
    assert_eq!(stored_filename(&moment(1999, 12, 31, 23, 59, 59)), "image_19991231_235959.png");
    assert_eq!(stored_filename(&moment(2030, 10, 10, 0, 0, 0)), "image_20301010_000000.png");
}

#[test]
fn stored_filename_pads_early_years() {
    assert_eq!(stored_filename(&moment(0, 1, 1, 0, 0, 0)), "image_00000101_000000.png");
    assert_eq!(stored_filename(&moment(7, 1, 1, 0, 0, 0)), "image_00070101_000000.png");
    assert_eq!(stored_filename(&moment(987, 1, 1, 0, 0, 0)), "image_09870101_000000.png");
    assert_eq!(stored_filename(&moment(9999, 1, 1, 0, 0, 0)), "image_99990101_000000.png");
}

#[test]
fn stored_filename_signs_years_outside_four_digits() {
    assert_eq!(stored_filename(&moment(10000, 1, 1, 0, 0, 0)), "image_+100000101_000000.png");
    assert_eq!(stored_filename(&moment(262142, 1, 1, 0, 0, 0)), "image_+2621420101_000000.png");
    assert_eq!(stored_filename(&moment(-1, 1, 1, 0, 0, 0)), "image_-00010101_000000.png");
    assert_eq!(stored_filename(&moment(-45, 3, 15, 12, 0, 0)), "image_-00450315_120000.png");
    assert_eq!(stored_filename(&moment(-9999, 1, 1, 0, 0, 0)), "image_-99990101_000000.png");
    assert_eq!(stored_filename(&moment(-10000, 1, 1, 0, 0, 0)), "image_-100000101_000000.png");
}

#[test]
fn stored_filename_has_the_shape_in_four_digit_years() {
    for ts in [
        moment(0, 1, 1, 0, 0, 0),
        moment(2024, 2, 29, 13, 7, 0),
        moment(9999, 12, 31, 23, 59, 59),
    ] {
        assert!(has_stored_name_shape(&stored_filename(&ts)));
    }
    assert!(!has_stored_name_shape(&stored_filename(&moment(10000, 1, 1, 0, 0, 0))));
}

#[test]
fn public_url_joins_base_and_filename() {
    assert_eq!(
        public_url("image_20240506_070809.png"),
        "https://threads.dasm.asia/images/image_20240506_070809.png"
    );
    assert_eq!(public_url(""), "https://threads.dasm.asia/images/");
}

#[test]
fn same_second_gives_the_same_file() {
    let first = moment(2024, 5, 6, 7, 8, 9);
    let second = moment(2024, 5, 6, 7, 8, 9);
    assert_eq!(stored_filename(&first), stored_filename(&second));
    assert_eq!(
        public_url(&stored_filename(&first)),
        public_url(&stored_filename(&second))
    );
}

#[test]
fn another_second_gives_another_file() {
    let base = moment(2024, 5, 6, 7, 8, 9);
    for other in [
        moment(2024, 5, 6, 7, 8, 10),
        moment(2024, 5, 6, 7, 9, 9),
        moment(2024, 5, 6, 8, 8, 9),
        moment(2024, 5, 7, 7, 8, 9),
        moment(2024, 6, 6, 7, 8, 9),
        moment(2025, 5, 6, 7, 8, 9),
        moment(-2024, 5, 6, 7, 8, 9),
    ] {
        assert_ne!(stored_filename(&base), stored_filename(&other));
    }
}

#[test]
fn plan_store_names_file_and_address() {
    let picture = image::DynamicImage::new_rgb8(3, 2);
    let plan = plan_store(picture.clone(), &moment(2024, 5, 6, 7, 8, 9));
    assert_eq!(plan.image, picture);
    assert_eq!(plan.filename, "image_20240506_070809.png");
    assert_eq!(plan.public_url, "https://threads.dasm.asia/images/image_20240506_070809.png");
}

#[test]
fn prepare_store_plans_a_valid_picture() {
    let before = Timestamp::now();
    let outcome = HttpOutcome::Replied { status: 200, body: png_bytes() };
    let plan = prepare_store(&outcome).unwrap();
    let after = Timestamp::now();
    assert_eq!(plan.image.width(), 3);
    assert_eq!(plan.image.height(), 2);
    assert!(has_stored_name_shape(&plan.filename), "{}", plan.filename);
    assert!(plan.public_url.contains(&plan.filename));
    assert_eq!(plan.public_url, format!("https://threads.dasm.asia/images/{}", plan.filename));
    assert!(stored_filename(&before) <= plan.filename);
    assert!(plan.filename <= stored_filename(&after));
}

#[test]
fn prepare_store_refuses_what_is_no_picture() {
    let garbage = HttpOutcome::Replied { status: 200, body: b"not a picture".to_vec() };
    assert!(prepare_store(&garbage).is_none());
    let empty = HttpOutcome::Replied { status: 200, body: Vec::new() };
    assert!(prepare_store(&empty).is_none());
    let mut cut = png_bytes();
    cut.truncate(20);
    assert!(prepare_store(&HttpOutcome::Replied { status: 200, body: cut }).is_none());
}

#[test]
fn prepare_store_refuses_a_failed_download() {
    assert!(prepare_store(&HttpOutcome::Failed).is_none());
    assert!(prepare_store(&HttpOutcome::Replied { status: 404, body: png_bytes() }).is_none());
    assert!(prepare_store(&HttpOutcome::Replied { status: 500, body: png_bytes() }).is_none());
    assert!(prepare_store(&HttpOutcome::Replied { status: 302, body: png_bytes() }).is_none());
}

#[test]
fn stored_url_is_handed_out_once_written() {
    let picture = image::DynamicImage::new_rgb8(1, 1);
    let plan = plan_store(picture.clone(), &moment(2024, 5, 6, 7, 8, 9));
    assert_eq!(
        stored_url(plan, true),
        Some("https://threads.dasm.asia/images/image_20240506_070809.png".to_string())
    );
    let plan = plan_store(picture, &moment(2024, 5, 6, 7, 8, 9));
    assert_eq!(stored_url(plan, false), None);
}

#[test]
fn plan_decoded_follows_the_decoder() {
    let at = moment(2024, 5, 6, 7, 8, 9);
    let picture = image::load_from_memory(&png_bytes());
    assert!(picture.is_ok());
    let plan = plan_decoded(picture, &at).unwrap();
    assert_eq!(plan.image.width(), 3);
    assert_eq!(plan.image.height(), 2);
    assert_eq!(plan.filename, "image_20240506_070809.png");
    assert_eq!(plan.public_url, "https://threads.dasm.asia/images/image_20240506_070809.png");

    let nothing = image::load_from_memory(b"not a picture");
    assert!(nothing.is_err());
    assert!(plan_decoded(nothing, &at).is_none());
}

fn encoded(format: image::ImageFormat) -> Vec<u8> {
    // An icon holds its picture with an alpha channel.
    let picture = if format == image::ImageFormat::Ico {
        image::DynamicImage::new_rgba8(4, 3)
    } else {
        image::DynamicImage::new_rgb8(4, 3)
    };
    let mut bytes = Vec::new();
    picture.write_to(&mut std::io::Cursor::new(&mut bytes), format).unwrap();
    bytes
}

#[test]
fn decode_reads_the_format_off_the_bytes() {
    for format in [
        image::ImageFormat::Png,
        image::ImageFormat::Jpeg,
        image::ImageFormat::Gif,
        image::ImageFormat::Bmp,
        image::ImageFormat::Ico,
        image::ImageFormat::Tiff,
        image::ImageFormat::Pnm,
        image::ImageFormat::Qoi,
        image::ImageFormat::WebP,
    ] {
        let picture = decode(&encoded(format)).unwrap();
        assert_eq!((picture.width(), picture.height()), (4, 3), "{:?}", format);
    }
}

#[test]
fn decode_returns_what_the_decoder_of_the_crate_returns() {
    let mut cut = png_bytes();
    cut.truncate(30);
    for bytes in [png_bytes(), encoded(image::ImageFormat::Bmp), cut, b"GIF89a".to_vec(), Vec::new()]
    {
        match (decode(&bytes), image::load_from_memory(&bytes)) {
            (Ok(ours), Ok(theirs)) => assert_eq!(ours, theirs),
            (Err(ours), Err(theirs)) => assert_eq!(ours.to_string(), theirs.to_string()),
            (ours, theirs) => panic!("{:?} against {:?}", ours.is_ok(), theirs.is_ok()),
        }
    }
}
