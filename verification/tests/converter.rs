use batchconv::convert::{convert_image, event_for, finish_conversion, Conversion};
use batchconv::mode::{parse_args, resolve_mode, Mode, TargetFormat};
use batchconv::paths::{extension_of, plan_entry, with_extension, Plan};
use batchconv::summary::{replay, Event, Summary};

fn png_bytes() -> Vec<u8> {
    let img = image::DynamicImage::new_rgb8(4, 3);
    let mut cursor = std::io::Cursor::new(Vec::new());
    img.write_to(&mut cursor, image::ImageFormat::Png).unwrap();
    cursor.into_inner()
}

fn jpeg_bytes() -> Vec<u8> {
    let img = image::DynamicImage::new_rgb8(4, 3);
    let mut cursor = std::io::Cursor::new(Vec::new());
    img.write_to(&mut cursor, image::ImageFormat::Jpeg).unwrap();
    cursor.into_inner()
}

#[test]
fn mode_gif_hint() {
    let m = resolve_mode(&Some("to_GIF".to_string()));
    match m {
        Mode::Convert { format, ext } => {
            assert_eq!(format, TargetFormat::Gif);
            assert_eq!(ext, "gif");
        }
        Mode::Help => panic!("expected a gif conversion mode"),
    }
}

#[test]
fn mode_jpeg_spelling_mirrors_name() {
    match resolve_mode(&Some("ToJPEG".to_string())) {
        Mode::Convert { format, ext } => {
            assert_eq!(format, TargetFormat::Jpeg);
            assert_eq!(ext, "jpeg");
        }
        Mode::Help => panic!("expected a jpeg conversion mode"),
    }
    match resolve_mode(&Some("2jpg".to_string())) {
        Mode::Convert { format, ext } => {
            assert_eq!(format, TargetFormat::Jpeg);
            assert_eq!(ext, "jpg");
        }
        Mode::Help => panic!("expected a jpg conversion mode"),
    }
}

#[test]
fn mode_png_hint() {
    match resolve_mode(&Some("png_convert".to_string())) {
        Mode::Convert { format, ext } => {
            assert_eq!(format, TargetFormat::Png);
            assert_eq!(ext, "png");
        }
        Mode::Help => panic!("expected a png conversion mode"),
    }
}

#[test]
fn mode_without_hint_is_help() {
    assert!(matches!(resolve_mode(&Some("convert".to_string())), Mode::Help));
}

#[test]
fn mode_without_name_defaults_to_png() {
    match resolve_mode(&None) {
        Mode::Convert { format, ext } => {
            assert_eq!(format, TargetFormat::Png);
            assert_eq!(ext, "png");
        }
        Mode::Help => panic!("expected the png default"),
    }
}

#[test]
fn flags_are_exact_matches() {
    let args = vec!["prog".to_string(), "--dry-run".to_string()];
    let o = parse_args(&args);
    assert!(o.dry_run);
    assert!(!o.help);

    let args = vec!["prog".to_string(), "-h".to_string()];
    let o = parse_args(&args);
    assert!(o.help);
    assert!(!o.dry_run);

    let args = vec!["prog".to_string(), "--dry".to_string(), "-H".to_string()];
    let o = parse_args(&args);
    assert!(!o.dry_run);
    assert!(!o.help);
}

#[test]
fn extension_follows_last_dot() {
    assert_eq!(extension_of("a.jpg"), Some("jpg".to_string()));
    assert_eq!(extension_of("archive.tar.gz"), Some("gz".to_string()));
    assert_eq!(extension_of("trailing."), Some("".to_string()));
    assert_eq!(extension_of(".gitignore"), None);
    assert_eq!(extension_of("noext"), None);
}

#[test]
fn with_extension_replaces_only_the_extension() {
    assert_eq!(with_extension("a.jpg", "png"), "a.png");
    assert_eq!(with_extension("archive.tar.gz", "png"), "archive.tar.png");
    assert_eq!(with_extension("noext", "png"), "noext.png");
    assert_eq!(with_extension(".gitignore", "png"), ".gitignore.png");
}

#[test]
fn plan_ignores_non_files() {
    assert!(matches!(plan_entry(false, "subdir", "png"), Plan::NotFile));
    assert!(matches!(plan_entry(false, "sub.png", "png"), Plan::NotFile));
}

#[test]
fn plan_skips_matching_extension_case_insensitively() {
    assert!(matches!(plan_entry(true, "b.PNG", "png"), Plan::SkipExisting));
    assert!(matches!(plan_entry(true, "b.png", "png"), Plan::SkipExisting));
}

#[test]
fn plan_candidates_get_the_target_extension() {
    match plan_entry(true, "a.jpg", "png") {
        Plan::Candidate { out_name } => assert_eq!(out_name, "a.png"),
        _ => panic!("expected a conversion candidate"),
    }
    match plan_entry(true, "c.txt", "png") {
        Plan::Candidate { out_name } => assert_eq!(out_name, "c.png"),
        _ => panic!("expected a conversion candidate"),
    }
}

#[test]
fn converts_jpeg_bytes_to_png() {
    let out = match convert_image(&jpeg_bytes(), TargetFormat::Png, false) {
        Conversion::Done(bytes) => bytes,
        _ => panic!("expected a completed conversion"),
    };
    assert_eq!(image::guess_format(&out).unwrap(), image::ImageFormat::Png);
    assert!(image::load_from_memory(&out).is_ok());
}

#[test]
fn converts_png_bytes_to_gif_and_jpeg() {
    let out = match convert_image(&png_bytes(), TargetFormat::Gif, false) {
        Conversion::Done(bytes) => bytes,
        _ => panic!("expected a completed conversion"),
    };
    assert_eq!(image::guess_format(&out).unwrap(), image::ImageFormat::Gif);

    let out = match convert_image(&png_bytes(), TargetFormat::Jpeg, false) {
        Conversion::Done(bytes) => bytes,
        _ => panic!("expected a completed conversion"),
    };
    assert_eq!(image::guess_format(&out).unwrap(), image::ImageFormat::Jpeg);
}

#[test]
fn finishing_a_decoded_image_encodes_it() {
    let img = image::DynamicImage::new_rgb8(4, 3);
    let out = match finish_conversion(Some(img.clone()), TargetFormat::Png, false) {
        Conversion::Done(bytes) => bytes,
        _ => panic!("expected a completed conversion"),
    };
    assert_eq!(image::guess_format(&out).unwrap(), image::ImageFormat::Png);
    assert!(image::load_from_memory(&out).is_ok());
    assert!(matches!(
        finish_conversion(Some(img), TargetFormat::Png, true),
        Conversion::DryRun
    ));
    assert!(matches!(
        finish_conversion(None, TargetFormat::Png, false),
        Conversion::NotAnImage
    ));
    assert!(matches!(
        finish_conversion(None, TargetFormat::Png, true),
        Conversion::NotAnImage
    ));
}

#[test]
fn text_bytes_are_not_an_image() {
    let data = b"just some text, no image here".to_vec();
    assert!(matches!(
        convert_image(&data, TargetFormat::Png, false),
        Conversion::NotAnImage
    ));
    assert!(matches!(
        convert_image(&data, TargetFormat::Png, true),
        Conversion::NotAnImage
    ));
}

#[test]
fn dry_run_decodes_but_produces_no_bytes() {
    match convert_image(&jpeg_bytes(), TargetFormat::Png, true) {
        Conversion::DryRun => {}
        _ => panic!("a dry run on an image must end as DryRun"),
    }
}

#[test]
fn dry_run_counts_like_a_real_run() {
    let data = jpeg_bytes();
    let dry = convert_image(&data, TargetFormat::Png, true);
    let wet = convert_image(&data, TargetFormat::Png, false);
    let wrote = matches!(wet, Conversion::Done(_));
    assert_eq!(event_for(&dry, true), event_for(&wet, wrote));
    assert_eq!(event_for(&dry, true), Event::Converted);
}

#[test]
fn events_map_to_counters() {
    assert_eq!(event_for(&Conversion::NotAnImage, false), Event::NotAnImage);
    assert_eq!(event_for(&Conversion::DryRun, false), Event::Converted);
    assert_eq!(event_for(&Conversion::Done(Vec::new()), true), Event::Converted);
    assert_eq!(event_for(&Conversion::Done(Vec::new()), false), Event::SaveFailed);
    assert_eq!(
        event_for(&Conversion::Failed("no encoder".to_string()), false),
        Event::SaveFailed
    );
}

#[test]
fn summary_counts_only_skips_and_conversions() {
    let mut s = Summary::new();
    s.record(Event::NotRegular);
    s.record(Event::SkippedExisting);
    s.record(Event::OpenFailed);
    s.record(Event::NotAnImage);
    s.record(Event::Converted);
    s.record(Event::SaveFailed);
    assert_eq!(s.converted, 1);
    assert_eq!(s.skipped, 1);

    let evs = vec![
        Event::NotRegular,
        Event::SkippedExisting,
        Event::OpenFailed,
        Event::NotAnImage,
        Event::Converted,
        Event::SaveFailed,
    ];
    let s = replay(&evs);
    assert_eq!(s.converted, 1);
    assert_eq!(s.skipped, 1);
    let regular = evs.iter().filter(|e| !matches!(e, Event::NotRegular)).count();
    assert!(s.converted + s.skipped <= regular);
}

#[test]
fn mixed_directory_scenario() {
    // a.jpg is a valid JPEG, b.png a valid PNG, c.txt plain text; the
    // target format is PNG.
    let entries: Vec<(&str, bool, Vec<u8>)> = vec![
        ("a.jpg", true, jpeg_bytes()),
        ("b.png", true, png_bytes()),
        ("c.txt", true, b"plain text".to_vec()),
    ];
    let mut summary = Summary::new();
    let mut written: Vec<(String, Vec<u8>)> = Vec::new();
    for (name, is_file, data) in &entries {
        match plan_entry(*is_file, name, "png") {
            Plan::NotFile => summary.record(Event::NotRegular),
            Plan::SkipExisting => summary.record(Event::SkippedExisting),
            Plan::Candidate { out_name } => {
                let outcome = convert_image(data, TargetFormat::Png, false);
                if let Conversion::Done(bytes) = &outcome {
                    written.push((out_name.clone(), bytes.clone()));
                }
                let wrote = matches!(outcome, Conversion::Done(_));
                summary.record(event_for(&outcome, wrote));
            }
        }
    }
    assert_eq!(summary.converted, 1);
    assert_eq!(summary.skipped, 1);
    assert_eq!(written.len(), 1);
    assert_eq!(written[0].0, "a.png");
    assert_eq!(
        image::guess_format(&written[0].1).unwrap(),
        image::ImageFormat::Png
    );
    assert!(image::load_from_memory(&written[0].1).is_ok());
}
