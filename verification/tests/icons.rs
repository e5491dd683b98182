use auto_project::config::{Config, IconStyle};
use auto_project::icon::{
    build_icon, cache_file, create_ico, icon_path_of, initial_letter, is_font_file, plan_icon,
    render_template, template_of, vector_stage, IconError, RgbaImage, VectorImage, ICON_DPI,
    ICON_SIZE, MAX_PIXELS,
};
use auto_project::utils::{AppState, ProjectDirs};
use std::io::Cursor;

fn icon_state() -> AppState {
    AppState {
        config: Config::with_editor(String::from("/usr/bin/code")),
        project_dirs: ProjectDirs {
            config_dir: String::from("/cfg"),
            cache_dir: String::from("/cache"),
            data_dir: String::from("/data"),
        },
    }
}

fn checkerboard(width: u32, height: u32) -> Vec<u8> {
    let mut data = Vec::new();
    for y in 0..height {
        for x in 0..width {
            let on = (x + y) % 2 == 0;
            data.push(if on { 200 } else { 10 });
            data.push((x % 256) as u8);
            data.push((y % 256) as u8);
            data.push(if on { 255 } else { 128 });
        }
    }
    data
}

#[test]
fn icon_constants() {
    assert_eq!(ICON_SIZE, 256);
    assert_eq!(ICON_DPI, 150);
    assert_eq!(MAX_PIXELS, 268_435_456);
}

#[test]
fn initial_is_the_first_letter_in_upper_case() {
    assert_eq!(initial_letter("myapp"), "M");
    assert_eq!(initial_letter("Myapp"), "M");
    assert_eq!(initial_letter("zeta"), "Z");
    assert_eq!(initial_letter("alpha"), "A");
    assert_eq!(initial_letter("9lives"), "9");
    assert_eq!(initial_letter("-dash"), "-");
}

#[test]
fn initial_of_an_empty_name_is_a_question_mark() {
    assert_eq!(initial_letter(""), "?");
}

#[test]
fn initial_outside_ascii_is_in_upper_case_too() {
    assert_eq!(initial_letter("\u{e9}lan"), "\u{c9}");
    assert_eq!(initial_letter("\u{e9}cole"), "\u{c9}");
    assert_eq!(initial_letter("\u{c9}cole"), "\u{c9}");
    assert_eq!(initial_letter("\u{3b1}lpha"), "\u{391}");
    assert_eq!(initial_letter("\u{436}"), "\u{416}");
}

#[test]
fn initial_can_be_more_than_one_character() {
    assert_eq!(initial_letter("\u{df}trasse"), "SS");
    assert_eq!(initial_letter("\u{fb01}sh"), "FI");
    assert_eq!(initial_letter("\u{149}"), "\u{2bc}N");
}

#[test]
fn initial_without_an_upper_case_form_stays() {
    assert_eq!(initial_letter("\u{1f600} fun"), "\u{1f600}");
    assert_eq!(initial_letter("{x"), "{");
    assert_eq!(initial_letter("`x"), "`");
    assert_eq!(initial_letter("\u{4e2d}"), "\u{4e2d}");
}

#[test]
fn cache_file_goes_by_initial_and_style() {
    assert_eq!(cache_file("M", IconStyle::Default), "M-Default.svg");
    assert_eq!(cache_file("SS", IconStyle::Cargo), "SS-Cargo.svg");
    assert_eq!(cache_file("\u{c9}", IconStyle::Default), "\u{c9}-Default.svg");
    assert_eq!(cache_file("", IconStyle::Default), "-Default.svg");
}

#[test]
fn plan_with_a_known_initial() {
    let plan = plan_icon(IconStyle::Cargo, "tool - Work", String::from("X"), &icon_state());
    assert_eq!(plan.letter, "X");
    assert_eq!(plan.template, "default.svg");
    assert_eq!(plan.cached_svg, "/cache/X-Cargo.svg");
    assert_eq!(plan.icon_path, "/data/tool - Work.ico");
    assert_eq!(plan.cache_dir, "/cache");
    assert_eq!(plan.data_dir, "/data");
}

#[test]
fn icon_plan_of_a_name_outside_ascii() {
    let plan = build_icon(IconStyle::Default, "\u{e9}lan", &icon_state());
    assert_eq!(plan.letter, "\u{c9}");
    assert_eq!(plan.cached_svg, "/cache/\u{c9}-Default.svg");
    assert_eq!(plan.icon_path, "/data/\u{e9}lan.ico");
    let upper = build_icon(IconStyle::Default, "\u{c9}lan", &icon_state());
    assert_eq!(upper.cached_svg, plan.cached_svg);
}

#[test]
fn every_style_has_a_template() {
    assert_eq!(template_of(IconStyle::Default), "default.svg");
    assert_eq!(template_of(IconStyle::Cargo), "default.svg");
}

#[test]
fn icon_plan_names_the_files() {
    let plan = build_icon(IconStyle::Default, "sub1 - Lib", &icon_state());
    assert_eq!(plan.cache_dir, "/cache");
    assert_eq!(plan.data_dir, "/data");
    assert_eq!(plan.template, "default.svg");
    assert_eq!(plan.letter, "S");
    assert_eq!(plan.cached_svg, "/cache/S-Default.svg");
    assert_eq!(plan.icon_path, "/data/sub1 - Lib.ico");
}

#[test]
fn icon_plan_goes_by_style() {
    let plan = build_icon(IconStyle::Cargo, "crate", &icon_state());
    assert_eq!(plan.cached_svg, "/cache/C-Cargo.svg");
    assert_eq!(plan.icon_path, "/data/crate.ico");
}

#[test]
fn same_initial_and_style_share_the_vector_image() {
    let one = build_icon(IconStyle::Default, "alpha - Work", &icon_state());
    let two = build_icon(IconStyle::Default, "Apple - Home", &icon_state());
    assert_eq!(one.cached_svg, two.cached_svg);
    assert_ne!(one.icon_path, two.icon_path);
    let other_style = build_icon(IconStyle::Cargo, "alpha - Work", &icon_state());
    assert_ne!(one.cached_svg, other_style.cached_svg);
    let other_letter = build_icon(IconStyle::Default, "beta - Work", &icon_state());
    assert_ne!(one.cached_svg, other_letter.cached_svg);
}

#[test]
fn icon_path_joins_directory_and_name() {
    assert_eq!(icon_path_of("/data", "Alpha"), "/data/Alpha.ico");
    assert_eq!(icon_path_of("/data/", "a - b"), "/data/a - b.ico");
}

#[test]
fn template_gets_the_initial_everywhere() {
    assert_eq!(render_template("<text>{{INITIAL}}</text>", "M"), "<text>M</text>");
    assert_eq!(render_template("{{INITIAL}}{{INITIAL}}", "x"), "xx");
    assert_eq!(render_template("a{{INITIAL}}b{{INITIAL}}", "Q"), "aQbQ");
}

#[test]
fn template_without_the_token_stays() {
    assert_eq!(render_template("<svg/>", "M"), "<svg/>");
    assert_eq!(render_template("", "M"), "");
    assert_eq!(render_template("{{INITIAL}", "M"), "{{INITIAL}");
    assert_eq!(render_template("{INITIAL}}", "M"), "{INITIAL}}");
}

#[test]
fn template_token_is_found_from_the_left() {
    assert_eq!(render_template("{{{INITIAL}}}", "M"), "{M}");
    assert_eq!(render_template("{{INITIAL}{{INITIAL}}", "M"), "{{INITIAL}M");
    assert_eq!(render_template("{{INITIAL}}", "{"), "{");
}

#[test]
fn template_takes_any_initial() {
    assert_eq!(render_template("[{{INITIAL}}]", "\u{c9}"), "[\u{c9}]");
    assert_eq!(render_template("\u{1f600}{{INITIAL}}\u{1f600}", "?"), "\u{1f600}?\u{1f600}");
    assert_eq!(render_template("<{{INITIAL}}|{{INITIAL}}>", "SS"), "<SS|SS>");
    assert_eq!(render_template("<{{INITIAL}}>", ""), "<>");
    assert_eq!(render_template("{{INITIAL}}", "{{INITIAL}}"), "{{INITIAL}}");
}

#[test]
fn kept_vector_image_is_taken_as_it_is() {
    let kept = Some(String::from("<svg>kept</svg>"));
    let stage = vector_stage(kept, Some(b"<svg>{{INITIAL}}</svg>".to_vec()), "M");
    assert_eq!(stage, Ok(VectorImage { svg: String::from("<svg>kept</svg>"), store: false }));
}

#[test]
fn kept_vector_image_needs_no_valid_template() {
    let stage = vector_stage(Some(String::from("kept")), Some(vec![0xff, 0xfe]), "M");
    assert_eq!(stage, Ok(VectorImage { svg: String::from("kept"), store: false }));
}

#[test]
fn new_vector_image_is_filled_in_and_stored() {
    let stage = vector_stage(None, Some(b"<svg>{{INITIAL}}</svg>".to_vec()), "M");
    assert_eq!(stage, Ok(VectorImage { svg: String::from("<svg>M</svg>"), store: true }));
}

#[test]
fn new_vector_image_of_a_name_outside_ascii() {
    let plan = build_icon(IconStyle::Default, "\u{e9}lan", &icon_state());
    let stage = vector_stage(None, Some(b"<svg>{{INITIAL}}</svg>".to_vec()), &plan.letter);
    assert_eq!(stage, Ok(VectorImage { svg: String::from("<svg>\u{c9}</svg>"), store: true }));
}

#[test]
fn vector_image_is_reused_on_the_second_call() {
    let template = b"<svg>{{INITIAL}}</svg>".to_vec();
    let first = vector_stage(None, Some(template.clone()), "A").unwrap();
    assert!(first.store);
    let second = vector_stage(Some(first.svg.clone()), Some(template), "A").unwrap();
    assert!(!second.store);
    assert_eq!(second.svg, first.svg);
}

#[test]
fn missing_template_is_an_error() {
    assert_eq!(vector_stage(None, None, "M"), Err(IconError::MissingTemplate));
}

#[test]
fn missing_template_is_an_error_whatever_is_kept() {
    let kept = Some(String::from("<svg>kept</svg>"));
    assert_eq!(vector_stage(kept, None, "M"), Err(IconError::MissingTemplate));
}

#[test]
fn template_that_is_not_text_is_an_error() {
    assert_eq!(
        vector_stage(None, Some(vec![b'<', 0xff, b'>']), "M"),
        Err(IconError::InvalidTemplate)
    );
    assert_eq!(vector_stage(None, Some(vec![0xc3]), "M"), Err(IconError::InvalidTemplate));
    assert_eq!(
        vector_stage(None, Some(vec![0xed, 0xa0, 0x80]), "M"),
        Err(IconError::InvalidTemplate)
    );
}

#[test]
fn template_with_letters_outside_ascii_is_text() {
    let template = "\u{e9}{{INITIAL}}\u{1f600}".as_bytes().to_vec();
    let stage = vector_stage(None, Some(template), "Z");
    assert_eq!(stage.unwrap().svg, "\u{e9}Z\u{1f600}");
}

#[test]
fn empty_template_is_text() {
    let stage = vector_stage(None, Some(vec![]), "Z");
    assert_eq!(stage, Ok(VectorImage { svg: String::new(), store: true }));
}

#[test]
fn icon_errors_in_words() {
    assert_eq!(IconError::MissingTemplate.message(), "Missing ICON");
    assert_eq!(IconError::InvalidTemplate.message(), "Invalid icon file");
    assert_eq!(IconError::InvalidImage.message(), "Invalid Pixmap Size");
    assert_eq!(IconError::Encode { message: String::from("broken") }.message(), "broken");
}

#[test]
fn image_needs_four_bytes_for_each_pixel() {
    assert!(RgbaImage::new(2, 3, vec![0; 24]).is_ok());
    assert_eq!(RgbaImage::new(2, 3, vec![0; 23]), Err(IconError::InvalidImage));
    assert_eq!(RgbaImage::new(2, 3, vec![0; 25]), Err(IconError::InvalidImage));
    assert_eq!(RgbaImage::new(2, 3, vec![]), Err(IconError::InvalidImage));
}

#[test]
fn image_with_a_side_of_zero_is_an_error() {
    assert_eq!(RgbaImage::new(0, 4, vec![]), Err(IconError::InvalidImage));
    assert_eq!(RgbaImage::new(4, 0, vec![]), Err(IconError::InvalidImage));
    assert_eq!(RgbaImage::new(0, 0, vec![]), Err(IconError::InvalidImage));
}

#[test]
fn image_that_is_too_large_is_an_error() {
    assert_eq!(RgbaImage::new(0x4001, 0x4000, vec![]), Err(IconError::InvalidImage));
    assert_eq!(RgbaImage::new(u32::MAX, u32::MAX, vec![]), Err(IconError::InvalidImage));
}

#[test]
fn image_gives_back_what_it_holds() {
    let data = checkerboard(3, 2);
    let image = RgbaImage::new(3, 2, data.clone()).unwrap();
    assert_eq!(image.width(), 3);
    assert_eq!(image.height(), 2);
    assert_eq!(image.data(), data);
    assert_eq!(image.clone(), image);
}

#[test]
fn icon_file_holds_the_one_image() {
    let data = checkerboard(ICON_SIZE, ICON_SIZE);
    let image = RgbaImage::new(ICON_SIZE, ICON_SIZE, data.clone()).unwrap();
    let bytes = create_ico(&image).unwrap();
    assert_ne!(bytes, data);
    assert!(bytes.len() >= 22);
    assert_eq!(&bytes[0..8], &[0, 0, 1, 0, 1, 0, 0, 0]);
    let dir = ico::IconDir::read(Cursor::new(&bytes)).unwrap();
    assert_eq!(dir.resource_type(), ico::ResourceType::Icon);
    assert_eq!(dir.entries().len(), 1);
    assert_eq!(dir.entries()[0].width(), 256);
    assert_eq!(dir.entries()[0].height(), 256);
    assert!(dir.entries()[0].is_png());
    let decoded = dir.entries()[0].decode().unwrap();
    assert_eq!(decoded.width(), 256);
    assert_eq!(decoded.height(), 256);
    assert_eq!(decoded.rgba_data(), data.as_slice());
}

#[test]
fn small_icon_file_holds_the_one_image() {
    let data = vec![
        255, 0, 0, 255, 0, 255, 0, 255, //
        0, 0, 255, 255, 255, 255, 255, 255,
    ];
    let image = RgbaImage::new(2, 2, data.clone()).unwrap();
    let bytes = create_ico(&image).unwrap();
    assert_eq!(&bytes[0..8], &[0, 0, 1, 0, 1, 0, 2, 2]);
    let dir = ico::IconDir::read(Cursor::new(&bytes)).unwrap();
    assert_eq!(dir.entries().len(), 1);
    assert_eq!(dir.entries()[0].width(), 2);
    assert_eq!(dir.entries()[0].height(), 2);
    assert_eq!(dir.entries()[0].decode().unwrap().rgba_data(), data.as_slice());
}

#[test]
fn icon_file_is_the_same_each_time() {
    let image = RgbaImage::new(16, 16, checkerboard(16, 16)).unwrap();
    assert_eq!(create_ico(&image).unwrap(), create_ico(&image).unwrap());
}

#[test]
fn fonts_are_the_files_that_end_in_ttf() {
    assert!(is_font_file("FiraSans-Black.ttf"));
    assert!(is_font_file(".ttf"));
    assert!(is_font_file("a.otf.ttf"));
    assert!(!is_font_file("FiraSans-Black.otf"));
    assert!(!is_font_file("ttf"));
    assert!(!is_font_file("font.TTF"));
    assert!(!is_font_file("font.ttf.bak"));
    assert!(!is_font_file("font.ttf "));
    assert!(!is_font_file(""));
    assert!(!is_font_file("LICENSE"));
}

#[test]
fn icon_file_records_the_sides_in_a_byte_each() {
    let wide = RgbaImage::new(255, 1, checkerboard(255, 1)).unwrap();
    assert_eq!(&create_ico(&wide).unwrap()[6..8], &[255, 1]);
    let wider = RgbaImage::new(300, 3, checkerboard(300, 3)).unwrap();
    assert_eq!(&create_ico(&wider).unwrap()[6..8], &[0, 3]);
    let tall = RgbaImage::new(7, 256, checkerboard(7, 256)).unwrap();
    assert_eq!(&create_ico(&tall).unwrap()[6..8], &[7, 0]);
}
