use image_convert::{
    plan_resize, ColorName, Crop, GrayRawConfig, ImageIdentify, ImageResource, InterlaceType,
    Resolution,
};

const INPUT_IMAGE_PATH: &str = r"tests/data/P1060382.JPG";

#[test]
fn tests_get_identify() {
    let input: ImageResource<()> = ImageResource::from_path(INPUT_IMAGE_PATH);

    assert_eq!(Some(INPUT_IMAGE_PATH), input.as_str());

    // The file itself is not read. What is checked is that the values which the image
    // engine reports of this photograph are kept as they are reported, and that the
    // engine's number 1 for the scheme is read as no interlace.
    let id = ImageIdentify::from_report(4592, 2584, String::from("JPEG"), 1, false);

    assert_eq!(4592, id.resolution.width);
    assert_eq!(2584, id.resolution.height);
    assert_eq!("JPEG", id.format);
    assert_eq!(InterlaceType::NoInterlace, id.interlace);
}

#[test]
fn identify_keeps_every_reported_value() {
    let id = ImageIdentify::from_report(640, 480, String::from("PNG"), 7, true);

    assert_eq!(Resolution { width: 640, height: 480 }, id.resolution);
    assert_eq!("PNG", id.format);
    assert_eq!(InterlaceType::PNGInterlace, id.interlace);
    assert!(id.has_alpha_channel);
}

#[test]
fn identify_takes_an_unknown_scheme_as_undefined() {
    let id = ImageIdentify::from_report(1, 1, String::from("GIF"), 8, false);
    assert_eq!(InterlaceType::UndefinedInterlace, id.interlace);

    let id = ImageIdentify::from_report(1, 1, String::from("GIF"), -1, false);
    assert_eq!(InterlaceType::UndefinedInterlace, id.interlace);
}

#[test]
fn resolution_gives_its_dimensions_where_they_fit() {
    assert_eq!(Some((4592, 2584)), Resolution { width: 4592, height: 2584 }.dimensions());
    assert_eq!(Some((65535, 1)), Resolution { width: 65535, height: 1 }.dimensions());
    assert_eq!(None, Resolution { width: 65536, height: 1 }.dimensions());
    assert_eq!(None, Resolution { width: 1, height: 65536 }.dimensions());
    assert_eq!(None, Resolution { width: 0, height: 10 }.dimensions());
    assert_eq!(None, Resolution { width: 10, height: 0 }.dimensions());
}

#[test]
fn interlace_ordinals_follow_the_engine() {
    let all = [
        InterlaceType::UndefinedInterlace,
        InterlaceType::NoInterlace,
        InterlaceType::LineInterlace,
        InterlaceType::PlaneInterlace,
        InterlaceType::PartitionInterlace,
        InterlaceType::GIFInterlace,
        InterlaceType::JPEGInterlace,
        InterlaceType::PNGInterlace,
    ];
    for (place, scheme) in all.iter().enumerate() {
        assert_eq!(place as isize, scheme.ordinal());
        assert_eq!(Some(*scheme), InterlaceType::from_ordinal(place as isize));
    }
    assert_eq!(None, InterlaceType::from_ordinal(8));
    assert_eq!(None, InterlaceType::from_ordinal(-1));
    assert_eq!(None, InterlaceType::from_ordinal(isize::MAX));
}

#[test]
fn color_names_are_spelled_in_lower_case() {
    assert_eq!("white", ColorName::White.as_str());
    assert_eq!("black", ColorName::Black.as_str());
    assert_eq!("red", ColorName::Red.as_str());
    assert_eq!("green", ColorName::Green.as_str());
    assert_eq!("blue", ColorName::Blue.as_str());
    assert_eq!("yellow", ColorName::Yellow.as_str());
    assert_eq!("cyan", ColorName::Cyan.as_str());
    assert_eq!("magenta", ColorName::Magenta.as_str());
}

#[test]
fn color_names_are_read_back() {
    let all = [
        ColorName::White,
        ColorName::Black,
        ColorName::Red,
        ColorName::Green,
        ColorName::Blue,
        ColorName::Yellow,
        ColorName::Cyan,
        ColorName::Magenta,
    ];
    for color in all {
        assert_eq!(Some(color), ColorName::parse_str(color.as_str()));
        assert_eq!(Some(color), ColorName::from_name(color.as_str()));
    }
}

#[test]
fn color_names_are_parsed_in_any_letter_case() {
    assert_eq!(Some(ColorName::Red), ColorName::parse_str("RED"));
    assert_eq!(Some(ColorName::White), ColorName::parse_str("White"));
    assert_eq!(Some(ColorName::Magenta), ColorName::parse_str("mAgEnTa"));
    // The Kelvin sign is an upper case letter whose lower case form is `k`.
    assert_eq!(Some(ColorName::Black), ColorName::parse_str("blac\u{212a}"));
}

#[test]
fn color_names_by_name_are_exact() {
    assert_eq!(None, ColorName::from_name("RED"));
    assert_eq!(None, ColorName::from_name("White"));
    assert_eq!(None, ColorName::from_name(""));
    assert_eq!(None, ColorName::from_name("red "));
}

#[test]
fn unknown_color_names_are_refused() {
    assert_eq!(None, ColorName::parse_str(""));
    assert_eq!(None, ColorName::parse_str("orange"));
    assert_eq!(None, ColorName::parse_str(" red"));
    assert_eq!(None, ColorName::parse_str("#ff0000"));
}

#[test]
fn resource_from_path_holds_the_path() {
    let resource: ImageResource<()> = ImageResource::from_path("a/b.png");
    assert_eq!(Some("a/b.png"), resource.as_str());
    assert_eq!(Some(std::path::Path::new("a/b.png")), resource.as_path());
    assert_eq!(None, resource.as_u8_slice());
    assert_eq!(None, resource.as_magick_wand());
    assert_eq!(Some(String::from("a/b.png")), resource.into_string());

    let resource: ImageResource<()> = ImageResource::from_path("a/b.png");
    assert_eq!(Some(std::path::PathBuf::from("a/b.png")), resource.into_path_buf());

    let resource: ImageResource<()> = ImageResource::from_path("a/b.png");
    assert_eq!(None, resource.into_vec());
}

#[test]
fn resource_with_capacity_is_empty_data() {
    let resource: ImageResource<()> = ImageResource::with_capacity(64);
    let empty: &[u8] = &[];
    assert_eq!(Some(empty), resource.as_u8_slice());
    assert_eq!(None, resource.as_str());
    assert_eq!(None, resource.as_path());
    assert_eq!(Some(Vec::new()), resource.into_vec());
}

#[test]
fn resource_data_is_handed_out() {
    let resource: ImageResource<()> = ImageResource::Data(vec![1, 2, 3]);
    let bytes: &[u8] = &[1, 2, 3];
    assert_eq!(Some(bytes), resource.as_u8_slice());
    assert_eq!(None, resource.as_str());
    assert_eq!(Some(vec![1, 2, 3]), resource.into_vec());

    let resource: ImageResource<()> = ImageResource::Data(vec![1, 2, 3]);
    assert_eq!(None, resource.into_string());
    let resource: ImageResource<()> = ImageResource::Data(vec![1, 2, 3]);
    assert_eq!(None, resource.into_path_buf());
    let resource: ImageResource<()> = ImageResource::Data(vec![1, 2, 3]);
    assert_eq!(None, resource.into_magick_wand());
}

#[test]
fn resource_handle_is_handed_out() {
    let resource: ImageResource<u32> = ImageResource::MagickWand(7);
    assert_eq!(Some(&7), resource.as_magick_wand());
    assert_eq!(None, resource.as_str());
    assert_eq!(None, resource.as_u8_slice());
    assert_eq!(Some(7), resource.into_magick_wand());

    let resource: ImageResource<u32> = ImageResource::MagickWand(7);
    assert_eq!(None, resource.into_vec());
}

#[test]
fn gray_raw_config_starts_with_its_defaults() {
    let config = GrayRawConfig::new();
    assert!(config.strip_metadata);
    assert_eq!(0, config.width);
    assert_eq!(0, config.height);
    assert_eq!(None, config.crop);
    assert_eq!(None, config.background_color);

    let config = GrayRawConfig::default();
    assert!(config.strip_metadata);
    assert_eq!(0, config.width);
    assert_eq!(0, config.height);
    assert_eq!(None, config.crop);
    assert_eq!(None, config.background_color);
}

#[test]
fn gray_raw_config_answers_for_its_fields() {
    let mut config = GrayRawConfig::new();
    config.width = 1920;
    config.height = 1080;
    config.strip_metadata = false;
    config.crop = Some(Crop::Center(16, 9));
    config.background_color = Some(ColorName::White);

    assert!(!config.is_strip_metadata());
    assert_eq!(1920, config.get_width());
    assert_eq!(1080, config.get_height());
    assert_eq!(Some(Crop::Center(16, 9)), config.get_crop());
    assert!(config.is_shrink_only());
}

#[test]
fn resize_plan_counts_pixels() {
    let mut config = GrayRawConfig::new();
    config.width = 1920;
    let plan = plan_resize(
        config.is_shrink_only(),
        4592,
        2584,
        config.get_width(),
        config.get_height(),
    );
    assert_eq!(1920, plan.width);
    assert_eq!(1080, plan.height);
    assert_eq!(4592 * 2584, plan.origin_pixels);
    assert_eq!(1920 * 1080, plan.resize_pixels);
    assert_eq!(4592 * 2584, plan.larger_pixels());
    assert_eq!(4592 * 2584 - 1920 * 1080, plan.changed_pixels());
}

#[test]
fn resize_plan_without_resize_changes_no_pixel() {
    let plan = plan_resize(true, 65535, 65535, 0, 0);
    assert_eq!(65535, plan.width);
    assert_eq!(65535, plan.height);
    assert_eq!(4294836225, plan.origin_pixels);
    assert_eq!(4294836225, plan.resize_pixels);
    assert_eq!(4294836225, plan.larger_pixels());
    assert_eq!(0, plan.changed_pixels());
}

#[test]
fn resize_plan_counts_pixels_of_an_enlargement() {
    let plan = plan_resize(false, 512, 512, 1920, 1920);
    assert_eq!((1920, 1920), (plan.width, plan.height));
    assert_eq!(512 * 512, plan.origin_pixels);
    assert_eq!(1920 * 1920, plan.resize_pixels);
    assert_eq!(1920 * 1920, plan.larger_pixels());
    assert_eq!(1920 * 1920 - 512 * 512, plan.changed_pixels());
}

#[test]
fn color_names_are_parsed_from_text() {
    assert_eq!(Ok(ColorName::Cyan), "Cyan".parse::<ColorName>());
    assert_eq!(Ok(ColorName::Yellow), "yellow".parse::<ColorName>());
    assert_eq!(Err(()), "teal".parse::<ColorName>());
}
