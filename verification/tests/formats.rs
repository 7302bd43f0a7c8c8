use image_convert::icon::icon_plans;
use image_convert::resize::ResizePlan;
use image_convert::output::OutputFormat;

fn icon_sizes(width: u16, height: u16, requests: &Vec<(u16, u16)>) -> Vec<(u16, u16)> {
    icon_plans(width, height, requests).iter().map(|plan| (plan.width, plan.height)).collect()
}

const ALL: [OutputFormat; 9] = [
    OutputFormat::BMP,
    OutputFormat::GIF,
    OutputFormat::GrayRaw,
    OutputFormat::ICO,
    OutputFormat::JPG,
    OutputFormat::PGM,
    OutputFormat::PNG,
    OutputFormat::TIFF,
    OutputFormat::WEBP,
];

#[test]
fn each_format_accepts_its_extensions() {
    let cases = [
        (OutputFormat::BMP, "out.bmp"),
        (OutputFormat::GIF, "out.gif"),
        (OutputFormat::GrayRaw, "out.raw"),
        (OutputFormat::ICO, "out.ico"),
        (OutputFormat::JPG, "out.jpg"),
        (OutputFormat::JPG, "out.jpeg"),
        (OutputFormat::PGM, "out.pgm"),
        (OutputFormat::PNG, "out.png"),
        (OutputFormat::TIFF, "out.tif"),
        (OutputFormat::TIFF, "out.tiff"),
        (OutputFormat::WEBP, "out.webp"),
    ];
    for (format, path) in cases {
        for other in ALL {
            assert_eq!(format == other, other.accepts_path(path), "{:?} {}", other, path);
        }
    }
}

#[test]
fn extensions_are_accepted_in_any_letter_case() {
    assert!(OutputFormat::JPG.accepts_path("tests/data/P1060382_output.JPG"));
    assert!(OutputFormat::JPG.accepts_path("a.JpEg"));
    assert!(OutputFormat::PNG.accepts_path(".PNG"));
    assert!(OutputFormat::TIFF.accepts_path("x.TIFF"));
    assert!(OutputFormat::WEBP.accepts_path("x.WebP"));
}

#[test]
fn a_path_without_the_extension_is_refused() {
    assert!(!OutputFormat::PNG.accepts_path(""));
    assert!(!OutputFormat::PNG.accepts_path("png"));
    assert!(!OutputFormat::PNG.accepts_path("a.png "));
    assert!(!OutputFormat::PNG.accepts_path("a.pn"));
    assert!(!OutputFormat::PNG.accepts_path("a_png"));
    assert!(!OutputFormat::JPG.accepts_path("a.jpe"));
    assert!(!OutputFormat::JPG.accepts_path("a.jpg.png"));
    assert!(!OutputFormat::TIFF.accepts_path("a.ti"));
    // Only the letters of ASCII are taken in any case.
    assert!(!OutputFormat::GIF.accepts_path("a.g\u{130}f"));
}

#[test]
fn a_refused_path_is_told_what_was_expected() {
    assert_eq!(Ok(()), OutputFormat::PNG.check_path("a.png"));
    assert_eq!(Err("The file extension name is not bmp."), OutputFormat::BMP.check_path("a"));
    assert_eq!(Err("The file extension name is not gif."), OutputFormat::GIF.check_path("a"));
    assert_eq!(Err("The file extension name is not raw."), OutputFormat::GrayRaw.check_path("a"));
    assert_eq!(Err("The file extension name is not ico."), OutputFormat::ICO.check_path("a"));
    assert_eq!(
        Err("The file extension name is not jpg or jpeg."),
        OutputFormat::JPG.check_path("a")
    );
    assert_eq!(Err("The file extension name is not pgm."), OutputFormat::PGM.check_path("a"));
    assert_eq!(Err("The file extension name is not png."), OutputFormat::PNG.check_path("a"));
    assert_eq!(
        Err("The file extension name is not tif or tiff."),
        OutputFormat::TIFF.check_path("a")
    );
    assert_eq!(Err("The file extension name is not webp."), OutputFormat::WEBP.check_path("a"));
}

#[test]
fn quality_is_kept_in_range() {
    assert_eq!(Some(1), OutputFormat::JPG.quality(0));
    assert_eq!(Some(1), OutputFormat::JPG.quality(1));
    assert_eq!(Some(85), OutputFormat::JPG.quality(85));
    assert_eq!(Some(100), OutputFormat::JPG.quality(100));
    assert_eq!(Some(100), OutputFormat::JPG.quality(101));
    assert_eq!(Some(100), OutputFormat::JPG.quality(255));
    assert_eq!(Some(0), OutputFormat::WEBP.quality(0));
    assert_eq!(Some(85), OutputFormat::WEBP.quality(85));
    assert_eq!(Some(100), OutputFormat::WEBP.quality(200));
    for format in [OutputFormat::BMP, OutputFormat::GIF, OutputFormat::PNG, OutputFormat::TIFF] {
        assert_eq!(Some(100), format.quality(0));
        assert_eq!(Some(100), format.quality(85));
    }
    for format in [OutputFormat::GrayRaw, OutputFormat::ICO, OutputFormat::PGM] {
        assert_eq!(None, format.quality(85));
    }
}

#[test]
fn every_icon_picture_is_sized_from_the_image() {
    let requests = vec![(256u16, 256u16), (16, 16), (128, 128), (64, 64), (32, 32)];
    assert_eq!(
        vec![(256, 144), (16, 9), (128, 72), (64, 36), (32, 18)],
        icon_sizes(4592, 2584, &requests)
    );
}

#[test]
fn a_small_icon_picture_does_not_shrink_the_later_ones() {
    // The first picture is 3 x 2 (3 * 50 / 100 = 1.5). The second one is made from the
    // image as well, so it is 50 x 25.
    let requests = vec![(3u16, 0u16), (50, 0)];
    assert_eq!(vec![(3, 2), (50, 25)], icon_sizes(100, 50, &requests));
    // 10 * 333 / 1000 = 3.33 and 100 * 333 / 1000 = 33.3
    let requests = vec![(10u16, 10u16), (100, 100)];
    assert_eq!(vec![(10, 3), (100, 33)], icon_sizes(1000, 333, &requests));
    // 7 * 200 / 300 = 4.67
    let requests = vec![(3u16, 0u16), (7, 0)];
    assert_eq!(vec![(3, 2), (7, 5)], icon_sizes(300, 200, &requests));
}

#[test]
fn icon_pictures_may_be_larger_than_the_image() {
    let requests = vec![(16u16, 16u16), (32, 32), (0, 0)];
    assert_eq!(vec![(16, 16), (32, 32), (8, 8)], icon_sizes(8, 8, &requests));
}

#[test]
fn an_icon_without_requests_has_no_pictures() {
    assert_eq!(Vec::<(u16, u16)>::new(), icon_sizes(10, 10, &vec![]));
}

#[test]
fn an_icon_picture_without_pixels_does_not_stop_the_later_ones() {
    assert_eq!(vec![(10, 0)], icon_sizes(1000, 1, &vec![(10, 0)]));
    assert_eq!(vec![(10, 0), (1000, 1), (999, 1)], icon_sizes(1000, 1, &vec![(10, 0), (0, 0), (999, 0)]));
}

#[test]
fn icon_pictures_count_the_pixels_of_the_image() {
    let requests = vec![(256u16, 256u16), (16, 16)];
    assert_eq!(
        vec![
            ResizePlan {
                width: 256,
                height: 144,
                origin_pixels: 4592 * 2584,
                resize_pixels: 256 * 144,
            },
            ResizePlan {
                width: 16,
                height: 9,
                origin_pixels: 4592 * 2584,
                resize_pixels: 16 * 9,
            },
        ],
        icon_plans(4592, 2584, &requests)
    );
}
