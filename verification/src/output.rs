//! What each output format asks of the place it is written to.

use str_utils::{EndsWithIgnoreAsciiCase, EndsWithIgnoreAsciiCaseMultiple};
use vstd::prelude::*;
use vstd::string::StringSliceAdditionalSpecFns;

use crate::text::{ascii_lower, is_lower_word};

verus! {

/// The formats that an image can be converted to.
#[derive(Debug, Clone, Copy, PartialEq, Eq, Structural)]
pub enum OutputFormat {
    BMP,
    GIF,
    GrayRaw,
    ICO,
    JPG,
    PGM,
    PNG,
    TIFF,
    WEBP,
}

/// Whether `text` ends with `suffix`, which is written in lower case, in any
/// letter case of ASCII.
pub open spec fn ends_with_ignoring_case(text: Seq<u8>, suffix: Seq<u8>) -> bool {
    &&& suffix.len() <= text.len()
    &&& forall|k: int|
        0 <= k < suffix.len() ==> ascii_lower(text[text.len() - suffix.len() + k])
            == #[trigger] suffix[k]
}

/// The place of the first of two suffixes that `text` ends with: `0` for
/// `first`, `1` for `second` where `text` does not end with `first`.
pub open spec fn first_suffix(text: Seq<u8>, first: Seq<u8>, second: Seq<u8>) -> Option<usize> {
    if ends_with_ignoring_case(text, first) {
        Some(0usize)
    } else if ends_with_ignoring_case(text, second) {
        Some(1usize)
    } else {
        None
    }
}

/// `EndsWithIgnoreAsciiCase::ends_with_ignore_ascii_case_with_lowercase` of
/// `str_utils`: whether the last bytes of `path`, each letter of ASCII taken
/// in lower case, are the bytes of `suffix`. The suffix must not hold an
/// upper case letter.
#[verifier::external_body]
fn ends_with_lowercase(path: &str, suffix: &[u8]) -> (ends: bool)
    requires
        is_lower_word(suffix@),
    ensures
        ends == ends_with_ignoring_case(path.spec_bytes(), suffix@),
{
    path.ends_with_ignore_ascii_case_with_lowercase(suffix)
}

/// `EndsWithIgnoreAsciiCaseMultiple::ends_with_ignore_ascii_case_with_lowercase_multiple`
/// of `str_utils` for two suffixes: the place of the first of them that
/// `path` ends with in the sense above. Neither suffix may hold an upper
/// case letter.
#[verifier::external_body]
fn ends_with_lowercase_either(path: &str, first: &[u8], second: &[u8]) -> (place: Option<usize>)
    requires
        is_lower_word(first@),
        is_lower_word(second@),
    ensures
        place == first_suffix(path.spec_bytes(), first@, second@),
{
    path.ends_with_ignore_ascii_case_with_lowercase_multiple(&[first, second])
}

impl OutputFormat {
    /// The file name extensions of this format, in lower case and with
    /// their dot.
    pub open spec fn extensions(self) -> Seq<Seq<u8>> {
        match self {
            OutputFormat::BMP => seq![seq![0x2e, 0x62, 0x6d, 0x70]],
            OutputFormat::GIF => seq![seq![0x2e, 0x67, 0x69, 0x66]],
            OutputFormat::GrayRaw => seq![seq![0x2e, 0x72, 0x61, 0x77]],
            OutputFormat::ICO => seq![seq![0x2e, 0x69, 0x63, 0x6f]],
            OutputFormat::JPG => seq![
                seq![0x2e, 0x6a, 0x70, 0x67],
                seq![0x2e, 0x6a, 0x70, 0x65, 0x67],
            ],
            OutputFormat::PGM => seq![seq![0x2e, 0x70, 0x67, 0x6d]],
            OutputFormat::PNG => seq![seq![0x2e, 0x70, 0x6e, 0x67]],
            OutputFormat::TIFF => seq![
                seq![0x2e, 0x74, 0x69, 0x66],
                seq![0x2e, 0x74, 0x69, 0x66, 0x66],
            ],
            OutputFormat::WEBP => seq![seq![0x2e, 0x77, 0x65, 0x62, 0x70]],
        }
    }

    /// Whether a file of this format may have the path `path`: the path
    /// ends with one of the extensions of the format, in any letter case.
    pub open spec fn accepts(self, path: Seq<u8>) -> bool {
        exists|i: int|
            0 <= i < self.extensions().len() && ends_with_ignoring_case(
                path,
                #[trigger] self.extensions()[i],
            )
    }

    /// Whether a file of this format may be written to `path`.
    pub fn accepts_path(self, path: &str) -> (accepted: bool)
        ensures
            accepted == self.accepts(path.spec_bytes()),
    {
        match self {
            OutputFormat::BMP => {
                let extension: [u8; 4] = [0x2e, 0x62, 0x6d, 0x70];
                Self::ends_with_one(self, path, extension.as_slice())
            },
            OutputFormat::GIF => {
                let extension: [u8; 4] = [0x2e, 0x67, 0x69, 0x66];
                Self::ends_with_one(self, path, extension.as_slice())
            },
            OutputFormat::GrayRaw => {
                let extension: [u8; 4] = [0x2e, 0x72, 0x61, 0x77];
                Self::ends_with_one(self, path, extension.as_slice())
            },
            OutputFormat::ICO => {
                let extension: [u8; 4] = [0x2e, 0x69, 0x63, 0x6f];
                Self::ends_with_one(self, path, extension.as_slice())
            },
            OutputFormat::JPG => {
                let short: [u8; 4] = [0x2e, 0x6a, 0x70, 0x67];
                let long: [u8; 5] = [0x2e, 0x6a, 0x70, 0x65, 0x67];
                Self::ends_with_two(self, path, short.as_slice(), long.as_slice())
            },
            OutputFormat::PGM => {
                let extension: [u8; 4] = [0x2e, 0x70, 0x67, 0x6d];
                Self::ends_with_one(self, path, extension.as_slice())
            },
            OutputFormat::PNG => {
                let extension: [u8; 4] = [0x2e, 0x70, 0x6e, 0x67];
                Self::ends_with_one(self, path, extension.as_slice())
            },
            OutputFormat::TIFF => {
                let short: [u8; 4] = [0x2e, 0x74, 0x69, 0x66];
                let long: [u8; 5] = [0x2e, 0x74, 0x69, 0x66, 0x66];
                Self::ends_with_two(self, path, short.as_slice(), long.as_slice())
            },
            OutputFormat::WEBP => {
                let extension: [u8; 5] = [0x2e, 0x77, 0x65, 0x62, 0x70];
                Self::ends_with_one(self, path, extension.as_slice())
            },
        }
    }

    /// The compression quality that this format is written with, from 1 to
    /// 100, where the request is `requested`: for JPG the request, raised
    /// to 1 and lowered to 100 where it lies outside; for WEBP the request,
    /// lowered to 100; always 100 for BMP, GIF, PNG and TIFF. The other
    /// formats have none.
    pub open spec fn compression_quality(self, requested: u8) -> Option<u8> {
        match self {
            OutputFormat::JPG => Some(
                if requested < 1 {
                    1u8
                } else if requested > 100 {
                    100u8
                } else {
                    requested
                },
            ),
            OutputFormat::WEBP => Some(
                if requested > 100 {
                    100u8
                } else {
                    requested
                },
            ),
            OutputFormat::BMP | OutputFormat::GIF | OutputFormat::PNG | OutputFormat::TIFF => Some(
                100u8,
            ),
            OutputFormat::GrayRaw | OutputFormat::ICO | OutputFormat::PGM => None,
        }
    }

    /// The compression quality that this format is written with.
    pub fn quality(self, requested: u8) -> (quality: Option<u8>)
        ensures
            quality == self.compression_quality(requested),
            quality matches Some(q) ==> q <= 100,
    {
        match self {
            OutputFormat::JPG => {
                if requested < 1 {
                    Some(1)
                } else if requested > 100 {
                    Some(100)
                } else {
                    Some(requested)
                }
            },
            OutputFormat::WEBP => {
                if requested > 100 {
                    Some(100)
                } else {
                    Some(requested)
                }
            },
            OutputFormat::BMP | OutputFormat::GIF | OutputFormat::PNG | OutputFormat::TIFF => Some(
                100,
            ),
            OutputFormat::GrayRaw | OutputFormat::ICO | OutputFormat::PGM => None,
        }
    }

    /// What is said of a path that this format does not accept.
    pub open spec fn refusal(self) -> Seq<char> {
        match self {
            OutputFormat::BMP => "The file extension name is not bmp."@,
            OutputFormat::GIF => "The file extension name is not gif."@,
            OutputFormat::GrayRaw => "The file extension name is not raw."@,
            OutputFormat::ICO => "The file extension name is not ico."@,
            OutputFormat::JPG => "The file extension name is not jpg or jpeg."@,
            OutputFormat::PGM => "The file extension name is not pgm."@,
            OutputFormat::PNG => "The file extension name is not png."@,
            OutputFormat::TIFF => "The file extension name is not tif or tiff."@,
            OutputFormat::WEBP => "The file extension name is not webp."@,
        }
    }

    /// Check that a file of this format may be written to `path`; the error
    /// says which extension was expected.
    pub fn check_path(self, path: &str) -> (checked: Result<(), &'static str>)
        ensures
            checked is Ok <==> self.accepts(path.spec_bytes()),
            checked matches Err(message) ==> message@ == self.refusal(),
    {
        if self.accepts_path(path) {
            Ok(())
        } else {
            Err(
                match self {
                    OutputFormat::BMP => "The file extension name is not bmp.",
                    OutputFormat::GIF => "The file extension name is not gif.",
                    OutputFormat::GrayRaw => "The file extension name is not raw.",
                    OutputFormat::ICO => "The file extension name is not ico.",
                    OutputFormat::JPG => "The file extension name is not jpg or jpeg.",
                    OutputFormat::PGM => "The file extension name is not pgm.",
                    OutputFormat::PNG => "The file extension name is not png.",
                    OutputFormat::TIFF => "The file extension name is not tif or tiff.",
                    OutputFormat::WEBP => "The file extension name is not webp.",
                },
            )
        }
    }

    fn ends_with_one(self, path: &str, extension: &[u8]) -> (accepted: bool)
        requires
            self.extensions() == seq![extension@],
            is_lower_word(extension@),
        ensures
            accepted == self.accepts(path.spec_bytes()),
    {
        assert(self.extensions()[0] == extension@);
        ends_with_lowercase(path, extension)
    }

    fn ends_with_two(self, path: &str, short: &[u8], long: &[u8]) -> (accepted: bool)
        requires
            self.extensions() == seq![short@, long@],
            is_lower_word(short@),
            is_lower_word(long@),
        ensures
            accepted == self.accepts(path.spec_bytes()),
    {
        proof {
            let both = self.extensions();
            assert(both[0] == short@ && both[1] == long@);
        }
        ends_with_lowercase_either(path, short, long).is_some()
    }
}

} // verus!
