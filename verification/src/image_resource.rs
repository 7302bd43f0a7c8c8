//! Where an image comes from and where it goes.

use std::path::{Path, PathBuf};

use vstd::prelude::*;

verus! {

/// An owned path of the file system, as std holds it.
#[verifier::external_type_specification]
#[verifier::external_body]
pub struct ExPathBuf(PathBuf);

/// A borrowed path of the file system, as std holds it.
#[verifier::external_type_specification]
#[verifier::external_body]
pub struct ExPath(Path);

/// `PathBuf::from`: the path that a text spells.
#[verifier::external_body]
fn path_buf_of(text: String) -> PathBuf {
    PathBuf::from(text)
}

/// `Path::new`: the path that a text spells.
#[verifier::external_body]
fn path_of(text: &str) -> &Path {
    Path::new(text)
}

/// The resource of an image. It can be an input resource or an output
/// resource: a path, the bytes of a file, or a handle `W` of the image
/// engine.
#[derive(Debug)]
pub enum ImageResource<W> {
    Path(String),
    Data(Vec<u8>),
    MagickWand(W),
}

impl<W> ImageResource<W> {
    /// Create an image resource from a path.
    pub fn from_path(path: &str) -> (resource: ImageResource<W>)
        ensures
            resource matches ImageResource::Path(p) && p@ == path@,
    {
        ImageResource::Path(path.to_owned())
    }

    /// Create an empty image resource with a specific capacity.
    pub fn with_capacity(capacity: usize) -> (resource: ImageResource<W>)
        ensures
            resource matches ImageResource::Data(d) && d@ == Seq::<u8>::empty(),
    {
        ImageResource::Data(Vec::with_capacity(capacity))
    }

    /// Convert this `ImageResource` instance into a path string (if it is possible).
    pub fn into_string(self) -> (path: Option<String>)
        ensures
            match self {
                ImageResource::Path(p) => path == Some(p),
                _ => path is None,
            },
    {
        if let ImageResource::Path(p) = self {
            Some(p)
        } else {
            None
        }
    }

    /// Convert this `ImageResource` instance into a path buffer (if it is possible).
    pub fn into_path_buf(self) -> (path: Option<PathBuf>)
        ensures
            path is Some <==> self is Path,
    {
        if let ImageResource::Path(p) = self {
            Some(path_buf_of(p))
        } else {
            None
        }
    }

    /// Convert this `ImageResource` instance into a data vec (if it is possible).
    pub fn into_vec(self) -> (data: Option<Vec<u8>>)
        ensures
            match self {
                ImageResource::Data(d) => data == Some(d),
                _ => data is None,
            },
    {
        if let ImageResource::Data(d) = self {
            Some(d)
        } else {
            None
        }
    }

    /// Convert this `ImageResource` instance into a handle of the image
    /// engine (if it is possible).
    pub fn into_magick_wand(self) -> (wand: Option<W>)
        ensures
            match self {
                ImageResource::MagickWand(mw) => wand == Some(mw),
                _ => wand is None,
            },
    {
        if let ImageResource::MagickWand(mw) = self {
            Some(mw)
        } else {
            None
        }
    }

    /// Convert this `ImageResource` instance into a path string slice (if it is possible).
    pub fn as_str(&self) -> (path: Option<&str>)
        ensures
            match self {
                ImageResource::Path(p) => path matches Some(s) && s@ == p@,
                _ => path is None,
            },
    {
        if let ImageResource::Path(p) = self {
            Some(p.as_str())
        } else {
            None
        }
    }

    /// Convert this `ImageResource` instance into a path (if it is possible).
    pub fn as_path(&self) -> (path: Option<&Path>)
        ensures
            path is Some <==> self is Path,
    {
        if let ImageResource::Path(p) = self {
            Some(path_of(p.as_str()))
        } else {
            None
        }
    }

    /// Convert this `ImageResource` instance into a data slice (if it is possible).
    pub fn as_u8_slice(&self) -> (data: Option<&[u8]>)
        ensures
            match self {
                ImageResource::Data(d) => data matches Some(s) && s@ == d@,
                _ => data is None,
            },
    {
        if let ImageResource::Data(d) = self {
            Some(d.as_slice())
        } else {
            None
        }
    }

    /// Convert this `ImageResource` instance into a reference to a handle of
    /// the image engine (if it is possible).
    pub fn as_magick_wand(&self) -> (wand: Option<&W>)
        ensures
            match self {
                ImageResource::MagickWand(mw) => wand == Some(mw),
                _ => wand is None,
            },
    {
        if let ImageResource::MagickWand(mw) = self {
            Some(mw)
        } else {
            None
        }
    }
}

} // verus!
