//! The interlace schemes of the image engine.

use vstd::prelude::*;

verus! {

/// How the rows of an image are ordered in its file.
#[derive(Debug, Clone, Copy, Eq, PartialEq, Ord, PartialOrd, Hash, Structural)]
pub enum InterlaceType {
    UndefinedInterlace,
    NoInterlace,
    LineInterlace,
    PlaneInterlace,
    PartitionInterlace,
    GIFInterlace,
    JPEGInterlace,
    PNGInterlace,
}

impl InterlaceType {
    /// The number by which the image engine knows this scheme: its place in
    /// the list above, counted from zero.
    pub open spec fn number(self) -> int {
        match self {
            InterlaceType::UndefinedInterlace => 0,
            InterlaceType::NoInterlace => 1,
            InterlaceType::LineInterlace => 2,
            InterlaceType::PlaneInterlace => 3,
            InterlaceType::PartitionInterlace => 4,
            InterlaceType::GIFInterlace => 5,
            InterlaceType::JPEGInterlace => 6,
            InterlaceType::PNGInterlace => 7,
        }
    }

    /// The number by which the image engine knows this scheme.
    pub fn ordinal(self) -> (n: isize)
        ensures
            n == self.number(),
            0 <= n < 8,
    {
        match self {
            InterlaceType::UndefinedInterlace => 0,
            InterlaceType::NoInterlace => 1,
            InterlaceType::LineInterlace => 2,
            InterlaceType::PlaneInterlace => 3,
            InterlaceType::PartitionInterlace => 4,
            InterlaceType::GIFInterlace => 5,
            InterlaceType::JPEGInterlace => 6,
            InterlaceType::PNGInterlace => 7,
        }
    }

    /// The scheme that the image engine knows by the number `n`, if there is
    /// one.
    pub fn from_ordinal(n: isize) -> (scheme: Option<InterlaceType>)
        ensures
            scheme is Some <==> 0 <= n < 8,
            scheme matches Some(s) ==> s.number() == n,
    {
        if n == 0 {
            Some(InterlaceType::UndefinedInterlace)
        } else if n == 1 {
            Some(InterlaceType::NoInterlace)
        } else if n == 2 {
            Some(InterlaceType::LineInterlace)
        } else if n == 3 {
            Some(InterlaceType::PlaneInterlace)
        } else if n == 4 {
            Some(InterlaceType::PartitionInterlace)
        } else if n == 5 {
            Some(InterlaceType::GIFInterlace)
        } else if n == 6 {
            Some(InterlaceType::JPEGInterlace)
        } else if n == 7 {
            Some(InterlaceType::PNGInterlace)
        } else {
            None
        }
    }
}

} // verus!
