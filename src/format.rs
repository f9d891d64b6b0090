use vstd::prelude::*;

verus! {

/// The value formats of engine properties and options that this library passes.
#[derive(Debug, Clone, Copy, Hash, PartialEq, Eq, Structural)]
pub enum Format {
    String,
    Flag,
    Int64,
    Double,
    Node,
}

impl Format {
    /// The engine's numeric code of this format.
    pub open spec fn code(self) -> u32 {
        match self {
            Format::String => 1,
            Format::Flag => 3,
            Format::Int64 => 4,
            Format::Double => 5,
            Format::Node => 6,
        }
    }

    /// The engine's numeric code of this format, as its client API numbers them.
    pub fn as_mpv_format(&self) -> (r: u32)
        ensures
            r == self.code(),
    {
        match *self {
            Format::String => 1,
            Format::Flag => 3,
            Format::Int64 => 4,
            Format::Double => 5,
            Format::Node => 6,
        }
    }
}

} // verus!
