//! Model-description types: the error shape of the mesh-file parser and
//! the UV-flip configuration of the built-in quad models. The mesh data
//! itself is floating-point geometry and lives outside the verified core.

use vstd::prelude::*;

verus! {

/// What went wrong in a mesh file, and on which line.
#[derive(Debug)]
pub struct ParseError {
    pub line_number: u32,
    pub kind: ParseErrorKind,
}

/// The ways parsing a mesh file can fail. The parser currently accepts
/// every input it is given, so nothing builds these values yet.
#[derive(Debug, Clone, Copy, PartialEq, Eq, Structural)]
pub enum ParseErrorKind {
    /// A line that could not be read as a mesh directive.
    Malformed,
}

/// How a quad model's texture coordinates are mirrored.
#[derive(Debug, Clone, Copy, Hash, PartialEq, Eq, Structural)]
pub enum Uvs {
    Normal,
    FlipHorizontal,
    FlipVertical,
    FlipBoth,
}

impl Default for Uvs {
    /// Unmirrored texture coordinates.
    fn default() -> (r: Self)
        ensures
            r == Uvs::Normal,
    {
        Uvs::Normal
    }
}

impl Uvs {
    /// Whether the u coordinate is mirrored.
    pub fn flips_horizontal(&self) -> (r: bool)
        ensures
            r == (*self == Uvs::FlipHorizontal || *self == Uvs::FlipBoth),
    {
        match self {
            Uvs::FlipHorizontal => true,
            Uvs::FlipBoth => true,
            _ => false,
        }
    }

    /// Whether the v coordinate is mirrored.
    pub fn flips_vertical(&self) -> (r: bool)
        ensures
            r == (*self == Uvs::FlipVertical || *self == Uvs::FlipBoth),
    {
        match self {
            Uvs::FlipVertical => true,
            Uvs::FlipBoth => true,
            _ => false,
        }
    }
}

} // verus!
