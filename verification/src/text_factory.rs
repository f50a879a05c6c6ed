//! Descriptions of text to be rendered: colored blocks of characters, an
//! optional outline, and a font size. Rasterizing them with a font
//! happens outside the verified core.

use vstd::prelude::*;

verus! {

/// An outline drawn around rendered text.
#[derive(Debug, Clone, Copy, PartialEq, Eq)]
pub struct TextOutline {
    pub color: [u8; 3],
    pub size: u8,
}

/// A run of text in one color.
#[derive(Debug, Clone, PartialEq, Eq)]
pub struct TextInfoBlock {
    pub color: [u8; 3],
    pub text: String,
}

/// The colored runs making up one piece of text.
#[derive(Debug, Clone, PartialEq, Eq)]
pub struct TextBlocks(pub Vec<TextInfoBlock>);

impl TextBlocks {
    /// One run of text in one color.
    pub fn single(color: [u8; 3], text: String) -> (r: Self)
        ensures
            r.0@.len() == 1,
            r.0@[0].color == color,
            r.0@[0].text == text,
    {
        let mut blocks: Vec<TextInfoBlock> = Vec::new();
        blocks.push(TextInfoBlock { color, text });
        TextBlocks(blocks)
    }
}

/// Everything needed to rasterize one piece of text.
#[derive(Debug, Clone, PartialEq, Eq)]
pub struct TextInfo {
    pub font_size: u32,
    pub text: TextBlocks,
    pub outline: Option<TextOutline>,
}

impl Default for TextInfo {
    /// Empty text at font size 16, without an outline.
    fn default() -> (r: Self)
        ensures
            r.font_size == 16,
            r.text.0@.len() == 0,
            r.outline is None,
    {
        TextInfo { font_size: 16, text: TextBlocks(Vec::new()), outline: None }
    }
}

impl TextInfo {
    /// White text of one run at the given font size, without an outline.
    pub fn new_simple(font_size: u32, text: String) -> (r: Self)
        ensures
            r.font_size == font_size,
            r.text.0@.len() == 1,
            r.text.0@[0].color == [255u8, 255u8, 255u8],
            r.text.0@[0].text == text,
            r.outline is None,
    {
        TextInfo { font_size, text: TextBlocks::single([255, 255, 255], text), outline: None }
    }
}

} // verus!
