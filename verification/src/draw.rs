//! What the console asks its host to draw: a background and lines of text.
//! The console only describes a frame; putting it on a screen is the host's
//! work.

use vstd::prelude::*;

verus! {

/// The two font sizes of the host's text renderer.
#[derive(Clone, Copy, Debug, PartialEq, Eq, Structural)]
pub enum TextSize {
    Small,
    Normal,
}

/// The colours the console draws in.
#[derive(Clone, Copy, Debug, PartialEq, Eq, Structural)]
pub enum Color {
    Black,
    Blue,
    White,
}

/// How the position of a text is counted.
#[derive(Clone, Copy, Debug, PartialEq, Eq, Structural)]
pub enum Unit {
    /// In character cells of the text's size.
    Cells,
    /// In pixels.
    Pixels,
}

/// What lies under the texts of a frame.
#[derive(Clone, Copy, Debug, PartialEq, Eq, Structural)]
pub enum Background {
    /// The machine's own video output.
    Machine,
    /// One colour all over.
    Fill(Color),
}

/// One text to draw.
#[derive(Clone, Debug, PartialEq, Eq)]
pub struct Text {
    pub text: String,
    /// The number of characters after which the text wraps.
    pub width: usize,
    pub x: usize,
    pub y: usize,
    pub unit: Unit,
    pub size: TextSize,
    pub color: Color,
}

/// A `Text` with its string as a sequence of characters.
pub struct TextView {
    pub text: Seq<char>,
    pub width: usize,
    pub x: usize,
    pub y: usize,
    pub unit: Unit,
    pub size: TextSize,
    pub color: Color,
}

impl View for Text {
    type V = TextView;

    open spec fn view(&self) -> TextView {
        TextView {
            text: self.text@,
            width: self.width,
            x: self.x,
            y: self.y,
            unit: self.unit,
            size: self.size,
            color: self.color,
        }
    }
}

impl DeepView for Text {
    type V = TextView;

    open spec fn deep_view(&self) -> TextView {
        self@
    }
}

/// One frame: the background, then the texts in the order they are drawn.
#[derive(Clone, Debug, PartialEq, Eq)]
pub struct Frame {
    pub background: Background,
    pub texts: Vec<Text>,
}

/// A `Frame` with its texts as a sequence of views.
pub struct FrameView {
    pub background: Background,
    pub texts: Seq<TextView>,
}

impl View for Frame {
    type V = FrameView;

    open spec fn view(&self) -> FrameView {
        FrameView { background: self.background, texts: self.texts.deep_view() }
    }
}

/// A small text at a cell position: what most of the console is written
/// in.
pub open spec fn small_text(text: Seq<char>, width: usize, x: usize, y: usize, color: Color) -> TextView {
    TextView { text, width, x, y, unit: Unit::Cells, size: TextSize::Small, color }
}

/// Makes the small text at a cell position.
pub fn make_small_text(text: String, width: usize, x: usize, y: usize, color: Color) -> (made: Text)
    ensures
        made@ == small_text(text@, width, x, y, color),
{
    Text { text, width, x, y, unit: Unit::Cells, size: TextSize::Small, color }
}

} // verus!
