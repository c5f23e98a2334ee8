use vstd::prelude::*;

use crate::colour::Rgb24;

verus! {

/// Rendering attributes of one cell.  Every field is independently
/// optional: an unset field means "no opinion", and merging lets an
/// overriding style's set fields win while unset ones fall through.
#[derive(Clone, Copy, PartialEq, Eq, Structural, Debug)]
pub struct Style {
    pub foreground: Option<Rgb24>,
    pub background: Option<Rgb24>,
    pub bold: Option<bool>,
    pub underline: Option<bool>,
}

/// The merge of a base style with an overriding style: the override's set
/// fields win; its unset fields fall through to the base.
pub open spec fn merge_spec(base: Style, over: Style) -> Style {
    Style {
        foreground: if over.foreground is Some {
            over.foreground
        } else {
            base.foreground
        },
        background: if over.background is Some {
            over.background
        } else {
            base.background
        },
        bold: if over.bold is Some {
            over.bold
        } else {
            base.bold
        },
        underline: if over.underline is Some {
            over.underline
        } else {
            base.underline
        },
    }
}

impl Style {
    /// The style with no opinion on any attribute.
    pub fn new() -> (s: Style)
        ensures
            s == (Style { foreground: None, background: None, bold: None, underline: None }),
    {
        Style { foreground: None, background: None, bold: None, underline: None }
    }

    pub fn with_foreground(self, foreground: Rgb24) -> (s: Style)
        ensures
            s == (Style { foreground: Some(foreground), ..self }),
    {
        Style { foreground: Some(foreground), ..self }
    }

    pub fn with_background(self, background: Rgb24) -> (s: Style)
        ensures
            s == (Style { background: Some(background), ..self }),
    {
        Style { background: Some(background), ..self }
    }

    pub fn with_bold(self, bold: bool) -> (s: Style)
        ensures
            s == (Style { bold: Some(bold), ..self }),
    {
        Style { bold: Some(bold), ..self }
    }

    pub fn with_underline(self, underline: bool) -> (s: Style)
        ensures
            s == (Style { underline: Some(underline), ..self }),
    {
        Style { underline: Some(underline), ..self }
    }

    /// Merge `over` on top of this style.
    pub fn merge(self, over: Style) -> (s: Style)
        ensures
            s == merge_spec(self, over),
    {
        Style {
            foreground: if over.foreground.is_some() {
                over.foreground
            } else {
                self.foreground
            },
            background: if over.background.is_some() {
                over.background
            } else {
                self.background
            },
            bold: if over.bold.is_some() {
                over.bold
            } else {
                self.bold
            },
            underline: if over.underline.is_some() {
                over.underline
            } else {
                self.underline
            },
        }
    }
}

/// One character together with its style: the unit every view emits.
#[derive(Clone, Copy, PartialEq, Eq, Structural, Debug)]
pub struct ViewCell {
    pub character: char,
    pub style: Style,
}

/// The default cell: a space with the default style.
pub open spec fn default_cell() -> ViewCell {
    ViewCell {
        character: ' ',
        style: Style { foreground: None, background: None, bold: None, underline: None },
    }
}

impl ViewCell {
    /// The default cell: a space with the default style.
    pub fn new() -> (c: ViewCell)
        ensures
            c == default_cell(),
    {
        ViewCell { character: ' ', style: Style::new() }
    }

    pub fn with_character(character: char, style: Style) -> (c: ViewCell)
        ensures
            c == (ViewCell { character, style }),
    {
        ViewCell { character, style }
    }
}

} // verus!
