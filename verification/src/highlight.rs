//! What a stretch of the flattened text is annotated with: a structural style
//! or a reference to a syntax class.

use vstd::prelude::*;

verus! {

/// Font weight of a stretch of text.
#[derive(Debug, Clone, Copy, PartialEq, Eq, Structural)]
pub enum Weight {
    Normal,
    Bold,
}

impl Default for Weight {
    fn default() -> (weight: Weight)
        ensures
            weight == Weight::Normal,
    {
        Weight::Normal
    }
}

/// A structural style. Two of them are equal when all three fields are.
#[derive(Debug, Clone, Copy, PartialEq, Eq, Structural)]
pub struct MarkdownHighlightStyle {
    pub italic: bool,
    pub underline: bool,
    pub weight: Weight,
}

impl MarkdownHighlightStyle {
    /// The style of text that no construct touches.
    pub open spec fn plain() -> MarkdownHighlightStyle {
        MarkdownHighlightStyle { italic: false, underline: false, weight: Weight::Normal }
    }

    /// The style of a link that is neither bold nor italic.
    pub open spec fn underlined() -> MarkdownHighlightStyle {
        MarkdownHighlightStyle { italic: false, underline: true, weight: Weight::Normal }
    }
}

impl Default for MarkdownHighlightStyle {
    fn default() -> (style: MarkdownHighlightStyle)
        ensures
            style == MarkdownHighlightStyle::plain(),
    {
        MarkdownHighlightStyle { italic: false, underline: false, weight: Weight::Normal }
    }
}

/// Identifier of a syntax class; a theme resolves it to a visual style.
#[derive(Debug, Clone, Copy, PartialEq, Eq, Structural)]
pub struct HighlightId(pub u32);

/// The annotation of one highlight entry.
#[derive(Debug, Clone, Copy, PartialEq, Eq, Structural)]
pub enum MarkdownHighlight {
    Style(MarkdownHighlightStyle),
    Code(HighlightId),
}

/// An underline, by its thickness in pixels.
#[derive(Debug, Clone, Copy, PartialEq, Eq, Structural)]
pub struct Underline {
    pub thickness: u32,
}

/// The visual properties that a highlight sets; `None` leaves a property as
/// the surrounding text has it.
#[derive(Debug, Clone, Copy, PartialEq, Eq, Structural)]
pub struct HighlightStyle {
    pub italic: Option<bool>,
    pub underline: Option<Underline>,
    pub weight: Option<Weight>,
}

impl MarkdownHighlightStyle {
    /// The visual properties that this style sets: italic and underline only
    /// where they are switched on, the weight only where it is not normal.
    pub open spec fn visual(self) -> HighlightStyle {
        HighlightStyle {
            italic: if self.italic {
                Some(true)
            } else {
                None
            },
            underline: if self.underline {
                Some(Underline { thickness: 1 })
            } else {
                None
            },
            weight: if self.weight != Weight::Normal {
                Some(self.weight)
            } else {
                None
            },
        }
    }
}

impl MarkdownHighlight {
    /// The visual style of this highlight. A structural style sets its own
    /// properties; a syntax class takes `syntax_style`, which is what the
    /// theme holds for its identifier (`None` where it holds nothing).
    pub fn to_highlight_style(&self, syntax_style: Option<HighlightStyle>) -> (visual: Option<
        HighlightStyle,
    >)
        ensures
            visual == match *self {
                MarkdownHighlight::Style(style) => Some(style.visual()),
                MarkdownHighlight::Code(_) => syntax_style,
            },
    {
        match self {
            MarkdownHighlight::Style(style) => {
                let mut highlight = HighlightStyle { italic: None, underline: None, weight: None };
                if style.italic {
                    highlight.italic = Some(true);
                }
                if style.underline {
                    highlight.underline = Some(Underline { thickness: 1 });
                }
                if style.weight != Weight::Normal {
                    highlight.weight = Some(style.weight);
                }
                Some(highlight)
            },
            MarkdownHighlight::Code(_) => syntax_style,
        }
    }
}

} // verus!
