use vstd::prelude::*;

verus! {

/// An RGBA color, eight bits per channel.
#[derive(Clone, Copy, Debug, PartialEq, Eq, Structural)]
pub struct Color {
    pub r: u8,
    pub g: u8,
    pub b: u8,
    pub a: u8,
}

/// The optional color channels of a style.
#[derive(Clone, Copy, Debug, PartialEq, Eq, Structural)]
pub struct Colors {
    pub foreground: Option<Color>,
    pub background: Option<Color>,
    pub special: Option<Color>,
}

/// Colors and decoration flags of a run of text.
#[derive(Clone, Copy, Debug, PartialEq, Eq, Structural)]
pub struct Style {
    pub colors: Colors,
    pub bold: bool,
    pub italic: bool,
    pub underline: bool,
    pub undercurl: bool,
    pub strikethrough: bool,
}

/// A style whose colors are all known: what a draw command is painted with.
#[derive(Clone, Copy, Debug, PartialEq, Eq, Structural)]
pub struct ResolvedStyle {
    pub foreground: Color,
    pub background: Color,
    pub special: Color,
    pub bold: bool,
    pub italic: bool,
    pub underline: bool,
    pub undercurl: bool,
    pub strikethrough: bool,
}

impl Style {
    /// A frame's default style must set every color channel: it is the fallback of all others.
    pub open spec fn is_complete(&self) -> bool {
        self.colors.foreground is Some && self.colors.background is Some
            && self.colors.special is Some
    }
}

/// The channel itself if set, else the fallback.
pub open spec fn channel_or(c: Option<Color>, fallback: Option<Color>) -> Color {
    match c {
        Some(v) => v,
        None => fallback.unwrap(),
    }
}

/// What a command with the given style is painted with under a frame's default style.
pub open spec fn resolved(style: Option<Style>, default_style: Style) -> ResolvedStyle {
    match style {
        Some(s) => ResolvedStyle {
            foreground: channel_or(s.colors.foreground, default_style.colors.foreground),
            background: channel_or(s.colors.background, default_style.colors.background),
            special: channel_or(s.colors.special, default_style.colors.special),
            bold: s.bold,
            italic: s.italic,
            underline: s.underline,
            undercurl: s.undercurl,
            strikethrough: s.strikethrough,
        },
        None => ResolvedStyle {
            foreground: default_style.colors.foreground.unwrap(),
            background: default_style.colors.background.unwrap(),
            special: default_style.colors.special.unwrap(),
            bold: false,
            italic: false,
            underline: false,
            undercurl: false,
            strikethrough: false,
        },
    }
}

fn pick(c: Option<Color>, fallback: Option<Color>) -> (r: Color)
    requires
        fallback is Some,
    ensures
        r == channel_or(c, fallback),
{
    match c {
        Some(v) => v,
        None => fallback.unwrap(),
    }
}

/// Resolves a command's optional style against the frame's default style.
pub fn resolve_style(style: &Option<Style>, default_style: &Style) -> (r: ResolvedStyle)
    requires
        default_style.is_complete(),
    ensures
        r == resolved(*style, *default_style),
{
    let d = &default_style.colors;
    match style {
        Some(s) => ResolvedStyle {
            foreground: pick(s.colors.foreground, d.foreground),
            background: pick(s.colors.background, d.background),
            special: pick(s.colors.special, d.special),
            bold: s.bold,
            italic: s.italic,
            underline: s.underline,
            undercurl: s.undercurl,
            strikethrough: s.strikethrough,
        },
        None => ResolvedStyle {
            foreground: pick(None, d.foreground),
            background: pick(None, d.background),
            special: pick(None, d.special),
            bold: false,
            italic: false,
            underline: false,
            undercurl: false,
            strikethrough: false,
        },
    }
}

/// A command without a style is painted in the default style's colors, with no decoration.
pub proof fn lemma_unstyled_uses_default(default_style: Style)
    requires
        default_style.is_complete(),
    ensures
        ({
            let r = resolved(None, default_style);
            &&& Some(r.background) == default_style.colors.background
            &&& Some(r.foreground) == default_style.colors.foreground
            &&& Some(r.special) == default_style.colors.special
            &&& !r.bold && !r.italic && !r.underline && !r.undercurl && !r.strikethrough
        }),
{
}

} // verus!
