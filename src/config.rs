use vstd::prelude::*;

verus! {

/// The kind of information a segment shows.
#[derive(Clone, Copy, Debug, PartialEq, Eq, Structural)]
pub enum SegmentId {
    Model,
    Directory,
    Git,
    Usage,
    Cost,
    Session,
    OutputStyle,
    Update,
    Quota,
}

/// A terminal color: one of the 16 basic colors, one of the 256 indexed
/// colors, or a true color.
#[derive(Clone, Copy, Debug, PartialEq, Eq, Structural)]
pub enum AnsiColor {
    Color16 { c16: u8 },
    Color256 { c256: u8 },
    Rgb { r: u8, g: u8, b: u8 },
}

/// The icon of a segment, as plain text and as a Nerd Font glyph.
#[derive(Clone, Debug)]
pub struct IconConfig {
    pub plain: String,
    pub nerd_font: String,
}

/// Colors of a segment's icon, text and background; `None` keeps the
/// terminal's own.
#[derive(Clone, Copy, Debug, PartialEq, Eq, Structural)]
pub struct ColorConfig {
    pub icon: Option<AnsiColor>,
    pub text: Option<AnsiColor>,
    pub background: Option<AnsiColor>,
}

#[derive(Clone, Copy, Debug, PartialEq, Eq, Structural)]
pub struct TextStyleConfig {
    pub text_bold: bool,
}

impl Default for TextStyleConfig {
    fn default() -> (r: Self)
        ensures
            r == (TextStyleConfig { text_bold: false }),
    {
        TextStyleConfig { text_bold: false }
    }
}

/// A value of a segment option.
#[derive(Clone, Debug)]
pub enum OptionValue {
    Bool(bool),
    Text(String),
}

/// The configuration of one segment in a theme.
#[derive(Clone, Debug)]
pub struct SegmentConfig {
    pub id: SegmentId,
    pub enabled: bool,
    pub icon: IconConfig,
    pub colors: ColorConfig,
    pub styles: TextStyleConfig,
    /// Segment-specific options, keyed by name, each name at most once.
    pub options: Vec<(String, OptionValue)>,
}

impl IconConfig {
    pub fn new(plain: &str, nerd_font: &str) -> (r: IconConfig)
        ensures
            r.plain@ == plain@,
            r.nerd_font@ == nerd_font@,
    {
        IconConfig { plain: plain.to_string(), nerd_font: nerd_font.to_string() }
    }
}

} // verus!
