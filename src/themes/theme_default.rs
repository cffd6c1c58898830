//! The default theme: 16-color text on the terminal's own background.

use crate::config::{
    AnsiColor, ColorConfig, IconConfig, OptionValue, SegmentConfig, SegmentId, TextStyleConfig,
};
use vstd::prelude::*;

verus! {

pub fn model_segment() -> (r: SegmentConfig)
    ensures
        r.id == SegmentId::Model,
        r.enabled,
        r.icon.plain@ == "\u{1f916}"@,
        r.icon.nerd_font@ == "\u{e26d}"@,
        r.colors == (ColorConfig {
            icon: Some(AnsiColor::Color16 { c16: 14 }),
            text: Some(AnsiColor::Color16 { c16: 14 }),
            background: None,
        }),
        r.styles == (TextStyleConfig { text_bold: false }),
        r.options@.len() == 0,
{
    SegmentConfig {
        id: SegmentId::Model,
        enabled: true,
        icon: IconConfig::new("\u{1f916}", "\u{e26d}"),
        colors: ColorConfig {
            icon: Some(AnsiColor::Color16 { c16: 14 }),
            text: Some(AnsiColor::Color16 { c16: 14 }),
            background: None,
        },
        styles: TextStyleConfig::default(),
        options: Vec::new(),
    }
}

pub fn directory_segment() -> (r: SegmentConfig)
    ensures
        r.id == SegmentId::Directory,
        r.enabled,
        r.icon.plain@ == "\u{1f4c1}"@,
        r.icon.nerd_font@ == "\u{f024b}"@,
        r.colors == (ColorConfig {
            icon: Some(AnsiColor::Color16 { c16: 11 }),
            text: Some(AnsiColor::Color16 { c16: 10 }),
            background: None,
        }),
        r.styles == (TextStyleConfig { text_bold: false }),
        r.options@.len() == 0,
{
    SegmentConfig {
        id: SegmentId::Directory,
        enabled: true,
        icon: IconConfig::new("\u{1f4c1}", "\u{f024b}"),
        colors: ColorConfig {
            icon: Some(AnsiColor::Color16 { c16: 11 }),
            text: Some(AnsiColor::Color16 { c16: 10 }),
            background: None,
        },
        styles: TextStyleConfig::default(),
        options: Vec::new(),
    }
}

pub fn git_segment() -> (r: SegmentConfig)
    ensures
        r.id == SegmentId::Git,
        r.enabled,
        r.icon.plain@ == "\u{1f33f}"@,
        r.icon.nerd_font@ == "\u{f02a2}"@,
        r.colors == (ColorConfig {
            icon: Some(AnsiColor::Color16 { c16: 12 }),
            text: Some(AnsiColor::Color16 { c16: 12 }),
            background: None,
        }),
        r.styles == (TextStyleConfig { text_bold: false }),
        r.options@.len() == 1,
        r.options@[0].0@ == "show_sha"@,
        r.options@[0].1 == OptionValue::Bool(false),
{
    let mut options: Vec<(String, OptionValue)> = Vec::new();
    options.push(("show_sha".to_string(), OptionValue::Bool(false)));
    SegmentConfig {
        id: SegmentId::Git,
        enabled: true,
        icon: IconConfig::new("\u{1f33f}", "\u{f02a2}"),
        colors: ColorConfig {
            icon: Some(AnsiColor::Color16 { c16: 12 }),
            text: Some(AnsiColor::Color16 { c16: 12 }),
            background: None,
        },
        styles: TextStyleConfig::default(),
        options: options,
    }
}

pub fn usage_segment() -> (r: SegmentConfig)
    ensures
        r.id == SegmentId::Usage,
        r.enabled,
        r.icon.plain@ == "\u{26a1}\u{fe0f}"@,
        r.icon.nerd_font@ == "\u{f49b}"@,
        r.colors == (ColorConfig {
            icon: Some(AnsiColor::Color16 { c16: 13 }),
            text: Some(AnsiColor::Color16 { c16: 13 }),
            background: None,
        }),
        r.styles == (TextStyleConfig { text_bold: false }),
        r.options@.len() == 0,
{
    SegmentConfig {
        id: SegmentId::Usage,
        enabled: true,
        icon: IconConfig::new("\u{26a1}\u{fe0f}", "\u{f49b}"),
        colors: ColorConfig {
            icon: Some(AnsiColor::Color16 { c16: 13 }),
            text: Some(AnsiColor::Color16 { c16: 13 }),
            background: None,
        },
        styles: TextStyleConfig::default(),
        options: Vec::new(),
    }
}

pub fn cost_segment() -> (r: SegmentConfig)
    ensures
        r.id == SegmentId::Cost,
        !r.enabled,
        r.icon.plain@ == "\u{1f4b0}"@,
        r.icon.nerd_font@ == "\u{eec1}"@,
        r.colors == (ColorConfig {
            icon: Some(AnsiColor::Color16 { c16: 3 }),
            text: Some(AnsiColor::Color16 { c16: 3 }),
            background: None,
        }),
        r.styles == (TextStyleConfig { text_bold: false }),
        r.options@.len() == 0,
{
    SegmentConfig {
        id: SegmentId::Cost,
        enabled: false,
        icon: IconConfig::new("\u{1f4b0}", "\u{eec1}"),
        colors: ColorConfig {
            icon: Some(AnsiColor::Color16 { c16: 3 }),
            text: Some(AnsiColor::Color16 { c16: 3 }),
            background: None,
        },
        styles: TextStyleConfig::default(),
        options: Vec::new(),
    }
}

pub fn session_segment() -> (r: SegmentConfig)
    ensures
        r.id == SegmentId::Session,
        !r.enabled,
        r.icon.plain@ == "\u{23f1}\u{fe0f}"@,
        r.icon.nerd_font@ == "\u{f19bb}"@,
        r.colors == (ColorConfig {
            icon: Some(AnsiColor::Color16 { c16: 2 }),
            text: Some(AnsiColor::Color16 { c16: 2 }),
            background: None,
        }),
        r.styles == (TextStyleConfig { text_bold: false }),
        r.options@.len() == 0,
{
    SegmentConfig {
        id: SegmentId::Session,
        enabled: false,
        icon: IconConfig::new("\u{23f1}\u{fe0f}", "\u{f19bb}"),
        colors: ColorConfig {
            icon: Some(AnsiColor::Color16 { c16: 2 }),
            text: Some(AnsiColor::Color16 { c16: 2 }),
            background: None,
        },
        styles: TextStyleConfig::default(),
        options: Vec::new(),
    }
}

pub fn output_style_segment() -> (r: SegmentConfig)
    ensures
        r.id == SegmentId::OutputStyle,
        !r.enabled,
        r.icon.plain@ == "\u{1f3af}"@,
        r.icon.nerd_font@ == "\u{f12f5}"@,
        r.colors == (ColorConfig {
            icon: Some(AnsiColor::Color16 { c16: 6 }),
            text: Some(AnsiColor::Color16 { c16: 6 }),
            background: None,
        }),
        r.styles == (TextStyleConfig { text_bold: false }),
        r.options@.len() == 0,
{
    SegmentConfig {
        id: SegmentId::OutputStyle,
        enabled: false,
        icon: IconConfig::new("\u{1f3af}", "\u{f12f5}"),
        colors: ColorConfig {
            icon: Some(AnsiColor::Color16 { c16: 6 }),
            text: Some(AnsiColor::Color16 { c16: 6 }),
            background: None,
        },
        styles: TextStyleConfig::default(),
        options: Vec::new(),
    }
}

} // verus!
