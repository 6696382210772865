//! The forecast service's icon codes and the glyphs that stand for them.

use vstd::prelude::*;
use vstd::string::*;

use crate::text::text_eq;

verus! {

/// The icons that the forecast service names, and `Unknown` for any name
/// that is not one of them.
#[derive(Debug, Clone, Copy, PartialEq, Eq, Structural)]
pub enum WeatherIcons {
    ClearDay,
    ClearNight,
    Rain,
    Snow,
    Sleet,
    Wind,
    Fog,
    Cloudy,
    PartlyCloudyDay,
    PartlyCloudyNight,
    Unknown,
}

/// The icon that the service's code `name` stands for. The match is exact:
/// any other text, the empty one too, is `Unknown`.
pub open spec fn icon_named(name: Seq<char>) -> WeatherIcons {
    if name == "clear-day"@ {
        WeatherIcons::ClearDay
    } else if name == "clear-night"@ {
        WeatherIcons::ClearNight
    } else if name == "rain"@ {
        WeatherIcons::Rain
    } else if name == "snow"@ {
        WeatherIcons::Snow
    } else if name == "sleet"@ {
        WeatherIcons::Sleet
    } else if name == "wind"@ {
        WeatherIcons::Wind
    } else if name == "fog"@ {
        WeatherIcons::Fog
    } else if name == "cloudy"@ {
        WeatherIcons::Cloudy
    } else if name == "partly-cloudy-day"@ {
        WeatherIcons::PartlyCloudyDay
    } else if name == "partly-cloudy-night"@ {
        WeatherIcons::PartlyCloudyNight
    } else {
        WeatherIcons::Unknown
    }
}

/// The glyph of an icon: one or two pictographs, each symbol of the older
/// kind followed by the selector that asks for its emoji form, then a space.
pub open spec fn glyph(icon: WeatherIcons) -> Seq<char> {
    match icon {
        WeatherIcons::ClearDay => "\u{1F31E} "@,
        WeatherIcons::ClearNight => "\u{1F31A} "@,
        WeatherIcons::Rain => "\u{2614}\u{FE0F} "@,
        WeatherIcons::Snow => "\u{26C4}\u{FE0F} "@,
        WeatherIcons::Sleet => "\u{2614}\u{FE0F}\u{2744}\u{FE0F} "@,
        WeatherIcons::Wind => "\u{1F4A8} "@,
        WeatherIcons::Fog => "\u{1F301} "@,
        WeatherIcons::Cloudy => "\u{2601}\u{FE0F} "@,
        WeatherIcons::PartlyCloudyDay => "\u{26C5}\u{FE0F} "@,
        WeatherIcons::PartlyCloudyNight => "\u{1F31A}\u{2601}\u{FE0F} "@,
        WeatherIcons::Unknown => "\u{2753} "@,
    }
}

impl WeatherIcons {
    /// The icon for the service's code `api_icon_name`.
    pub fn new(api_icon_name: &str) -> (icon: WeatherIcons)
        ensures
            icon == icon_named(api_icon_name@),
    {
        if text_eq(api_icon_name, "clear-day") {
            WeatherIcons::ClearDay
        } else if text_eq(api_icon_name, "clear-night") {
            WeatherIcons::ClearNight
        } else if text_eq(api_icon_name, "rain") {
            WeatherIcons::Rain
        } else if text_eq(api_icon_name, "snow") {
            WeatherIcons::Snow
        } else if text_eq(api_icon_name, "sleet") {
            WeatherIcons::Sleet
        } else if text_eq(api_icon_name, "wind") {
            WeatherIcons::Wind
        } else if text_eq(api_icon_name, "fog") {
            WeatherIcons::Fog
        } else if text_eq(api_icon_name, "cloudy") {
            WeatherIcons::Cloudy
        } else if text_eq(api_icon_name, "partly-cloudy-day") {
            WeatherIcons::PartlyCloudyDay
        } else if text_eq(api_icon_name, "partly-cloudy-night") {
            WeatherIcons::PartlyCloudyNight
        } else {
            WeatherIcons::Unknown
        }
    }

    /// The glyph to print for this icon.
    pub fn to_emoji(&self) -> (emoji: String)
        ensures
            emoji@ == glyph(*self),
            emoji@.len() > 0,
    {
        proof {
            lemma_glyph_shape(*self);
        }
        let emoji = match *self {
            WeatherIcons::ClearDay => "\u{1F31E} ",
            WeatherIcons::ClearNight => "\u{1F31A} ",
            WeatherIcons::Rain => "\u{2614}\u{FE0F} ",
            WeatherIcons::Snow => "\u{26C4}\u{FE0F} ",
            WeatherIcons::Sleet => "\u{2614}\u{FE0F}\u{2744}\u{FE0F} ",
            WeatherIcons::Wind => "\u{1F4A8} ",
            WeatherIcons::Fog => "\u{1F301} ",
            WeatherIcons::Cloudy => "\u{2601}\u{FE0F} ",
            WeatherIcons::PartlyCloudyDay => "\u{26C5}\u{FE0F} ",
            WeatherIcons::PartlyCloudyNight => "\u{1F31A}\u{2601}\u{FE0F} ",
            WeatherIcons::Unknown => "\u{2753} ",
        };
        String::from_str(emoji)
    }
}

/// The glyph for the service's code `code`: that of the icon it names.
pub fn icon_to_glyph(code: &str) -> (emoji: String)
    ensures
        emoji@ == glyph(icon_named(code@)),
        emoji@.len() > 0,
{
    WeatherIcons::new(code).to_emoji()
}

/// The first character of an icon's glyph.
pub open spec fn glyph_head(icon: WeatherIcons) -> char {
    match icon {
        WeatherIcons::ClearDay => '\u{1F31E}',
        WeatherIcons::ClearNight => '\u{1F31A}',
        WeatherIcons::Rain => '\u{2614}',
        WeatherIcons::Snow => '\u{26C4}',
        WeatherIcons::Sleet => '\u{2614}',
        WeatherIcons::Wind => '\u{1F4A8}',
        WeatherIcons::Fog => '\u{1F301}',
        WeatherIcons::Cloudy => '\u{2601}',
        WeatherIcons::PartlyCloudyDay => '\u{26C5}',
        WeatherIcons::PartlyCloudyNight => '\u{1F31A}',
        WeatherIcons::Unknown => '\u{2753}',
    }
}

/// The number of characters in an icon's glyph.
pub open spec fn glyph_length(icon: WeatherIcons) -> nat {
    match icon {
        WeatherIcons::Sleet => 5,
        WeatherIcons::PartlyCloudyNight => 4,
        WeatherIcons::Rain | WeatherIcons::Snow | WeatherIcons::Cloudy
        | WeatherIcons::PartlyCloudyDay => 3,
        _ => 2,
    }
}

/// Every glyph starts with its pictograph, has the length that its
/// pictographs and selectors give it, and ends in a space.
pub proof fn lemma_glyph_shape(icon: WeatherIcons)
    ensures
        glyph(icon).len() == glyph_length(icon),
        glyph(icon).len() >= 2,
        glyph(icon)[0] == glyph_head(icon),
        glyph(icon).last() == ' ',
{
    reveal_strlit("\u{1F31E} ");
    reveal_strlit("\u{1F31A} ");
    reveal_strlit("\u{2614}\u{FE0F} ");
    reveal_strlit("\u{26C4}\u{FE0F} ");
    reveal_strlit("\u{2614}\u{FE0F}\u{2744}\u{FE0F} ");
    reveal_strlit("\u{1F4A8} ");
    reveal_strlit("\u{1F301} ");
    reveal_strlit("\u{2601}\u{FE0F} ");
    reveal_strlit("\u{26C5}\u{FE0F} ");
    reveal_strlit("\u{1F31A}\u{2601}\u{FE0F} ");
    reveal_strlit("\u{2753} ");
}

/// No two icons share a glyph.
pub proof fn lemma_glyph_injective(a: WeatherIcons, b: WeatherIcons)
    requires
        glyph(a) == glyph(b),
    ensures
        a == b,
{
    lemma_glyph_shape(a);
    lemma_glyph_shape(b);
}

} // verus!
