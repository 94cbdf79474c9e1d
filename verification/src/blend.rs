//! Compositing (blend) modes and their canonical keywords.

use vstd::prelude::*;
use crate::error::SkError;
use crate::text::str_eq;

verus! {

broadcast use vstd::string::group_string_axioms;

/// How a draw call's output composites with what the surface already holds.
#[derive(Clone, Copy, PartialEq, Eq, Structural, Debug)]
pub enum BlendMode {
    /// Everything under the draw becomes fully transparent.
    Clear,
    /// The draw's hue and saturation with the surface's luminosity.
    Color,
    /// Darkens the surface towards the drawn colour.
    ColorBurn,
    /// Brightens the surface towards the drawn colour.
    ColorDodge,
    /// Takes the darker of the two colours.
    Darken,
    /// The draw leaves the surface untouched.
    Destination,
    /// Blends the surface onto the draw, clipped to the draw.
    DestinationATop,
    /// Keeps the surface only where the draw lands.
    DestinationIn,
    /// Keeps the surface only where the draw does not land.
    DestinationOut,
    /// The surface shows through over the draw.
    DestinationOver,
    /// The contrast-heavy difference of the two colours.
    Difference,
    /// A gentler difference of the two colours.
    Exclusion,
    /// Multiplies or screens according to the drawn colour.
    HardLight,
    /// The draw's hue with the surface's saturation and luminosity.
    Hue,
    /// Takes the lighter of the two colours.
    Lighten,
    /// The draw's luminosity with the surface's hue and saturation.
    Luminosity,
    /// Multiplies premultiplied colours, darkening the result.
    Modulate,
    /// Multiplies the two colours outright.
    Multiply,
    /// Multiplies or screens according to what the surface held.
    Overlay,
    /// Adds the two colours.
    Plus,
    /// The draw's saturation with the surface's hue and luminosity.
    Saturation,
    /// The complement of multiplying complements; brightens the result.
    Screen,
    /// Softly lightens or darkens according to the drawn colour.
    SoftLight,
    /// The draw replaces whatever was underneath.
    Source,
    /// Blends the draw onto the surface, clipped to existing content.
    SourceATop,
    /// Keeps the draw only where the surface already had content.
    SourceIn,
    /// Keeps the draw only where the surface was empty.
    SourceOut,
    /// The draw is laid over the surface (the default).
    SourceOver,
    /// Keeps each side only where the other is absent.
    Xor,
}

/// The canonical keyword of each blend mode.
pub open spec fn blend_keyword(m: BlendMode) -> Seq<char> {
    match m {
        BlendMode::Xor => "xor"@,
        BlendMode::SourceOver => "source-over"@,
        BlendMode::SourceOut => "source-out"@,
        BlendMode::SourceIn => "source-in"@,
        BlendMode::SourceATop => "source-atop"@,
        BlendMode::Source => "source"@,
        BlendMode::SoftLight => "soft-light"@,
        BlendMode::Screen => "screen"@,
        BlendMode::Saturation => "saturation"@,
        BlendMode::Plus => "plus"@,
        BlendMode::Overlay => "overlay"@,
        BlendMode::Multiply => "multiply"@,
        BlendMode::Modulate => "modulate"@,
        BlendMode::Luminosity => "luminosity"@,
        BlendMode::Lighten => "lighten"@,
        BlendMode::Hue => "hue"@,
        BlendMode::HardLight => "hard-light"@,
        BlendMode::Exclusion => "exclusion"@,
        BlendMode::Difference => "difference"@,
        BlendMode::DestinationOver => "destination-over"@,
        BlendMode::DestinationOut => "destination-out"@,
        BlendMode::DestinationIn => "destination-in"@,
        BlendMode::DestinationATop => "destination-atop"@,
        BlendMode::Destination => "destination"@,
        BlendMode::Darken => "darken"@,
        BlendMode::ColorDodge => "color-dodge"@,
        BlendMode::ColorBurn => "color-burn"@,
        BlendMode::Color => "color"@,
        BlendMode::Clear => "clear"@,
    }
}

/// The blend mode a keyword denotes, if any.
pub open spec fn blend_of(s: Seq<char>) -> Option<BlendMode> {
    if s == "xor"@ {
        Some(BlendMode::Xor)
    } else if s == "source-over"@ {
        Some(BlendMode::SourceOver)
    } else if s == "source-out"@ {
        Some(BlendMode::SourceOut)
    } else if s == "source-in"@ {
        Some(BlendMode::SourceIn)
    } else if s == "source-atop"@ {
        Some(BlendMode::SourceATop)
    } else if s == "source"@ {
        Some(BlendMode::Source)
    } else if s == "soft-light"@ {
        Some(BlendMode::SoftLight)
    } else if s == "screen"@ {
        Some(BlendMode::Screen)
    } else if s == "saturation"@ {
        Some(BlendMode::Saturation)
    } else if s == "plus"@ {
        Some(BlendMode::Plus)
    } else if s == "overlay"@ {
        Some(BlendMode::Overlay)
    } else if s == "multiply"@ {
        Some(BlendMode::Multiply)
    } else if s == "modulate"@ {
        Some(BlendMode::Modulate)
    } else if s == "luminosity"@ {
        Some(BlendMode::Luminosity)
    } else if s == "lighten"@ {
        Some(BlendMode::Lighten)
    } else if s == "hue"@ {
        Some(BlendMode::Hue)
    } else if s == "hard-light"@ {
        Some(BlendMode::HardLight)
    } else if s == "exclusion"@ {
        Some(BlendMode::Exclusion)
    } else if s == "difference"@ {
        Some(BlendMode::Difference)
    } else if s == "destination-over"@ {
        Some(BlendMode::DestinationOver)
    } else if s == "destination-out"@ {
        Some(BlendMode::DestinationOut)
    } else if s == "destination-in"@ {
        Some(BlendMode::DestinationIn)
    } else if s == "destination-atop"@ {
        Some(BlendMode::DestinationATop)
    } else if s == "destination"@ {
        Some(BlendMode::Destination)
    } else if s == "darken"@ {
        Some(BlendMode::Darken)
    } else if s == "color-dodge"@ {
        Some(BlendMode::ColorDodge)
    } else if s == "color-burn"@ {
        Some(BlendMode::ColorBurn)
    } else if s == "color"@ {
        Some(BlendMode::Color)
    } else if s == "clear"@ {
        Some(BlendMode::Clear)
    } else {
        None
    }
}

impl BlendMode {
    /// Parses a compositing keyword; any other text is a parse error.
    pub fn from_str(value: &str) -> (r: Result<BlendMode, SkError>)
        ensures
            r == match blend_of(value@) {
                Some(m) => Ok::<BlendMode, SkError>(m),
                None => Err::<BlendMode, SkError>(SkError::Parse),
            },
    {
        if str_eq(value, "xor") {
            Ok(BlendMode::Xor)
        } else if str_eq(value, "source-over") {
            Ok(BlendMode::SourceOver)
        } else if str_eq(value, "source-out") {
            Ok(BlendMode::SourceOut)
        } else if str_eq(value, "source-in") {
            Ok(BlendMode::SourceIn)
        } else if str_eq(value, "source-atop") {
            Ok(BlendMode::SourceATop)
        } else if str_eq(value, "source") {
            Ok(BlendMode::Source)
        } else if str_eq(value, "soft-light") {
            Ok(BlendMode::SoftLight)
        } else if str_eq(value, "screen") {
            Ok(BlendMode::Screen)
        } else if str_eq(value, "saturation") {
            Ok(BlendMode::Saturation)
        } else if str_eq(value, "plus") {
            Ok(BlendMode::Plus)
        } else if str_eq(value, "overlay") {
            Ok(BlendMode::Overlay)
        } else if str_eq(value, "multiply") {
            Ok(BlendMode::Multiply)
        } else if str_eq(value, "modulate") {
            Ok(BlendMode::Modulate)
        } else if str_eq(value, "luminosity") {
            Ok(BlendMode::Luminosity)
        } else if str_eq(value, "lighten") {
            Ok(BlendMode::Lighten)
        } else if str_eq(value, "hue") {
            Ok(BlendMode::Hue)
        } else if str_eq(value, "hard-light") {
            Ok(BlendMode::HardLight)
        } else if str_eq(value, "exclusion") {
            Ok(BlendMode::Exclusion)
        } else if str_eq(value, "difference") {
            Ok(BlendMode::Difference)
        } else if str_eq(value, "destination-over") {
            Ok(BlendMode::DestinationOver)
        } else if str_eq(value, "destination-out") {
            Ok(BlendMode::DestinationOut)
        } else if str_eq(value, "destination-in") {
            Ok(BlendMode::DestinationIn)
        } else if str_eq(value, "destination-atop") {
            Ok(BlendMode::DestinationATop)
        } else if str_eq(value, "destination") {
            Ok(BlendMode::Destination)
        } else if str_eq(value, "darken") {
            Ok(BlendMode::Darken)
        } else if str_eq(value, "color-dodge") {
            Ok(BlendMode::ColorDodge)
        } else if str_eq(value, "color-burn") {
            Ok(BlendMode::ColorBurn)
        } else if str_eq(value, "color") {
            Ok(BlendMode::Color)
        } else if str_eq(value, "clear") {
            Ok(BlendMode::Clear)
        } else {
            Err(SkError::Parse)
        }
    }

    pub fn as_str(&self) -> (r: &'static str)
        ensures
            r@ == blend_keyword(*self),
    {
        match self {
            BlendMode::Xor => "xor",
            BlendMode::SourceOver => "source-over",
            BlendMode::SourceOut => "source-out",
            BlendMode::SourceIn => "source-in",
            BlendMode::SourceATop => "source-atop",
            BlendMode::Source => "source",
            BlendMode::SoftLight => "soft-light",
            BlendMode::Screen => "screen",
            BlendMode::Saturation => "saturation",
            BlendMode::Plus => "plus",
            BlendMode::Overlay => "overlay",
            BlendMode::Multiply => "multiply",
            BlendMode::Modulate => "modulate",
            BlendMode::Luminosity => "luminosity",
            BlendMode::Lighten => "lighten",
            BlendMode::Hue => "hue",
            BlendMode::HardLight => "hard-light",
            BlendMode::Exclusion => "exclusion",
            BlendMode::Difference => "difference",
            BlendMode::DestinationOver => "destination-over",
            BlendMode::DestinationOut => "destination-out",
            BlendMode::DestinationIn => "destination-in",
            BlendMode::DestinationATop => "destination-atop",
            BlendMode::Destination => "destination",
            BlendMode::Darken => "darken",
            BlendMode::ColorDodge => "color-dodge",
            BlendMode::ColorBurn => "color-burn",
            BlendMode::Color => "color",
            BlendMode::Clear => "clear",
        }
    }
}

/// Every canonical keyword parses back to the mode it names: writing a
/// mode out with [`BlendMode::as_str`] and reading it with
/// [`BlendMode::from_str`] is the identity.
pub proof fn lemma_blend_keyword_parses(m: BlendMode)
    ensures
        blend_of(blend_keyword(m)) == Some(m),
{
    reveal_strlit("xor");
    assert("xor"@.len() == 3);
    reveal_strlit("source-over");
    assert("source-over"@.len() == 11);
    reveal_strlit("source-out");
    assert("source-out"@.len() == 10);
    reveal_strlit("source-in");
    assert("source-in"@.len() == 9);
    reveal_strlit("source-atop");
    assert("source-atop"@.len() == 11);
    reveal_strlit("source");
    assert("source"@.len() == 6);
    reveal_strlit("soft-light");
    assert("soft-light"@.len() == 10);
    reveal_strlit("screen");
    assert("screen"@.len() == 6);
    reveal_strlit("saturation");
    assert("saturation"@.len() == 10);
    reveal_strlit("plus");
    assert("plus"@.len() == 4);
    reveal_strlit("overlay");
    assert("overlay"@.len() == 7);
    reveal_strlit("multiply");
    assert("multiply"@.len() == 8);
    reveal_strlit("modulate");
    assert("modulate"@.len() == 8);
    reveal_strlit("luminosity");
    assert("luminosity"@.len() == 10);
    reveal_strlit("lighten");
    assert("lighten"@.len() == 7);
    reveal_strlit("hue");
    assert("hue"@.len() == 3);
    reveal_strlit("hard-light");
    assert("hard-light"@.len() == 10);
    reveal_strlit("exclusion");
    assert("exclusion"@.len() == 9);
    reveal_strlit("difference");
    assert("difference"@.len() == 10);
    reveal_strlit("destination-over");
    assert("destination-over"@.len() == 16);
    reveal_strlit("destination-out");
    assert("destination-out"@.len() == 15);
    reveal_strlit("destination-in");
    assert("destination-in"@.len() == 14);
    reveal_strlit("destination-atop");
    assert("destination-atop"@.len() == 16);
    reveal_strlit("destination");
    assert("destination"@.len() == 11);
    reveal_strlit("darken");
    assert("darken"@.len() == 6);
    reveal_strlit("color-dodge");
    assert("color-dodge"@.len() == 11);
    reveal_strlit("color-burn");
    assert("color-burn"@.len() == 10);
    reveal_strlit("color");
    assert("color"@.len() == 5);
    reveal_strlit("clear");
    assert("clear"@.len() == 5);
    match m {
        BlendMode::Xor => {
            assert(blend_of("xor"@) == Some(BlendMode::Xor));
        },
        BlendMode::SourceOver => {
            assert(blend_of("source-over"@) == Some(BlendMode::SourceOver));
        },
        BlendMode::SourceOut => {
            assert(blend_of("source-out"@) == Some(BlendMode::SourceOut));
        },
        BlendMode::SourceIn => {
            assert(blend_of("source-in"@) == Some(BlendMode::SourceIn));
        },
        BlendMode::SourceATop => {
            assert("source-atop"@[7] != "source-over"@[7]);
            assert(blend_of("source-atop"@) == Some(BlendMode::SourceATop));
        },
        BlendMode::Source => {
            assert(blend_of("source"@) == Some(BlendMode::Source));
        },
        BlendMode::SoftLight => {
            assert("soft-light"@[2] != "source-out"@[2]);
            assert(blend_of("soft-light"@) == Some(BlendMode::SoftLight));
        },
        BlendMode::Screen => {
            assert("screen"@[1] != "source"@[1]);
            assert(blend_of("screen"@) == Some(BlendMode::Screen));
        },
        BlendMode::Saturation => {
            assert("saturation"@[1] != "source-out"@[1] && "saturation"@[1] != "soft-light"@[1]);
            assert(blend_of("saturation"@) == Some(BlendMode::Saturation));
        },
        BlendMode::Plus => {
            assert(blend_of("plus"@) == Some(BlendMode::Plus));
        },
        BlendMode::Overlay => {
            assert(blend_of("overlay"@) == Some(BlendMode::Overlay));
        },
        BlendMode::Multiply => {
            assert(blend_of("multiply"@) == Some(BlendMode::Multiply));
        },
        BlendMode::Modulate => {
            assert("modulate"@[1] != "multiply"@[1]);
            assert(blend_of("modulate"@) == Some(BlendMode::Modulate));
        },
        BlendMode::Luminosity => {
            assert("luminosity"@[0] != "source-out"@[0] && "luminosity"@[0] != "soft-light"@[0] && "luminosity"@[0] != "saturation"@[0]);
            assert(blend_of("luminosity"@) == Some(BlendMode::Luminosity));
        },
        BlendMode::Lighten => {
            assert("lighten"@[0] != "overlay"@[0]);
            assert(blend_of("lighten"@) == Some(BlendMode::Lighten));
        },
        BlendMode::Hue => {
            assert("hue"@[0] != "xor"@[0]);
            assert(blend_of("hue"@) == Some(BlendMode::Hue));
        },
        BlendMode::HardLight => {
            assert("hard-light"@[0] != "source-out"@[0] && "hard-light"@[0] != "soft-light"@[0] && "hard-light"@[0] != "saturation"@[0] && "hard-light"@[0] != "luminosity"@[0]);
            assert(blend_of("hard-light"@) == Some(BlendMode::HardLight));
        },
        BlendMode::Exclusion => {
            assert("exclusion"@[0] != "source-in"@[0]);
            assert(blend_of("exclusion"@) == Some(BlendMode::Exclusion));
        },
        BlendMode::Difference => {
            assert("difference"@[0] != "source-out"@[0] && "difference"@[0] != "soft-light"@[0] && "difference"@[0] != "saturation"@[0] && "difference"@[0] != "luminosity"@[0] && "difference"@[0] != "hard-light"@[0]);
            assert(blend_of("difference"@) == Some(BlendMode::Difference));
        },
        BlendMode::DestinationOver => {
            assert(blend_of("destination-over"@) == Some(BlendMode::DestinationOver));
        },
        BlendMode::DestinationOut => {
            assert(blend_of("destination-out"@) == Some(BlendMode::DestinationOut));
        },
        BlendMode::DestinationIn => {
            assert(blend_of("destination-in"@) == Some(BlendMode::DestinationIn));
        },
        BlendMode::DestinationATop => {
            assert("destination-atop"@[12] != "destination-over"@[12]);
            assert(blend_of("destination-atop"@) == Some(BlendMode::DestinationATop));
        },
        BlendMode::Destination => {
            assert("destination"@[0] != "source-over"@[0] && "destination"@[0] != "source-atop"@[0]);
            assert(blend_of("destination"@) == Some(BlendMode::Destination));
        },
        BlendMode::Darken => {
            assert("darken"@[0] != "source"@[0] && "darken"@[0] != "screen"@[0]);
            assert(blend_of("darken"@) == Some(BlendMode::Darken));
        },
        BlendMode::ColorDodge => {
            assert("color-dodge"@[0] != "source-over"@[0] && "color-dodge"@[0] != "source-atop"@[0] && "color-dodge"@[0] != "destination"@[0]);
            assert(blend_of("color-dodge"@) == Some(BlendMode::ColorDodge));
        },
        BlendMode::ColorBurn => {
            assert("color-burn"@[0] != "source-out"@[0] && "color-burn"@[0] != "soft-light"@[0] && "color-burn"@[0] != "saturation"@[0] && "color-burn"@[0] != "luminosity"@[0] && "color-burn"@[0] != "hard-light"@[0] && "color-burn"@[0] != "difference"@[0]);
            assert(blend_of("color-burn"@) == Some(BlendMode::ColorBurn));
        },
        BlendMode::Color => {
            assert(blend_of("color"@) == Some(BlendMode::Color));
        },
        BlendMode::Clear => {
            assert("clear"@[1] != "color"@[1]);
            assert(blend_of("clear"@) == Some(BlendMode::Clear));
        },
    }
}

/// Parsing is inverse to printing: a keyword that denotes a mode is that
/// mode's canonical keyword, so a get after a successful set returns the
/// very string that was set.
pub proof fn lemma_blend_parse_is_keyword(s: Seq<char>, m: BlendMode)
    requires
        blend_of(s) == Some(m),
    ensures
        blend_keyword(m) == s,
{
}

} // verus!
