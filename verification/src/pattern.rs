//! Colour sources for fills and strokes.
//!
//! A pattern is a closed variant: a solid colour carrying its original
//! textual form, a gradient value, or the unimplemented image-pattern
//! placeholder.  Colour text is parsed by the `cssparser` crate behind the
//! one trusted wrapper of this crate; everything that follows the parse is
//! verified against the parse outcome.

use vstd::prelude::*;
use crate::error::SkError;
use crate::gradient::{CanvasGradient, CanvasGradientV};
use crate::paint::Rgba;

verus! {

/// What the colour parser can say about a piece of text.
#[derive(Clone, Copy, PartialEq, Eq, Structural, Debug)]
pub enum ParsedColor {
    /// The inherited-colour keyword, which a drawing context rejects.
    CurrentColor,
    /// A concrete colour.
    Rgba(Rgba),
}

/// The outcome of CSS colour parsing on a piece of text: `None` where the
/// text is not a colour.  The grammar lives in the `cssparser` crate; this
/// name stands for its result, which depends on the text alone.
pub uninterp spec fn css_color_of(s: Seq<char>) -> Option<ParsedColor>;

/// Relies on cssparser's `Color::parse` (CSS Color Module Level 3) applied
/// to the whole text on a fresh parser: the outcome is a function of the
/// text alone.
#[verifier::external_body]
pub(crate) fn parse_color_text(text: &str) -> (r: Option<ParsedColor>)
    ensures
        r == css_color_of(text@),
{
    let mut input = cssparser::ParserInput::new(text);
    let mut parser = cssparser::Parser::new(&mut input);
    match cssparser::Color::parse(&mut parser) {
        Ok(cssparser::Color::CurrentColor) => Some(ParsedColor::CurrentColor),
        Ok(cssparser::Color::RGBA(c)) => Some(ParsedColor::Rgba(Rgba {
            red: c.red,
            green: c.green,
            blue: c.blue,
            alpha: c.alpha,
        })),
        Err(_) => None,
    }
}

/// A source of colour for a fill or stroke operation.
#[derive(PartialEq, Debug)]
pub enum Pattern {
    /// A solid colour and the text it was parsed from.
    Color(Rgba, String),
    /// A gradient value, immutable once attached; only the derived shader
    /// is recomputed per draw, against the caller's current transform.
    Gradient(CanvasGradient),
    /// A pixel-source pattern, deliberately unimplemented: paint
    /// resolution ignores it.
    ImagePattern,
}

/// The mathematical value of a [`Pattern`].
pub enum PatternV {
    Color(Rgba, Seq<char>),
    Gradient(CanvasGradientV),
    ImagePattern,
}

impl View for Pattern {
    type V = PatternV;

    open spec fn view(&self) -> PatternV {
        match self {
            Pattern::Color(c, s) => PatternV::Color(*c, s@),
            Pattern::Gradient(g) => PatternV::Gradient(g@),
            Pattern::ImagePattern => PatternV::ImagePattern,
        }
    }
}

impl Clone for Pattern {
    fn clone(&self) -> (res: Pattern)
        ensures
            res@ == self@,
    {
        match self {
            Pattern::Color(c, s) => Pattern::Color(*c, s.clone()),
            Pattern::Gradient(g) => Pattern::Gradient(g.clone()),
            Pattern::ImagePattern => Pattern::ImagePattern,
        }
    }
}

/// The pattern a parse outcome yields: a colour becomes a colour pattern
/// carrying its text, the current-colour keyword is a validation error —
/// the context has no inherited colour — and unparsable text is a parse
/// error.
pub open spec fn spec_pattern_of_parsed(text: Seq<char>, parsed: Option<ParsedColor>) -> Result<
    PatternV,
    SkError,
> {
    match parsed {
        None => Err(SkError::Parse),
        Some(ParsedColor::CurrentColor) => Err(SkError::Validation),
        Some(ParsedColor::Rgba(c)) => Ok(PatternV::Color(c, text)),
    }
}

/// Turns a parse outcome into a pattern; the whole decision after the
/// parser is here, verified for every outcome.
pub fn pattern_of_parsed(text: &str, parsed: Option<ParsedColor>) -> (r: Result<Pattern, SkError>)
    ensures
        match spec_pattern_of_parsed(text@, parsed) {
            Ok(pv) => r matches Ok(p) && p@ == pv,
            Err(e) => r matches Err(e2) && e2 == e,
        },
{
    match parsed {
        None => Err(SkError::Parse),
        Some(ParsedColor::CurrentColor) => Err(SkError::Validation),
        Some(ParsedColor::Rgba(c)) => Ok(Pattern::Color(c, text.to_owned())),
    }
}

impl Pattern {
    /// Parses colour text into a colour pattern.  Fails with a parse error
    /// on malformed input and rejects the current-colour keyword with a
    /// validation error.
    pub fn from_color(text: &str) -> (r: Result<Pattern, SkError>)
        ensures
            match spec_pattern_of_parsed(text@, css_color_of(text@)) {
                Ok(pv) => r matches Ok(p) && p@ == pv,
                Err(e) => r matches Err(e2) && e2 == e,
            },
    {
        let parsed = parse_color_text(text);
        pattern_of_parsed(text, parsed)
    }

    /// The image-pattern constructor: a stub that fails until a
    /// pixel-source capability exists.
    pub fn from_image_pattern() -> (r: Result<Pattern, SkError>)
        ensures
            r matches Err(e) && e == SkError::Unsupported,
    {
        Err(SkError::Unsupported)
    }
}

} // verus!
