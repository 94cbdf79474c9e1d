//! Small closed vocabularies of the drawing model: draw styles, fill rules,
//! stroke geometry keywords, tile modes, alpha interpretation and boolean
//! path operators.

use vstd::prelude::*;
use crate::error::SkError;
use crate::text::str_eq;

verus! {

/// Whether a paint fills the interior of geometry or strokes its outline.
#[derive(Clone, Copy, PartialEq, Eq, Structural, Debug)]
pub enum PaintStyle {
    Fill,
    Stroke,
}

/// The rule that decides which regions a path encloses.
#[derive(Clone, Copy, PartialEq, Eq, Structural, Debug)]
pub enum FillType {
    Winding,
    EvenOdd,
}

/// The canonical keyword of each fill rule.
pub open spec fn fill_rule_keyword(t: FillType) -> Seq<char> {
    match t {
        FillType::Winding => "nonzero"@,
        FillType::EvenOdd => "evenodd"@,
    }
}

/// The fill rule a keyword denotes, if any.
pub open spec fn fill_rule_of(s: Seq<char>) -> Option<FillType> {
    if s == "nonzero"@ {
        Some(FillType::Winding)
    } else if s == "evenodd"@ {
        Some(FillType::EvenOdd)
    } else {
        None
    }
}

impl FillType {
    /// Parses the two fill-rule keywords; any other text is a parse error.
    pub fn from_str(value: &str) -> (r: Result<FillType, SkError>)
        ensures
            r == match fill_rule_of(value@) {
                Some(t) => Ok::<FillType, SkError>(t),
                None => Err::<FillType, SkError>(SkError::Parse),
            },
    {
        if str_eq(value, "nonzero") {
            Ok(FillType::Winding)
        } else if str_eq(value, "evenodd") {
            Ok(FillType::EvenOdd)
        } else {
            Err(SkError::Parse)
        }
    }
}

/// The shape of a stroke's endpoints.
#[derive(Clone, Copy, PartialEq, Eq, Structural, Debug)]
pub enum StrokeCap {
    Butt,
    Round,
    Square,
}

/// The canonical keyword of each cap.
pub open spec fn stroke_cap_keyword(c: StrokeCap) -> Seq<char> {
    match c {
        StrokeCap::Butt => "butt"@,
        StrokeCap::Round => "round"@,
        StrokeCap::Square => "square"@,
    }
}

/// The cap a keyword denotes, if any.
pub open spec fn stroke_cap_of(s: Seq<char>) -> Option<StrokeCap> {
    if s == "butt"@ {
        Some(StrokeCap::Butt)
    } else if s == "round"@ {
        Some(StrokeCap::Round)
    } else if s == "square"@ {
        Some(StrokeCap::Square)
    } else {
        None
    }
}

impl StrokeCap {
    pub fn from_str(value: &str) -> (r: Result<StrokeCap, SkError>)
        ensures
            r == match stroke_cap_of(value@) {
                Some(c) => Ok::<StrokeCap, SkError>(c),
                None => Err::<StrokeCap, SkError>(SkError::Parse),
            },
    {
        if str_eq(value, "butt") {
            Ok(StrokeCap::Butt)
        } else if str_eq(value, "round") {
            Ok(StrokeCap::Round)
        } else if str_eq(value, "square") {
            Ok(StrokeCap::Square)
        } else {
            Err(SkError::Parse)
        }
    }

    pub fn as_str(&self) -> (r: &'static str)
        ensures
            r@ == stroke_cap_keyword(*self),
    {
        match self {
            StrokeCap::Butt => "butt",
            StrokeCap::Round => "round",
            StrokeCap::Square => "square",
        }
    }
}

/// How two stroked segments join.
#[derive(Clone, Copy, PartialEq, Eq, Structural, Debug)]
pub enum StrokeJoin {
    Miter,
    Round,
    Bevel,
}

/// The canonical keyword of each join.
pub open spec fn stroke_join_keyword(j: StrokeJoin) -> Seq<char> {
    match j {
        StrokeJoin::Miter => "miter"@,
        StrokeJoin::Round => "round"@,
        StrokeJoin::Bevel => "bevel"@,
    }
}

/// The join a keyword denotes, if any.
pub open spec fn stroke_join_of(s: Seq<char>) -> Option<StrokeJoin> {
    if s == "miter"@ {
        Some(StrokeJoin::Miter)
    } else if s == "round"@ {
        Some(StrokeJoin::Round)
    } else if s == "bevel"@ {
        Some(StrokeJoin::Bevel)
    } else {
        None
    }
}

impl StrokeJoin {
    pub fn from_str(value: &str) -> (r: Result<StrokeJoin, SkError>)
        ensures
            r == match stroke_join_of(value@) {
                Some(j) => Ok::<StrokeJoin, SkError>(j),
                None => Err::<StrokeJoin, SkError>(SkError::Parse),
            },
    {
        if str_eq(value, "miter") {
            Ok(StrokeJoin::Miter)
        } else if str_eq(value, "round") {
            Ok(StrokeJoin::Round)
        } else if str_eq(value, "bevel") {
            Ok(StrokeJoin::Bevel)
        } else {
            Err(SkError::Parse)
        }
    }

    pub fn as_str(&self) -> (r: &'static str)
        ensures
            r@ == stroke_join_keyword(*self),
    {
        match self {
            StrokeJoin::Miter => "miter",
            StrokeJoin::Round => "round",
            StrokeJoin::Bevel => "bevel",
        }
    }
}

/// How a shader repeats outside its natural extent.
#[derive(Clone, Copy, PartialEq, Eq, Structural, Debug)]
pub enum TileMode {
    Clamp,
    Repeat,
    Mirror,
}

/// How the alpha component of a surface's pixels is interpreted.
#[derive(Clone, Copy, PartialEq, Eq, Structural, Debug)]
pub enum AlphaType {
    Unknown,
    Opaque,
    Premultiplied,
    Unpremultiplied,
}

/// A boolean combination of two paths, delegated to the backend.
#[derive(Clone, Copy, PartialEq, Eq, Structural, Debug)]
pub enum PathOp {
    Difference,
    Intersect,
    Union,
    XOR,
    ReverseDifference,
}

} // verus!
