//! Resolved draw parameters and the resources they carry.
//!
//! A [`Paint`] is what one draw call hands the backend: a draw style, a
//! colour, a blend mode, stroke geometry, and optional shader, dash and
//! blur-mask resources.  The engine rebuilds it from the rendering state on
//! every draw call; nothing here is cached.

use vstd::prelude::*;
use crate::scalar::Scalar;
use crate::style::{PaintStyle, StrokeCap, StrokeJoin, TileMode};
use crate::blend::BlendMode;
use crate::matrix::Matrix;
use crate::util::copy_vec;

verus! {

/// A colour with a byte per component.
#[derive(Clone, Copy, PartialEq, Eq, Structural, Debug)]
pub struct Rgba {
    pub red: u8,
    pub green: u8,
    pub blue: u8,
    pub alpha: u8,
}

impl Rgba {
    pub fn new(red: u8, green: u8, blue: u8, alpha: u8) -> (r: Rgba)
        ensures
            r == (Rgba { red, green, blue, alpha }),
    {
        Rgba { red, green, blue, alpha }
    }
}

/// A colour packed as `ARGB`, a byte per component, as backends store it.
#[derive(Clone, Copy, PartialEq, Eq, Structural, Debug)]
pub struct Color(pub u32);

impl Color {
    pub open spec fn spec_from_rgba(r: u8, g: u8, b: u8, a: u8) -> Color {
        Color(
            ((a as u32) << 24u32) | ((r as u32) << 16u32) | ((g as u32) << 8u32) | (b as u32),
        )
    }

    pub fn from_rgba(r: u8, g: u8, b: u8, a: u8) -> (c: Color)
        ensures
            c == Color::spec_from_rgba(r, g, b, a),
    {
        Color((a as u32) << 24u32 | (r as u32) << 16u32 | (g as u32) << 8u32 | (b as u32))
    }
}

/// A blur mask of the given sigma.
#[derive(Clone, Copy, PartialEq, Eq, Structural, Debug)]
pub struct MaskFilter {
    pub sigma: Scalar,
}

impl MaskFilter {
    /// Blur-mask construction succeeds exactly for a positive finite sigma,
    /// the domain the backend's blur filter accepts.
    pub open spec fn spec_make_blur(sigma: Scalar) -> Option<MaskFilter> {
        if sigma.spec_is_pos_finite() {
            Some(MaskFilter { sigma })
        } else {
            None
        }
    }

    pub fn make_blur(sigma: Scalar) -> (r: Option<MaskFilter>)
        ensures
            r == MaskFilter::spec_make_blur(sigma),
    {
        if sigma.is_pos_finite() {
            Some(MaskFilter { sigma })
        } else {
            None
        }
    }
}

/// A dash effect: on/off intervals and the phase at which they start.
#[derive(PartialEq, Debug)]
pub struct PathEffect {
    pub intervals: Vec<Scalar>,
    pub phase: Scalar,
}

/// The mathematical value of a [`PathEffect`].
pub struct PathEffectV {
    pub intervals: Seq<Scalar>,
    pub phase: Scalar,
}

impl View for PathEffect {
    type V = PathEffectV;

    open spec fn view(&self) -> PathEffectV {
        PathEffectV { intervals: self.intervals@, phase: self.phase }
    }
}

impl Clone for PathEffect {
    fn clone(&self) -> (res: PathEffect)
        ensures
            res@ == self@,
    {
        PathEffect { intervals: copy_vec(&self.intervals), phase: self.phase }
    }
}

/// A dash list the backend accepts: at least one on/off pair, every entry
/// finite and non-negative, and at least one entry positive.
pub open spec fn dash_intervals_ok(intervals: Seq<Scalar>) -> bool {
    &&& intervals.len() >= 2
    &&& intervals.len() % 2 == 0
    &&& forall|i: int| 0 <= i < intervals.len() ==> (#[trigger] intervals[i]).spec_is_finite_nonneg()
    &&& exists|i: int| 0 <= i < intervals.len() && (#[trigger] intervals[i]).spec_is_pos_finite()
}

impl PathEffect {
    /// Builds a dash effect from intervals and a phase; fails exactly when
    /// the interval list is not one the backend accepts.
    pub fn new_dash_path(intervals: &Vec<Scalar>, phase: Scalar) -> (r: Option<PathEffect>)
        ensures
            match r {
                Some(e) => dash_intervals_ok(intervals@) && e@.intervals == intervals@
                    && e@.phase == phase,
                None => !dash_intervals_ok(intervals@),
            },
    {
        if intervals.len() < 2 || intervals.len() % 2 != 0 {
            return None;
        }
        let mut any_pos = false;
        let mut i: usize = 0;
        while i < intervals.len()
            invariant
                i <= intervals.len(),
                forall|j: int| 0 <= j < i ==> (#[trigger] intervals@[j]).spec_is_finite_nonneg(),
                any_pos == exists|j: int|
                    0 <= j < i && (#[trigger] intervals@[j]).spec_is_pos_finite(),
            decreases intervals.len() - i,
        {
            let s = intervals[i];
            if !s.is_finite_nonneg() {
                return None;
            }
            if s.is_pos_finite() {
                any_pos = true;
            }
            i = i + 1;
        }
        if !any_pos {
            return None;
        }
        Some(PathEffect { intervals: copy_vec(intervals), phase })
    }
}

/// A gradient specification as the backend's shader constructors take it:
/// colour stops, their positions, a tile mode, and the transform the shader
/// is bound to.  The transform is the caller's current transform at paint
/// resolution, kept symbolic like every transform in this model.
#[derive(PartialEq, Debug)]
pub struct Gradient {
    pub colors: Vec<Color>,
    pub positions: Vec<Scalar>,
    pub tile_mode: TileMode,
    pub transform: Matrix,
}

/// The mathematical value of a [`Gradient`].
pub struct GradientV {
    pub colors: Seq<Color>,
    pub positions: Seq<Scalar>,
    pub tile_mode: TileMode,
    pub transform: Matrix,
}

impl View for Gradient {
    type V = GradientV;

    open spec fn view(&self) -> GradientV {
        GradientV {
            colors: self.colors@,
            positions: self.positions@,
            tile_mode: self.tile_mode,
            transform: self.transform,
        }
    }
}

impl Clone for Gradient {
    fn clone(&self) -> (res: Gradient)
        ensures
            res@ == self@,
    {
        Gradient {
            colors: copy_vec(&self.colors),
            positions: copy_vec(&self.positions),
            tile_mode: self.tile_mode,
            transform: self.transform.clone(),
        }
    }
}

/// A linear gradient between two points.
#[derive(PartialEq, Debug)]
pub struct LinearGradient {
    pub start_point: (Scalar, Scalar),
    pub end_point: (Scalar, Scalar),
    pub base: Gradient,
}

/// The mathematical value of a [`LinearGradient`].
pub struct LinearGradientV {
    pub start_point: (Scalar, Scalar),
    pub end_point: (Scalar, Scalar),
    pub base: GradientV,
}

impl View for LinearGradient {
    type V = LinearGradientV;

    open spec fn view(&self) -> LinearGradientV {
        LinearGradientV {
            start_point: self.start_point,
            end_point: self.end_point,
            base: self.base@,
        }
    }
}

impl Clone for LinearGradient {
    fn clone(&self) -> (res: LinearGradient)
        ensures
            res@ == self@,
    {
        LinearGradient {
            start_point: self.start_point,
            end_point: self.end_point,
            base: self.base.clone(),
        }
    }
}

/// A two-point conical (radial) gradient.
#[derive(PartialEq, Debug)]
pub struct TwoPointConicalGradient {
    pub start: (Scalar, Scalar),
    pub start_radius: Scalar,
    pub end: (Scalar, Scalar),
    pub end_radius: Scalar,
    pub base: Gradient,
}

/// The mathematical value of a [`TwoPointConicalGradient`].
pub struct TwoPointConicalGradientV {
    pub start: (Scalar, Scalar),
    pub start_radius: Scalar,
    pub end: (Scalar, Scalar),
    pub end_radius: Scalar,
    pub base: GradientV,
}

impl View for TwoPointConicalGradient {
    type V = TwoPointConicalGradientV;

    open spec fn view(&self) -> TwoPointConicalGradientV {
        TwoPointConicalGradientV {
            start: self.start,
            start_radius: self.start_radius,
            end: self.end,
            end_radius: self.end_radius,
            base: self.base@,
        }
    }
}

impl Clone for TwoPointConicalGradient {
    fn clone(&self) -> (res: TwoPointConicalGradient)
        ensures
            res@ == self@,
    {
        TwoPointConicalGradient {
            start: self.start,
            start_radius: self.start_radius,
            end: self.end,
            end_radius: self.end_radius,
            base: self.base.clone(),
        }
    }
}

/// A shader: the description a paint carries of how to colour each pixel.
#[derive(PartialEq, Debug)]
pub enum Shader {
    Linear(LinearGradient),
    TwoPointConical(TwoPointConicalGradient),
}

/// The mathematical value of a [`Shader`].
pub enum ShaderV {
    Linear(LinearGradientV),
    TwoPointConical(TwoPointConicalGradientV),
}

impl View for Shader {
    type V = ShaderV;

    open spec fn view(&self) -> ShaderV {
        match self {
            Shader::Linear(g) => ShaderV::Linear(g@),
            Shader::TwoPointConical(g) => ShaderV::TwoPointConical(g@),
        }
    }
}

impl Clone for Shader {
    fn clone(&self) -> (res: Shader)
        ensures
            res@ == self@,
    {
        match self {
            Shader::Linear(g) => Shader::Linear(g.clone()),
            Shader::TwoPointConical(g) => Shader::TwoPointConical(g.clone()),
        }
    }
}

/// A gradient specification the backend's shader constructors accept:
/// at least one stop, one position per colour.
pub open spec fn gradient_base_ok(g: GradientV) -> bool {
    g.colors.len() >= 1 && g.colors.len() == g.positions.len()
}

impl Shader {
    /// Builds a linear-gradient shader; fails exactly when the stop list is
    /// one the backend rejects.
    pub fn new_linear_gradient(grad: &LinearGradient) -> (r: Option<Shader>)
        ensures
            match r {
                Some(s) => gradient_base_ok(grad@.base) && s@ == ShaderV::Linear(grad@),
                None => !gradient_base_ok(grad@.base),
            },
    {
        if grad.base.colors.len() >= 1 && grad.base.colors.len() == grad.base.positions.len() {
            Some(Shader::Linear(grad.clone()))
        } else {
            None
        }
    }

    /// Builds a two-point conical shader; fails exactly when the stop list
    /// is one the backend rejects.
    pub fn new_two_point_conical_gradient(grad: &TwoPointConicalGradient) -> (r: Option<Shader>)
        ensures
            match r {
                Some(s) => gradient_base_ok(grad@.base) && s@ == ShaderV::TwoPointConical(grad@),
                None => !gradient_base_ok(grad@.base),
            },
    {
        if grad.base.colors.len() >= 1 && grad.base.colors.len() == grad.base.positions.len() {
            Some(Shader::TwoPointConical(grad.clone()))
        } else {
            None
        }
    }
}

/// Concrete draw parameters for one backend draw call.
#[derive(PartialEq, Debug)]
pub struct Paint {
    pub style: PaintStyle,
    pub color: Rgba,
    pub blend_mode: BlendMode,
    pub shader: Option<Shader>,
    pub stroke_width: Scalar,
    pub stroke_cap: StrokeCap,
    pub stroke_join: StrokeJoin,
    pub stroke_miter: Scalar,
    pub path_effect: Option<PathEffect>,
    pub mask_filter: Option<MaskFilter>,
    pub anti_alias: bool,
}

/// The mathematical value of a [`Paint`].
pub struct PaintV {
    pub style: PaintStyle,
    pub color: Rgba,
    pub blend_mode: BlendMode,
    pub shader: Option<ShaderV>,
    pub stroke_width: Scalar,
    pub stroke_cap: StrokeCap,
    pub stroke_join: StrokeJoin,
    pub stroke_miter: Scalar,
    pub path_effect: Option<PathEffectV>,
    pub mask_filter: Option<MaskFilter>,
    pub anti_alias: bool,
}

impl View for Paint {
    type V = PaintV;

    open spec fn view(&self) -> PaintV {
        PaintV {
            style: self.style,
            color: self.color,
            blend_mode: self.blend_mode,
            shader: match self.shader {
                Some(s) => Some(s@),
                None => None,
            },
            stroke_width: self.stroke_width,
            stroke_cap: self.stroke_cap,
            stroke_join: self.stroke_join,
            stroke_miter: self.stroke_miter,
            path_effect: match self.path_effect {
                Some(e) => Some(e@),
                None => None,
            },
            mask_filter: self.mask_filter,
            anti_alias: self.anti_alias,
        }
    }
}

impl Clone for Paint {
    fn clone(&self) -> (res: Paint)
        ensures
            res@ == self@,
    {
        Paint {
            style: self.style,
            color: self.color,
            blend_mode: self.blend_mode,
            shader: match &self.shader {
                Some(s) => Some(s.clone()),
                None => None,
            },
            stroke_width: self.stroke_width,
            stroke_cap: self.stroke_cap,
            stroke_join: self.stroke_join,
            stroke_miter: self.stroke_miter,
            path_effect: match &self.path_effect {
                Some(e) => Some(e.clone()),
                None => None,
            },
            mask_filter: self.mask_filter,
            anti_alias: self.anti_alias,
        }
    }
}

impl Paint {
    /// The backend's fresh-paint defaults: an opaque black fill, source-over
    /// compositing, hairline stroke geometry, no attached resources.
    pub open spec fn spec_new() -> PaintV {
        PaintV {
            style: PaintStyle::Fill,
            color: Rgba { red: 0, green: 0, blue: 0, alpha: 255 },
            blend_mode: BlendMode::SourceOver,
            shader: None,
            stroke_width: Scalar { bits: 0 },
            stroke_cap: StrokeCap::Butt,
            stroke_join: StrokeJoin::Miter,
            stroke_miter: Scalar { bits: 0x4080_0000 },
            path_effect: None,
            mask_filter: None,
            anti_alias: false,
        }
    }

    pub fn new() -> (r: Paint)
        ensures
            r@ == Paint::spec_new(),
    {
        Paint {
            style: PaintStyle::Fill,
            color: Rgba { red: 0, green: 0, blue: 0, alpha: 255 },
            blend_mode: BlendMode::SourceOver,
            shader: None,
            stroke_width: Scalar { bits: 0 },
            stroke_cap: StrokeCap::Butt,
            stroke_join: StrokeJoin::Miter,
            stroke_miter: Scalar { bits: 0x4080_0000 },
            path_effect: None,
            mask_filter: None,
            anti_alias: false,
        }
    }

    pub fn set_style(&mut self, style: PaintStyle)
        ensures
            final(self)@ == (PaintV { style, ..old(self)@ }),
    {
        self.style = style;
    }

    pub fn set_color(&mut self, r: u8, g: u8, b: u8, a: u8)
        ensures
            final(self)@ == (PaintV {
                color: Rgba { red: r, green: g, blue: b, alpha: a },
                ..old(self)@
            }),
    {
        self.color = Rgba { red: r, green: g, blue: b, alpha: a };
    }

    /// Overrides the colour's alpha component alone.
    pub fn set_alpha(&mut self, a: u8)
        ensures
            final(self)@ == (PaintV {
                color: Rgba { alpha: a, ..old(self)@.color },
                ..old(self)@
            }),
    {
        self.color = Rgba { alpha: a, ..self.color };
    }

    pub fn get_alpha(&self) -> (r: u8)
        ensures
            r == self@.color.alpha,
    {
        self.color.alpha
    }

    pub fn set_anti_alias(&mut self, aa: bool)
        ensures
            final(self)@ == (PaintV { anti_alias: aa, ..old(self)@ }),
    {
        self.anti_alias = aa;
    }

    pub fn set_blend_mode(&mut self, blend_mode: BlendMode)
        ensures
            final(self)@ == (PaintV { blend_mode, ..old(self)@ }),
    {
        self.blend_mode = blend_mode;
    }

    pub fn get_blend_mode(&self) -> (r: BlendMode)
        ensures
            r == self@.blend_mode,
    {
        self.blend_mode
    }

    pub fn set_shader(&mut self, shader: &Shader)
        ensures
            final(self)@ == (PaintV { shader: Some(shader@), ..old(self)@ }),
    {
        self.shader = Some(shader.clone());
    }

    pub fn set_stroke_width(&mut self, width: Scalar)
        ensures
            final(self)@ == (PaintV { stroke_width: width, ..old(self)@ }),
    {
        self.stroke_width = width;
    }

    pub fn set_stroke_cap(&mut self, cap: StrokeCap)
        ensures
            final(self)@ == (PaintV { stroke_cap: cap, ..old(self)@ }),
    {
        self.stroke_cap = cap;
    }

    pub fn set_stroke_join(&mut self, join: StrokeJoin)
        ensures
            final(self)@ == (PaintV { stroke_join: join, ..old(self)@ }),
    {
        self.stroke_join = join;
    }

    pub fn set_stroke_miter(&mut self, miter: Scalar)
        ensures
            final(self)@ == (PaintV { stroke_miter: miter, ..old(self)@ }),
    {
        self.stroke_miter = miter;
    }

    pub fn get_stroke_miter(&self) -> (r: Scalar)
        ensures
            r == self@.stroke_miter,
    {
        self.stroke_miter
    }

    pub fn set_path_effect(&mut self, path_effect: &PathEffect)
        ensures
            final(self)@ == (PaintV { path_effect: Some(path_effect@), ..old(self)@ }),
    {
        self.path_effect = Some(path_effect.clone());
    }

    pub fn set_mask_filter(&mut self, mask_filter: &MaskFilter)
        ensures
            final(self)@ == (PaintV { mask_filter: Some(*mask_filter), ..old(self)@ }),
    {
        self.mask_filter = Some(*mask_filter);
    }
}

impl Default for Paint {
    /// A fresh paint with a fully transparent colour and a miter limit of
    /// ten, the defaults the drawing context starts from.
    fn default() -> (r: Paint)
        ensures
            r@ == (PaintV {
                color: Rgba { red: 0, green: 0, blue: 0, alpha: 0 },
                stroke_miter: Scalar { bits: 0x4120_0000 },
                ..Paint::spec_new()
            }),
    {
        let mut paint = Paint::new();
        paint.set_color(0, 0, 0, 0);
        paint.set_stroke_miter(Scalar { bits: 0x4120_0000 });
        paint
    }
}

} // verus!
