//! Gradient value objects.
//!
//! A gradient is created with its geometry, collects colour stops, and is
//! immutable once a pattern refers to it.  It is never turned into a shader
//! at creation time: every paint resolution derives a fresh shader from it,
//! bound to the caller's current transform at that moment.

use vstd::prelude::*;
use crate::scalar::Scalar;
use crate::style::TileMode;
use crate::matrix::Matrix;
use crate::paint::{Color, Gradient, GradientV, LinearGradient, Rgba, Shader, ShaderV,
    TwoPointConicalGradient};
use crate::error::SkError;
use crate::util::copy_vec;

verus! {

/// One colour stop: a position along the gradient and its colour.
#[derive(Clone, Copy, PartialEq, Eq, Structural, Debug)]
pub struct ColorStop {
    pub offset: Scalar,
    pub color: Rgba,
}

/// The geometry a gradient was created with.
#[derive(Clone, Copy, PartialEq, Eq, Structural, Debug)]
pub enum GradientKind {
    Linear { x0: Scalar, y0: Scalar, x1: Scalar, y1: Scalar },
    Radial { x0: Scalar, y0: Scalar, r0: Scalar, x1: Scalar, y1: Scalar, r1: Scalar },
}

/// A gradient as the host sees it: geometry plus ordered colour stops.
#[derive(PartialEq, Debug)]
pub struct CanvasGradient {
    pub kind: GradientKind,
    pub stops: Vec<ColorStop>,
}

/// The mathematical value of a [`CanvasGradient`].
pub struct CanvasGradientV {
    pub kind: GradientKind,
    pub stops: Seq<ColorStop>,
}

impl View for CanvasGradient {
    type V = CanvasGradientV;

    open spec fn view(&self) -> CanvasGradientV {
        CanvasGradientV { kind: self.kind, stops: self.stops@ }
    }
}

impl Clone for CanvasGradient {
    fn clone(&self) -> (res: CanvasGradient)
        ensures
            res@ == self@,
    {
        CanvasGradient { kind: self.kind, stops: copy_vec(&self.stops) }
    }
}

/// The backend colours of a stop list: each stop's colour, packed.
pub open spec fn stop_colors(stops: Seq<ColorStop>) -> Seq<Color> {
    Seq::new(
        stops.len(),
        |i: int| Color::spec_from_rgba(
            stops[i].color.red,
            stops[i].color.green,
            stops[i].color.blue,
            stops[i].color.alpha,
        ),
    )
}

/// The positions of a stop list.
pub open spec fn stop_positions(stops: Seq<ColorStop>) -> Seq<Scalar> {
    Seq::new(stops.len(), |i: int| stops[i].offset)
}

/// The shader a gradient resolves to against a current transform, or the
/// backend-resource failure when it has no stops.
pub open spec fn spec_shader_of(g: CanvasGradientV, current: Matrix) -> Result<ShaderV, SkError> {
    if g.stops.len() == 0 {
        Err(SkError::BackendResource)
    } else {
        let base = GradientV {
            colors: stop_colors(g.stops),
            positions: stop_positions(g.stops),
            tile_mode: TileMode::Clamp,
            transform: current,
        };
        match g.kind {
            GradientKind::Linear { x0, y0, x1, y1 } => Ok(
                ShaderV::Linear(
                    crate::paint::LinearGradientV {
                        start_point: (x0, y0),
                        end_point: (x1, y1),
                        base,
                    },
                ),
            ),
            GradientKind::Radial { x0, y0, r0, x1, y1, r1 } => Ok(
                ShaderV::TwoPointConical(
                    crate::paint::TwoPointConicalGradientV {
                        start: (x0, y0),
                        start_radius: r0,
                        end: (x1, y1),
                        end_radius: r1,
                        base,
                    },
                ),
            ),
        }
    }
}

impl CanvasGradient {
    pub fn create_linear_gradient(x0: Scalar, y0: Scalar, x1: Scalar, y1: Scalar) -> (r:
        CanvasGradient)
        ensures
            r@.kind == (GradientKind::Linear { x0, y0, x1, y1 }),
            r@.stops == Seq::<ColorStop>::empty(),
    {
        CanvasGradient { kind: GradientKind::Linear { x0, y0, x1, y1 }, stops: Vec::new() }
    }

    pub fn create_radial_gradient(x0: Scalar, y0: Scalar, r0: Scalar, x1: Scalar, y1: Scalar,
        r1: Scalar) -> (r: CanvasGradient)
        ensures
            r@.kind == (GradientKind::Radial { x0, y0, r0, x1, y1, r1 }),
            r@.stops == Seq::<ColorStop>::empty(),
    {
        CanvasGradient {
            kind: GradientKind::Radial { x0, y0, r0, x1, y1, r1 },
            stops: Vec::new(),
        }
    }

    /// Appends a colour stop.  Meaningful only before the gradient is
    /// attached to a pattern; attached gradients are immutable values.
    pub fn add_color_stop(&mut self, offset: Scalar, color: Rgba)
        ensures
            final(self)@ == (CanvasGradientV {
                stops: old(self)@.stops.push(ColorStop { offset, color }),
                ..old(self)@
            }),
    {
        self.stops.push(ColorStop { offset, color });
    }

    /// Derives a fresh shader bound to the caller's current transform;
    /// fails exactly when the gradient has no stops.
    pub fn get_shader(&self, current: &Matrix) -> (r: Result<Shader, SkError>)
        ensures
            match spec_shader_of(self@, *current) {
                Ok(sv) => r matches Ok(s) && s@ == sv,
                Err(e) => r matches Err(e2) && e2 == e,
            },
    {
        let mut colors: Vec<Color> = Vec::new();
        let mut positions: Vec<Scalar> = Vec::new();
        let mut i: usize = 0;
        while i < self.stops.len()
            invariant
                i <= self.stops.len(),
                colors@ == stop_colors(self.stops@.take(i as int)),
                positions@ == stop_positions(self.stops@.take(i as int)),
            decreases self.stops.len() - i,
        {
            let stop = self.stops[i];
            colors.push(Color::from_rgba(
                stop.color.red,
                stop.color.green,
                stop.color.blue,
                stop.color.alpha,
            ));
            positions.push(stop.offset);
            proof {
                assert(colors@ =~= stop_colors(self.stops@.take(i + 1)));
                assert(positions@ =~= stop_positions(self.stops@.take(i + 1)));
            }
            i = i + 1;
        }
        proof {
            assert(self.stops@.take(self.stops@.len() as int) =~= self.stops@);
            assert(colors@ =~= stop_colors(self.stops@));
            assert(positions@ =~= stop_positions(self.stops@));
        }
        let base = Gradient {
            colors,
            positions,
            tile_mode: TileMode::Clamp,
            transform: current.clone(),
        };
        match self.kind {
            GradientKind::Linear { x0, y0, x1, y1 } => {
                let grad = LinearGradient { start_point: (x0, y0), end_point: (x1, y1), base };
                match Shader::new_linear_gradient(&grad) {
                    Some(s) => Ok(s),
                    None => Err(SkError::BackendResource),
                }
            },
            GradientKind::Radial { x0, y0, r0, x1, y1, r1 } => {
                let grad = TwoPointConicalGradient {
                    start: (x0, y0),
                    start_radius: r0,
                    end: (x1, y1),
                    end_radius: r1,
                    base,
                };
                match Shader::new_two_point_conical_gradient(&grad) {
                    Some(s) => Ok(s),
                    None => Err(SkError::BackendResource),
                }
            },
        }
    }
}

} // verus!
