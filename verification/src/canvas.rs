//! The backend drawing target, modelled as a command recorder.
//!
//! The canvas keeps the state a real rasteriser would consult — the current
//! transform program, the installed clip paths, and the save stack that
//! scopes both — and records every call it receives in order.  The recorded
//! log is what the drawing pipeline's contracts speak about: which draw
//! calls happen, with which paints, and in which order.

use vstd::prelude::*;
use crate::scalar::Scalar;
use crate::style::AlphaType;
use crate::matrix::{Matrix, Transform};
use crate::path::{Path, PathV};
use crate::paint::{Paint, PaintV};

verus! {

/// One recorded backend call.
#[derive(PartialEq, Debug)]
pub enum CanvasOp {
    Save,
    Restore,
    SetTransform(Transform),
    Concat(Matrix),
    Scale(Scalar, Scalar),
    Translate(Scalar, Scalar),
    ClipPath(Path),
    DrawPath(Path, Paint),
    DrawRect(Scalar, Scalar, Scalar, Scalar, Paint),
}

/// The mathematical value of a [`CanvasOp`].
#[verifier::ext_equal]
pub enum CanvasOpV {
    Save,
    Restore,
    SetTransform(Transform),
    Concat(Matrix),
    Scale(Scalar, Scalar),
    Translate(Scalar, Scalar),
    ClipPath(PathV),
    DrawPath(PathV, PaintV),
    DrawRect(Scalar, Scalar, Scalar, Scalar, PaintV),
}

impl View for CanvasOp {
    type V = CanvasOpV;

    open spec fn view(&self) -> CanvasOpV {
        match self {
            CanvasOp::Save => CanvasOpV::Save,
            CanvasOp::Restore => CanvasOpV::Restore,
            CanvasOp::SetTransform(t) => CanvasOpV::SetTransform(*t),
            CanvasOp::Concat(m) => CanvasOpV::Concat(*m),
            CanvasOp::Scale(x, y) => CanvasOpV::Scale(*x, *y),
            CanvasOp::Translate(x, y) => CanvasOpV::Translate(*x, *y),
            CanvasOp::ClipPath(p) => CanvasOpV::ClipPath(p@),
            CanvasOp::DrawPath(p, paint) => CanvasOpV::DrawPath(p@, paint@),
            CanvasOp::DrawRect(x, y, w, h, paint) => CanvasOpV::DrawRect(*x, *y, *w, *h, paint@),
        }
    }
}

/// One saved scope: the transform and clip to return to on restore.
#[derive(PartialEq, Debug)]
pub struct CanvasFrame {
    pub transform: Matrix,
    pub clip: Vec<Path>,
}

/// The mathematical value of a [`CanvasFrame`].
#[verifier::ext_equal]
pub struct CanvasFrameV {
    pub transform: Matrix,
    pub clip: Seq<PathV>,
}

/// The views of a sequence of paths.
pub open spec fn paths_view(v: Seq<Path>) -> Seq<PathV> {
    Seq::new(v.len(), |i: int| v[i]@)
}

impl View for CanvasFrame {
    type V = CanvasFrameV;

    open spec fn view(&self) -> CanvasFrameV {
        CanvasFrameV { transform: self.transform, clip: paths_view(self.clip@) }
    }
}

/// The recording canvas.
#[derive(PartialEq, Debug)]
pub struct Canvas {
    pub transform: Matrix,
    pub clip: Vec<Path>,
    pub saved: Vec<CanvasFrame>,
    pub ops: Vec<CanvasOp>,
}

/// The mathematical value of a [`Canvas`].
#[verifier::ext_equal]
pub struct CanvasV {
    /// The active transform program.
    pub transform: Matrix,
    /// Every path installed as clip in the current scope, in order.
    pub clip: Seq<PathV>,
    /// The stack of scopes opened by save and not yet closed.
    pub saved: Seq<CanvasFrameV>,
    /// The full log of recorded calls.
    pub ops: Seq<CanvasOpV>,
}

impl View for Canvas {
    type V = CanvasV;

    open spec fn view(&self) -> CanvasV {
        CanvasV {
            transform: self.transform,
            clip: paths_view(self.clip@),
            saved: Seq::new(self.saved@.len(), |i: int| self.saved@[i]@),
            ops: Seq::new(self.ops@.len(), |i: int| self.ops@[i]@),
        }
    }
}

impl Canvas {
    /// A fresh canvas: identity transform, no clip, nothing recorded.
    pub open spec fn spec_new() -> CanvasV {
        CanvasV {
            transform: Matrix::Identity,
            clip: Seq::empty(),
            saved: Seq::empty(),
            ops: Seq::empty(),
        }
    }

    pub fn new() -> (r: Canvas)
        ensures
            r@ == Canvas::spec_new(),
    {
        let r = Canvas { transform: Matrix::Identity, clip: Vec::new(), saved: Vec::new(),
            ops: Vec::new() };
        proof {
            assert(r@ =~= Canvas::spec_new());
        }
        r
    }

    /// Saves the current transform and clip, to be restored together.
    pub fn save(&mut self)
        ensures
            final(self)@ == (CanvasV {
                saved: old(self)@.saved.push(
                    CanvasFrameV { transform: old(self)@.transform, clip: old(self)@.clip },
                ),
                ops: old(self)@.ops.push(CanvasOpV::Save),
                ..old(self)@
            }),
    {
        let frame = CanvasFrame {
            transform: self.transform.clone(),
            clip: clone_paths(&self.clip),
        };
        self.saved.push(frame);
        self.ops.push(CanvasOp::Save);
        proof {
            assert(self@.saved =~= old(self)@.saved.push(
                CanvasFrameV { transform: old(self)@.transform, clip: old(self)@.clip },
            ));
            assert(self@.ops =~= old(self)@.ops.push(CanvasOpV::Save));
            assert(self@.clip =~= old(self)@.clip);
        }
    }

    /// Restores the most recently saved transform and clip; below the
    /// outermost scope it leaves both in place.  The call is recorded
    /// either way.
    pub fn restore(&mut self)
        ensures
            final(self)@ == if old(self)@.saved.len() > 0 {
                CanvasV {
                    transform: old(self)@.saved.last().transform,
                    clip: old(self)@.saved.last().clip,
                    saved: old(self)@.saved.drop_last(),
                    ops: old(self)@.ops.push(CanvasOpV::Restore),
                }
            } else {
                CanvasV { ops: old(self)@.ops.push(CanvasOpV::Restore), ..old(self)@ }
            },
    {
        match self.saved.pop() {
            Some(frame) => {
                self.transform = frame.transform;
                self.clip = frame.clip;
            },
            None => {},
        }
        self.ops.push(CanvasOp::Restore);
        proof {
            assert(self@.ops =~= old(self)@.ops.push(CanvasOpV::Restore));
            if old(self)@.saved.len() > 0 {
                assert(self@.saved =~= old(self)@.saved.drop_last());
                assert(self@.clip =~= old(self)@.saved.last().clip);
            } else {
                assert(self@.clip =~= old(self)@.clip);
                assert(self@.saved =~= old(self)@.saved);
            }
        }
    }

    /// Replaces the active transform.
    pub fn set_transform(&mut self, ts: Transform)
        ensures
            final(self)@ == (CanvasV {
                transform: Matrix::Raw(ts),
                ops: old(self)@.ops.push(CanvasOpV::SetTransform(ts)),
                ..old(self)@
            }),
    {
        self.transform = Matrix::Raw(ts);
        self.ops.push(CanvasOp::SetTransform(ts));
        proof {
            assert(self@.ops =~= old(self)@.ops.push(CanvasOpV::SetTransform(ts)));
            assert(self@.clip =~= old(self)@.clip);
            assert(self@.saved =~= old(self)@.saved);
        }
    }

    /// Concatenates a matrix program onto the active transform.
    pub fn concat(&mut self, m: Matrix)
        ensures
            final(self)@ == (CanvasV {
                transform: Matrix::PreConcat(Box::new(old(self)@.transform), Box::new(m)),
                ops: old(self)@.ops.push(CanvasOpV::Concat(m)),
                ..old(self)@
            }),
    {
        let recorded = m.clone();
        let mut base = Matrix::Identity;
        core::mem::swap(&mut self.transform, &mut base);
        self.transform = Matrix::PreConcat(Box::new(base), Box::new(m));
        self.ops.push(CanvasOp::Concat(recorded));
        proof {
            assert(self@.ops =~= old(self)@.ops.push(CanvasOpV::Concat(m)));
            assert(self@.clip =~= old(self)@.clip);
            assert(self@.saved =~= old(self)@.saved);
        }
    }

    /// Pre-scales the active transform.
    pub fn scale(&mut self, sx: Scalar, sy: Scalar)
        ensures
            final(self)@ == (CanvasV {
                transform: Matrix::PreScale(Box::new(old(self)@.transform), sx, sy),
                ops: old(self)@.ops.push(CanvasOpV::Scale(sx, sy)),
                ..old(self)@
            }),
    {
        let mut base = Matrix::Identity;
        core::mem::swap(&mut self.transform, &mut base);
        self.transform = Matrix::PreScale(Box::new(base), sx, sy);
        self.ops.push(CanvasOp::Scale(sx, sy));
        proof {
            assert(self@.ops =~= old(self)@.ops.push(CanvasOpV::Scale(sx, sy)));
            assert(self@.clip =~= old(self)@.clip);
            assert(self@.saved =~= old(self)@.saved);
        }
    }

    /// Pre-translates the active transform.
    pub fn translate(&mut self, dx: Scalar, dy: Scalar)
        ensures
            final(self)@ == (CanvasV {
                transform: Matrix::PreTranslate(Box::new(old(self)@.transform), dx, dy),
                ops: old(self)@.ops.push(CanvasOpV::Translate(dx, dy)),
                ..old(self)@
            }),
    {
        let mut base = Matrix::Identity;
        core::mem::swap(&mut self.transform, &mut base);
        self.transform = Matrix::PreTranslate(Box::new(base), dx, dy);
        self.ops.push(CanvasOp::Translate(dx, dy));
        proof {
            assert(self@.ops =~= old(self)@.ops.push(CanvasOpV::Translate(dx, dy)));
            assert(self@.clip =~= old(self)@.clip);
            assert(self@.saved =~= old(self)@.saved);
        }
    }

    /// The active transform, as a value.
    pub fn get_transform(&self) -> (r: Matrix)
        ensures
            r == self@.transform,
    {
        self.transform.clone()
    }

    /// Installs a path as the active clip, intersecting what is already
    /// installed in this scope.
    pub fn set_clip_path(&mut self, path: &Path)
        ensures
            final(self)@ == (CanvasV {
                clip: old(self)@.clip.push(path@),
                ops: old(self)@.ops.push(CanvasOpV::ClipPath(path@)),
                ..old(self)@
            }),
    {
        self.clip.push(path.clone());
        self.ops.push(CanvasOp::ClipPath(path.clone()));
        proof {
            assert(self@.clip =~= old(self)@.clip.push(path@));
            assert(self@.ops =~= old(self)@.ops.push(CanvasOpV::ClipPath(path@)));
            assert(self@.saved =~= old(self)@.saved);
        }
    }

    /// Records one path draw.
    pub fn draw_path(&mut self, path: &Path, paint: &Paint)
        ensures
            final(self)@ == (CanvasV {
                ops: old(self)@.ops.push(CanvasOpV::DrawPath(path@, paint@)),
                ..old(self)@
            }),
    {
        self.ops.push(CanvasOp::DrawPath(path.clone(), paint.clone()));
        proof {
            assert(self@.ops =~= old(self)@.ops.push(CanvasOpV::DrawPath(path@, paint@)));
            assert(self@.clip =~= old(self)@.clip);
            assert(self@.saved =~= old(self)@.saved);
        }
    }

    /// Records one rectangle draw.
    pub fn draw_rect(&mut self, x: Scalar, y: Scalar, w: Scalar, h: Scalar, paint: &Paint)
        ensures
            final(self)@ == (CanvasV {
                ops: old(self)@.ops.push(CanvasOpV::DrawRect(x, y, w, h, paint@)),
                ..old(self)@
            }),
    {
        self.ops.push(CanvasOp::DrawRect(x, y, w, h, paint.clone()));
        proof {
            assert(self@.ops =~= old(self)@.ops.push(
                CanvasOpV::DrawRect(x, y, w, h, paint@),
            ));
            assert(self@.clip =~= old(self)@.clip);
            assert(self@.saved =~= old(self)@.saved);
        }
    }
}

/// A fresh vector with clones of the given paths.
fn clone_paths(v: &Vec<Path>) -> (r: Vec<Path>)
    ensures
        paths_view(r@) == paths_view(v@),
{
    let mut r: Vec<Path> = Vec::new();
    let mut i: usize = 0;
    while i < v.len()
        invariant
            i <= v.len(),
            r@.len() == i,
            forall|j: int| 0 <= j < i ==> (#[trigger] r@[j])@ == v@[j]@,
        decreases v.len() - i,
    {
        r.push(v[i].clone());
        i = i + 1;
    }
    proof {
        assert(paths_view(r@) =~= paths_view(v@));
    }
    r
}

/// A backend drawing target of a fixed size, exposing a recording canvas.
#[derive(PartialEq, Debug)]
pub struct Surface {
    pub width: u32,
    pub height: u32,
    pub alpha_kind: AlphaType,
    pub canvas: Canvas,
}

/// The mathematical value of a [`Surface`].
#[verifier::ext_equal]
pub struct SurfaceV {
    pub width: u32,
    pub height: u32,
    pub alpha_kind: AlphaType,
    pub canvas: CanvasV,
}

impl View for Surface {
    type V = SurfaceV;

    open spec fn view(&self) -> SurfaceV {
        SurfaceV {
            width: self.width,
            height: self.height,
            alpha_kind: self.alpha_kind,
            canvas: self.canvas@,
        }
    }
}

impl Surface {
    /// Creates a surface with straight (unpremultiplied) alpha.  In this
    /// model creation always succeeds; the option mirrors a backend that
    /// can run out of resources.
    pub fn new_rgba(width: u32, height: u32) -> (r: Option<Surface>)
        ensures
            r matches Some(s) && s@ == (SurfaceV {
                width,
                height,
                alpha_kind: AlphaType::Unpremultiplied,
                canvas: Canvas::spec_new(),
            }),
    {
        Some(Surface {
            width,
            height,
            alpha_kind: AlphaType::Unpremultiplied,
            canvas: Canvas::new(),
        })
    }

    /// Creates a surface with premultiplied alpha.
    pub fn new_rgba_premultiplied(width: u32, height: u32) -> (r: Option<Surface>)
        ensures
            r matches Some(s) && s@ == (SurfaceV {
                width,
                height,
                alpha_kind: AlphaType::Premultiplied,
                canvas: Canvas::spec_new(),
            }),
    {
        Some(Surface {
            width,
            height,
            alpha_kind: AlphaType::Premultiplied,
            canvas: Canvas::new(),
        })
    }

    pub fn width(&self) -> (r: u32)
        ensures
            r == self@.width,
    {
        self.width
    }

    pub fn height(&self) -> (r: u32)
        ensures
            r == self@.height,
    {
        self.height
    }

    pub fn alpha_type(&self) -> (r: AlphaType)
        ensures
            r == self@.alpha_kind,
    {
        self.alpha_kind
    }

    /// Saves the canvas's transform and clip.
    pub fn save(&mut self)
        ensures
            final(self)@ == (SurfaceV {
                canvas: CanvasV {
                    saved: old(self)@.canvas.saved.push(
                        CanvasFrameV {
                            transform: old(self)@.canvas.transform,
                            clip: old(self)@.canvas.clip,
                        },
                    ),
                    ops: old(self)@.canvas.ops.push(CanvasOpV::Save),
                    ..old(self)@.canvas
                },
                ..old(self)@
            }),
    {
        self.canvas.save();
    }

    /// Restores the canvas's transform and clip.
    pub fn restore(&mut self)
        ensures
            final(self)@.width == old(self)@.width,
            final(self)@.height == old(self)@.height,
            final(self)@.alpha_kind == old(self)@.alpha_kind,
            final(self)@.canvas == if old(self)@.canvas.saved.len() > 0 {
                CanvasV {
                    transform: old(self)@.canvas.saved.last().transform,
                    clip: old(self)@.canvas.saved.last().clip,
                    saved: old(self)@.canvas.saved.drop_last(),
                    ops: old(self)@.canvas.ops.push(CanvasOpV::Restore),
                }
            } else {
                CanvasV {
                    ops: old(self)@.canvas.ops.push(CanvasOpV::Restore),
                    ..old(self)@.canvas
                }
            },
    {
        self.canvas.restore();
    }

    /// Records one rectangle draw on the canvas.
    pub fn draw_rect(&mut self, x: Scalar, y: Scalar, w: Scalar, h: Scalar, paint: &Paint)
        ensures
            final(self)@ == (SurfaceV {
                canvas: CanvasV {
                    ops: old(self)@.canvas.ops.push(CanvasOpV::DrawRect(x, y, w, h, paint@)),
                    ..old(self)@.canvas
                },
                ..old(self)@
            }),
    {
        self.canvas.draw_rect(x, y, w, h, paint);
    }

    /// Records one path draw on the canvas.
    pub fn draw_path(&mut self, path: &Path, paint: &Paint)
        ensures
            final(self)@ == (SurfaceV {
                canvas: CanvasV {
                    ops: old(self)@.canvas.ops.push(CanvasOpV::DrawPath(path@, paint@)),
                    ..old(self)@.canvas
                },
                ..old(self)@
            }),
    {
        self.canvas.draw_path(path, paint);
    }
}

} // verus!
